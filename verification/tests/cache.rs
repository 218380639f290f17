use shmemo::cache::{
    cache_dir_from, cleanup_cutoff, get_cache_paths, get_cache_paths_in_dir, is_disabled_value,
    is_temp_dir_name, join_path, should_remove_temp_dir, temp_dir_name, RenameOutcome, TempCacheDir,
};
use shmemo::error::MemoError;
use shmemo::time::Timestamp;

#[test]
fn test_get_cache_paths() {
    let (json, out, err) = get_cache_paths("/tmp/cache", "abc123");

    assert_eq!(json, "/tmp/cache/abc123/meta.json");
    assert_eq!(out, "/tmp/cache/abc123/stdout");
    assert_eq!(err, "/tmp/cache/abc123/stderr");
}

#[test]
fn test_get_cache_dir_respects_xdg() {
    let xdg_path = "/tmp/xdg-cache-home".to_string();
    let cache_dir = cache_dir_from(Some(xdg_path.clone()), Some("/home/user".to_string())).unwrap();
    assert_eq!(cache_dir, join_path(&xdg_path, "memo"));
    assert_eq!(cache_dir, "/tmp/xdg-cache-home/memo");
}

#[test]
fn cache_dir_falls_back_to_home() {
    assert_eq!(cache_dir_from(None, Some("/home/user".to_string())).unwrap(), "/home/user/.cache/memo");
    assert!(matches!(cache_dir_from(None, None), Err(MemoError::HomeNotFound)));
    assert_eq!(cache_dir_from(Some(String::new()), None).unwrap(), "memo");
}

#[test]
fn join_path_follows_unix_rules() {
    assert_eq!(join_path("/a", "b"), "/a/b");
    assert_eq!(join_path("/a/", "b"), "/a/b");
    assert_eq!(join_path("", "b"), "b");
    assert_eq!(join_path("/a", "/b"), "/b");
    assert_eq!(join_path("a", ""), "a/");
}

#[test]
fn cache_paths_in_dir_names_three_files() {
    let (json, out, err) = get_cache_paths_in_dir("/c/d.tmp.1.2/");
    assert_eq!(json, "/c/d.tmp.1.2/meta.json");
    assert_eq!(out, "/c/d.tmp.1.2/stdout");
    assert_eq!(err, "/c/d.tmp.1.2/stderr");
}

#[test]
fn temp_dir_names_are_recognized() {
    let name = temp_dir_name("abc", 4242, 1_700_000_000_000_000_000);
    assert_eq!(name, "abc.tmp.4242.1700000000000000000");
    assert!(is_temp_dir_name(&name));
    assert_eq!(temp_dir_name("d", 0, -5), "d.tmp.0.-5");
    assert_eq!(temp_dir_name("d", u32::MAX, i64::MIN), "d.tmp.4294967295.-9223372036854775808");
    assert_eq!(temp_dir_name("d", 10, 90), "d.tmp.10.90");
    assert!(!is_temp_dir_name("c5cef1373481745a45c9cb4a91a0b3e64ba4abab889a81782fd944d62aa68cb1"));
    assert!(!is_temp_dir_name("x.tmp"));
    assert!(is_temp_dir_name(".tmp."));
}

#[test]
fn orphaned_temp_dirs_are_old_temp_dirs() {
    let now = Timestamp { secs: 1_000_000, nanos: 5 };
    let cutoff = cleanup_cutoff(now);
    assert_eq!(cutoff, Some(Timestamp { secs: 1_000_000 - 86_400, nanos: 5 }));
    let old = Some(Timestamp { secs: 10, nanos: 0 });
    let recent = Some(Timestamp { secs: 999_999, nanos: 0 });
    assert!(should_remove_temp_dir(true, Some("d.tmp.1.2"), cutoff, old));
    assert!(!should_remove_temp_dir(true, Some("d.tmp.1.2"), cutoff, recent));
    assert!(!should_remove_temp_dir(false, Some("d.tmp.1.2"), cutoff, old));
    assert!(!should_remove_temp_dir(true, Some("abcdef"), cutoff, old));
    assert!(!should_remove_temp_dir(true, None, cutoff, old));
    assert!(!should_remove_temp_dir(true, Some("d.tmp.1.2"), None, old));
    assert!(!should_remove_temp_dir(true, Some("d.tmp.1.2"), cutoff, None));
    assert_eq!(cleanup_cutoff(Timestamp { secs: i64::MIN + 10, nanos: 0 }), None);
    let digest = "c5cef1373481745a45c9cb4a91a0b3e64ba4abab889a81782fd944d62aa68cb1";
    assert!(!should_remove_temp_dir(true, Some(digest), cutoff, old));
}

#[test]
fn disable_switch_needs_exactly_one() {
    assert!(is_disabled_value(&Some("1".to_string())));
    assert!(!is_disabled_value(&Some("0".to_string())));
    assert!(!is_disabled_value(&Some("11".to_string())));
    assert!(!is_disabled_value(&None));
}

#[test]
fn temp_cache_dir_commit_outcomes() {
    let mut temp = TempCacheDir::new("/cache", "abc", 7, 99);
    assert_eq!(temp.path(), "/cache/abc.tmp.7.99");
    let (json, out, err) = temp.get_paths();
    assert_eq!(json, "/cache/abc.tmp.7.99/meta.json");
    assert_eq!(out, "/cache/abc.tmp.7.99/stdout");
    assert_eq!(err, "/cache/abc.tmp.7.99/stderr");
    assert!(!temp.is_committed());
    assert_eq!(temp.commit_outcome(RenameOutcome::AlreadyExists), Some(false));
    assert_eq!(temp.commit_outcome(RenameOutcome::DirectoryNotEmpty), Some(false));
    assert_eq!(temp.commit_outcome(RenameOutcome::Failed), None);
    assert!(!temp.is_committed());
    assert_eq!(temp.commit_outcome(RenameOutcome::Renamed), Some(true));
    assert!(temp.is_committed());
}
