use shmemo::env::EnvVars;
use shmemo::memo::Memo;
use shmemo::time::Timestamp;

fn memo_expiring(expires_at: Option<&str>) -> Memo {
    Memo {
        cmd: vec!["echo".to_string(), "hello".to_string()],
        env: EnvVars::new(),
        exit_code: 0,
        timestamp: "2025-12-22T01:51:52.369Z".to_string(),
        expires_at: expires_at.map(|s| s.to_string()),
        digest: "abc123".to_string(),
    }
}

#[test]
fn memo_without_expiry_never_expires() {
    let memo = memo_expiring(None);
    assert_eq!(memo.expiry(), None);
    assert!(!memo.is_expired_at(Timestamp { secs: i64::MAX, nanos: 0 }));
    assert!(!memo.is_expired());
}

#[test]
fn memo_expires_strictly_after_its_time() {
    // 2025-12-22T01:51:52Z is 1766368312 seconds after the epoch.
    let memo = memo_expiring(Some("2025-12-22T01:51:52.369Z"));
    let at = Timestamp { secs: 1_766_368_312, nanos: 369_000_000 };
    assert_eq!(memo.expiry(), Some(at));
    assert!(!memo.is_expired_at(at));
    assert!(memo.is_expired_at(Timestamp { secs: at.secs, nanos: at.nanos + 1 }));
    assert!(!memo.is_expired_at(Timestamp { secs: at.secs - 1, nanos: 999_999_999 }));
    assert!(memo_expiring(Some("2000-01-01T00:00:00Z")).is_expired());
}

#[test]
fn memo_expiry_honours_offsets() {
    let memo = memo_expiring(Some("2025-12-22T03:51:52+02:00"));
    assert_eq!(memo.expiry(), Some(Timestamp { secs: 1_766_368_312, nanos: 0 }));
}

#[test]
fn memo_with_unreadable_expiry_never_expires() {
    let memo = memo_expiring(Some("tomorrow"));
    assert_eq!(memo.expiry(), None);
    assert!(!memo.is_expired());
}

#[test]
fn memo_far_future_expiry_is_not_expired() {
    let memo = memo_expiring(Some("9999-01-01T00:00:00Z"));
    assert!(!memo.is_expired());
}
