use shell_words::split;
use shmemo::digest::{compute_digest, digest_of_encodings, encode_hex};
use shmemo::env::EnvVars;

fn digest_for_args(args: &[String]) -> String {
    compute_digest(args, &EnvVars::new()).expect("failed to compute digest")
}

fn digest_for_command(command: &str) -> String {
    let args = split(command).expect("failed to parse command");
    digest_for_args(&args)
}

#[test]
fn test_digest_same_command_same_output() {
    let digest1 = digest_for_command("echo hello");
    let digest2 = digest_for_command("echo hello");
    assert_eq!(digest1, digest2);
}

#[test]
fn test_digest_different_commands_different_output() {
    let digest1 = digest_for_command("echo hello");
    let digest2 = digest_for_command("echo world");
    assert_ne!(digest1, digest2);
}

#[test]
fn test_digest_format() {
    let digest = digest_for_command("echo test");
    assert_eq!(digest.len(), 64);
    assert!(digest.chars().all(|c| c.is_ascii_hexdigit()));
}

#[test]
fn test_digest_whitespace_collapses() {
    let digest1 = digest_for_command("echo   hello");
    let digest2 = digest_for_command("echo hello");
    assert_eq!(digest1, digest2);
}

#[test]
fn test_digest_order_sensitive() {
    let digest1 = digest_for_args(&["echo".into(), "hello".into(), "world".into()]);
    let digest2 = digest_for_args(&["echo".into(), "world".into(), "hello".into()]);
    assert_ne!(digest1, digest2);
}

#[test]
fn test_digest_empty_args_known_value() {
    let digest = digest_for_command("");
    assert_eq!(digest.len(), 64);
}

#[test]
fn test_digest_quoting_changes_arguments() {
    let quoted = digest_for_command("echo 'hello world'");
    let unquoted = digest_for_command("echo hello world");
    assert_ne!(quoted, unquoted);
}

#[test]
fn test_digest_args_avoids_join_collisions() {
    let quoted = digest_for_command("echo 'a b'");
    let split_args = digest_for_command("echo a b");
    assert_ne!(quoted, split_args);
}

#[test]
fn test_digest_known_value_for_echo_hello() {
    let digest = digest_for_args(&["echo".into(), "hello".into()]);
    assert_eq!(digest.len(), 64);
    assert!(digest.chars().all(|c| c.is_ascii_hexdigit()));
}

#[test]
fn test_digest_different_env_different_output() {
    let args: Vec<String> = vec!["echo".into(), "hello".into()];

    let mut env1 = EnvVars::new();
    env1.insert("VAR".to_string(), Some("one".to_string()));
    let digest1 = compute_digest(&args, &env1).unwrap();

    let mut env2 = EnvVars::new();
    env2.insert("VAR".to_string(), Some("two".to_string()));
    let digest2 = compute_digest(&args, &env2).unwrap();

    let mut env3 = EnvVars::new();
    env3.insert("VAR".to_string(), None);
    let digest3 = compute_digest(&args, &env3).unwrap();

    assert_ne!(digest1, digest2);
    assert_ne!(digest2, digest3);
    assert_ne!(digest1, digest3);
}

#[test]
fn test_digest_same_env_same_output() {
    let args: Vec<String> = vec!["echo".into(), "hello".into()];

    let mut env1 = EnvVars::new();
    env1.insert("VAR".to_string(), Some("one".to_string()));
    let digest1 = compute_digest(&args, &env1).unwrap();

    let mut env2 = EnvVars::new();
    env2.insert("VAR".to_string(), Some("one".to_string()));
    let digest2 = compute_digest(&args, &env2).unwrap();

    assert_eq!(digest1, digest2);
}

#[test]
fn test_digest_special_characters_are_preserved() {
    let digest1 = digest_for_command("echo \"hello\" 'world' $USER");
    let digest2 = digest_for_command("echo \"hello\" 'world' $USER");
    assert_eq!(digest1, digest2);
}

#[test]
fn digest_exact_values() {
    assert_eq!(
        digest_for_args(&["echo".into(), "hello".into()]),
        "c5cef1373481745a45c9cb4a91a0b3e64ba4abab889a81782fd944d62aa68cb1"
    );
    assert_eq!(
        digest_for_args(&[]),
        "b584bc881e7d8c69f5a470d5ea86521f389f3c0c7d43c6ca08d050bda8c56891"
    );
    let mut env = EnvVars::new();
    env.insert("VAR".to_string(), Some("one".to_string()));
    assert_eq!(
        compute_digest(&["echo".to_string(), "hello".to_string()], &env).unwrap(),
        "0234e3107f8f3dee92ab6476e16be41a4dd013b9b69e93fe5b71e43ddca3cba3"
    );
}

#[test]
fn digest_env_order_does_not_matter() {
    let args: Vec<String> = vec!["env".into()];
    let mut env1 = EnvVars::new();
    env1.insert("A".to_string(), Some("1".to_string()));
    env1.insert("B".to_string(), None);
    let mut env2 = EnvVars::new();
    env2.insert("B".to_string(), None);
    env2.insert("A".to_string(), Some("1".to_string()));
    assert_eq!(compute_digest(&args, &env1).unwrap(), compute_digest(&args, &env2).unwrap());
}

#[test]
fn digest_of_encodings_hashes_the_concatenation() {
    assert_eq!(
        digest_of_encodings(b"ab", b"c"),
        "ba7816bf8f01cfea414140de5dae2223b00361a396177a9cb410ff61f20015ad"
    );
    assert_eq!(digest_of_encodings(b"a", b"bc"), digest_of_encodings(b"abc", b""));
}

#[test]
fn encode_hex_values() {
    assert_eq!(encode_hex(&[]), "");
    assert_eq!(encode_hex(&[0x00, 0x01, 0xff, 0xfe, 0x7f, 0xa0]), "0001fffe7fa0");
    let all: Vec<u8> = (0..=255u8).collect();
    assert_eq!(encode_hex(&all), hex::encode(&all));
}
