use shmemo::error::MemoError;
use shmemo::executor::{build_command_string, check_command, TeeRecord};

#[test]
fn test_build_command_string() {
    let cmd = build_command_string(&["echo".to_string(), "hello".to_string(), "world".to_string()]);
    assert_eq!(cmd, "echo hello world");
}

#[test]
fn test_build_command_string_single_arg() {
    let cmd = build_command_string(&["ls".to_string()]);
    assert_eq!(cmd, "ls");
}

#[test]
fn test_build_command_string_empty() {
    let cmd = build_command_string(&[]);
    assert_eq!(cmd, "");
}

#[test]
fn test_build_command_string_with_spaces() {
    let cmd = build_command_string(&["echo".to_string(), "hello world".to_string()]);
    assert_eq!(cmd, "echo hello world");
}

#[test]
fn test_build_command_string_special_chars() {
    let cmd = build_command_string(&[
        "echo".to_string(),
        "\"quoted\"".to_string(),
        "$VAR".to_string(),
    ]);
    assert_eq!(cmd, "echo \"quoted\" $VAR");
}

#[test]
fn build_command_string_keeps_empty_arguments() {
    let cmd = build_command_string(&["a".to_string(), "".to_string(), "b".to_string()]);
    assert_eq!(cmd, "a  b");
}

#[test]
fn check_command_refuses_empty_command() {
    match check_command(&[]) {
        Err(MemoError::InvalidCommand(m)) => assert_eq!(m, "No command provided"),
        _ => panic!("expected InvalidCommand"),
    }
    assert!(check_command(&["true".to_string()]).is_ok());
}

#[test]
fn tee_record_keeps_first_failure() {
    let mut rec = TeeRecord::new("/tmp/out".to_string());
    assert!(!rec.has_error());
    assert_eq!(rec.take_error_path(), None);
    rec.note_file_write(true);
    assert!(!rec.has_error());
    rec.note_file_write(false);
    rec.note_file_write(true);
    assert!(rec.has_error());
    assert_eq!(rec.take_error_path(), Some("/tmp/out".to_string()));
}
