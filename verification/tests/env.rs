use shmemo::env::EnvVars;

#[test]
fn env_vars_insert_replaces_value() {
    let mut env = EnvVars::new();
    assert_eq!(env.len(), 0);
    env.insert("FOO".to_string(), Some("bar".to_string()));
    env.insert("MISSING".to_string(), None);
    assert_eq!(env.len(), 2);
    env.insert("FOO".to_string(), Some("baz".to_string()));
    assert_eq!(env.len(), 2);
    let entries = env.entries();
    assert_eq!(entries[0], ("FOO".to_string(), Some("baz".to_string())));
    assert_eq!(entries[1], ("MISSING".to_string(), None));
    let copy = env.duplicate();
    assert_eq!(copy.entries(), env.entries());
}
