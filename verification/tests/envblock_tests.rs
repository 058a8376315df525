use crash_helper_client::envblock::{build_env_block, format_env_var, EnvVar};

fn var(key: &str, value: &str) -> EnvVar {
    EnvVar { key: key.as_bytes().to_vec(), value: value.as_bytes().to_vec() }
}

#[test]
fn formats_one_pair() {
    assert_eq!(format_env_var(&var("product", "Test")), b"product=Test".to_vec());
}

#[test]
fn formats_empty_value() {
    assert_eq!(format_env_var(&var("EMPTY", "")), b"EMPTY=".to_vec());
}

#[test]
fn value_may_contain_separators() {
    assert_eq!(
        format_env_var(&var("PATH", "/usr/bin:/bin=x")),
        b"PATH=/usr/bin:/bin=x".to_vec()
    );
}

#[test]
fn block_keeps_every_pair_in_order() {
    let env = vec![var("A", "1"), var("B", "2"), var("C", "3")];
    let block = build_env_block(&env);
    assert_eq!(block.len(), 3);
    assert_eq!(block[0], b"A=1".to_vec());
    assert_eq!(block[1], b"B=2".to_vec());
    assert_eq!(block[2], b"C=3".to_vec());
}

#[test]
fn empty_environment_gives_empty_block() {
    let block = build_env_block(&Vec::new());
    assert!(block.is_empty());
}

#[test]
fn check_wf_accepts_ordinary_pairs() {
    assert!(var("PATH", "/usr/bin:/bin").check_wf());
    assert!(var("EMPTY", "").check_wf());
    assert!(var("V", "a=b=c").check_wf());
}

#[test]
fn check_wf_rejects_broken_pairs() {
    assert!(!var("", "x").check_wf());
    assert!(!var("A=B", "x").check_wf());
    assert!(!EnvVar { key: vec![65, 0], value: Vec::new() }.check_wf());
    assert!(!EnvVar { key: vec![65], value: vec![0] }.check_wf());
}
