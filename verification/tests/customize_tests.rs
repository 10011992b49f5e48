use rcloud::customize::{
    customize_tool_command, customize_tool_failure, resolve_customization, temp_key_file_cleanup,
    KeySource,
};
use rcloud::error::VmError;

#[test]
fn test_resolve_skips_without_user() {
    let plan = resolve_customization(None, None, Some("ssh-ed25519 AAA".to_string()), None);
    assert!(plan.is_none());
}

#[test]
fn test_resolve_skips_without_key_source() {
    let plan = resolve_customization(Some("alice".to_string()), None, None, None);
    assert!(plan.is_none());
}

#[test]
fn test_resolve_request_user_beats_config() {
    let plan = resolve_customization(
        Some("alice".to_string()),
        Some("bob".to_string()),
        None,
        Some("/home/bob/.ssh/id_ed25519.pub".to_string()),
    )
    .unwrap();
    assert_eq!(plan.user, "alice");
    assert!(matches!(plan.key, KeySource::KeyFile { .. }));
}

#[test]
fn test_resolve_inline_key_beats_config_file() {
    let plan = resolve_customization(
        None,
        Some("bob".to_string()),
        Some("ssh-ed25519 AAA".to_string()),
        Some("/home/bob/.ssh/id_ed25519.pub".to_string()),
    )
    .unwrap();
    assert_eq!(plan.user, "bob");
    match plan.key {
        KeySource::Inline { content } => assert_eq!(content, "ssh-ed25519 AAA"),
        KeySource::KeyFile { .. } => panic!("expected inline key content"),
    }
}

#[test]
fn test_customize_tool_command() {
    let cmd = customize_tool_command("/pool/test1/root.qcow2", "alice", "/tmp/key.pub");
    assert_eq!(cmd.program, "virt-customize");
    let args: Vec<&str> = cmd.args.iter().map(|a| a.as_str()).collect();
    assert_eq!(
        args,
        vec![
            "-a",
            "/pool/test1/root.qcow2",
            "--run-command",
            "useradd -m -s /bin/bash alice",
            "--run-command",
            "echo 'alice ALL=(ALL) NOPASSWD:ALL' > /etc/sudoers.d/alice",
            "--run-command",
            "chmod 0440 /etc/sudoers.d/alice",
            "--run-command",
            "mkdir -p /home/alice/.ssh",
            "--run-command",
            "chmod 0700 /home/alice/.ssh",
            "--ssh-inject",
            "alice:file:/tmp/key.pub",
            "--run-command",
            "chown -R alice:alice /home/alice",
        ]
    );
}

#[test]
fn test_customize_tool_failure_message() {
    let e = customize_tool_failure("exit status: 1", "out", "err");
    match e {
        VmError::CustomizeTool { detail } => {
            assert_eq!(detail, "exit_code=exit status: 1, stdout=out, stderr=err");
        },
        _ => panic!("expected a customize tool failure"),
    }
}

#[test]
fn test_temp_key_removed_on_success_and_failure() {
    assert!(temp_key_file_cleanup(true, true));
    assert!(temp_key_file_cleanup(true, false));
    assert!(!temp_key_file_cleanup(false, true));
    assert!(!temp_key_file_cleanup(false, false));
}
