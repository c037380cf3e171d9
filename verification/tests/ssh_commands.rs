use benchscale::backend::ssh::{
    command_line, copy_file_commands, default_key_candidates, encode, exec_stdout_outcome,
    fetch_data_command, fetch_data_outcome, no_key_error, push_data_command, push_data_outcome,
};

#[test]
fn base64_encode_matches_data_encoding() {
    assert_eq!(encode(b"hello"), "aGVsbG8=");
}

#[test]
fn command_words_join_with_spaces() {
    let cmd = vec!["ls".to_string(), "-la".to_string(), "/tmp".to_string()];
    assert_eq!(command_line(&cmd), "ls -la /tmp");
    assert_eq!(command_line(&Vec::new()), "");
}

#[test]
fn exec_stdout_reports_failures() {
    assert_eq!(exec_stdout_outcome(0, "out".into(), "".into()).unwrap(), "out");
    let e = exec_stdout_outcome(2, "out".into(), "bad".into()).unwrap_err();
    assert_eq!(e.to_string(), "Command failed (exit 2): bad");
    let e = exec_stdout_outcome(-1, "only-out".into(), "".into()).unwrap_err();
    assert_eq!(e.to_string(), "Command failed (exit -1): only-out");
}

#[test]
fn data_transfer_commands() {
    assert_eq!(push_data_command(b"hi", "/x"), "echo 'aGk=' | base64 -d > /x");
    assert!(push_data_outcome(0, "/x", "").is_ok());
    assert_eq!(
        push_data_outcome(1, "/x", "denied").unwrap_err().to_string(),
        "push_data to /x failed: denied"
    );
    assert_eq!(fetch_data_command("/etc/hostname"), "base64 /etc/hostname");
    assert_eq!(fetch_data_outcome(0, "/f", "aGk=\n", "").unwrap(), b"hi".to_vec());
    assert_eq!(
        fetch_data_outcome(1, "/f", "", "nope").unwrap_err().to_string(),
        "fetch_data from /f failed: nope"
    );
    let e = fetch_data_outcome(0, "/f", "!!", "").unwrap_err().to_string();
    assert!(e.starts_with("base64 decode failed: "), "{}", e);
}

#[test]
fn copy_goes_through_tmp() {
    let (create, mv) = copy_file_commands(b"hi", Some("a.txt"), "/opt/a.txt");
    assert_eq!(create, "echo 'aGk=' | base64 -d > /tmp/a.txt");
    assert_eq!(mv, "mv /tmp/a.txt /opt/a.txt");
    let (create, _) = copy_file_commands(b"", None, "/opt/x");
    assert!(create.ends_with("/tmp/file"));
}

#[test]
fn key_candidates_and_error() {
    assert_eq!(
        default_key_candidates("/home/u"),
        vec!["/home/u/.ssh/id_ed25519".to_string(), "/home/u/.ssh/id_rsa".to_string()]
    );
    assert!(no_key_error().to_string().contains("id_ed25519"));
}

#[test]
fn base64_follows_rfc_4648_with_padding() {
    assert_eq!(benchscale::backend::ssh::encode(b""), "");
    assert_eq!(benchscale::backend::ssh::encode(b"M"), "TQ==");
    assert_eq!(benchscale::backend::ssh::encode(b"Ma"), "TWE=");
    assert_eq!(benchscale::backend::ssh::encode(b"Man"), "TWFu");
    assert_eq!(benchscale::backend::ssh::encode(&[0xfb, 0xff, 0xbf]), "+/+/");
}
