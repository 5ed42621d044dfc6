use minimalist::error::RemoteError;
use minimalist::remote::auth_outcome;
use minimalist::remote::authenticate;
use minimalist::remote::new_session;
use minimalist::remote::transfer_request;
use minimalist::remote::FILE_MODE;

#[test]
fn file_mode_is_rw_r_r() {
    assert_eq!(FILE_MODE, 0o644);
    assert_eq!(FILE_MODE, 420);
}

#[test]
fn request_for_ascii_content() {
    let r = transfer_request("This is the file content", "remote_file.txt");
    assert_eq!(r.path, "remote_file.txt");
    assert_eq!(r.mode, 0o644);
    assert_eq!(r.size, 24);
}

#[test]
fn request_for_empty_content() {
    let r = transfer_request("", "/tmp/empty");
    assert_eq!(r.path, "/tmp/empty");
    assert_eq!(r.size, 0);
}

#[test]
fn request_counts_utf8_bytes() {
    let r = transfer_request("héllo 日本", "u.txt");
    assert_eq!(r.size, 13);
    assert_eq!(r.size, "héllo 日本".len() as u64);
}

#[test]
fn auth_refused_by_host() {
    let r = auth_outcome("alice", "/keys/missing", Ok(()), Err("unable to open key".to_string()), false);
    assert_eq!(
        r,
        Err(RemoteError::SessionUserAuth(
            "alice".to_string(),
            "/keys/missing".to_string(),
            "unable to open key".to_string()
        ))
    );
}

#[test]
fn auth_accepted_but_not_authenticated() {
    let r = auth_outcome("alice", "/keys/id", Ok(()), Ok(()), false);
    assert_eq!(
        r,
        Err(RemoteError::SessionUserAuth(
            "alice".to_string(),
            "/keys/id".to_string(),
            "session is not authenticated".to_string()
        ))
    );
}

#[test]
fn auth_accepted_and_authenticated() {
    assert_eq!(auth_outcome("alice", "/keys/id", Ok(()), Ok(()), true), Ok(()));
}

#[test]
fn auth_error_wins_over_flag() {
    let r = auth_outcome("bob", "k", Ok(()), Err("denied".to_string()), true);
    assert!(matches!(r, Err(RemoteError::SessionUserAuth(_, _, ref m)) if m == "denied"));
}

#[test]
fn session_without_connection_fails_handshake() {
    let mut sess = match new_session() {
        Ok(s) => s,
        Err(e) => panic!("session object not created: {}", e.message()),
    };
    let r = authenticate(&mut sess, "alice", "/keys/id");
    assert!(matches!(r, Err(RemoteError::SessionHandshake(_))));
}

#[test]
fn handshake_failure_comes_first() {
    let r = auth_outcome("alice", "/keys/id", Err("banner".to_string()), Err("denied".to_string()), false);
    assert_eq!(r, Err(RemoteError::SessionHandshake("banner".to_string())));
}
