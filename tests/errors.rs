use minimalist::error::port_text;
use minimalist::error::RemoteError;
use minimalist::error::ErrorKind;

fn s(t: &str) -> String {
    t.to_string()
}

#[test]
fn port_in_decimal() {
    assert_eq!(port_text(0), "0");
    assert_eq!(port_text(7), "7");
    assert_eq!(port_text(22), "22");
    assert_eq!(port_text(2222), "2222");
    assert_eq!(port_text(65535), "65535");
}

#[test]
fn connect_message() {
    let e = RemoteError::TcpStreamConnect(s("10.0.0.1"), 22, s("refused"));
    assert_eq!(e.message(), "Tcp stream connection to 10.0.0.1:22 error: refused");
    assert_eq!(e.kind(), ErrorKind::Connect);
}

#[test]
fn session_new_message() {
    let e = RemoteError::SessionNew(s("no memory"));
    assert_eq!(e.message(), "Session initializing error: no memory");
    assert_eq!(e.kind(), ErrorKind::SessionNew);
}

#[test]
fn handshake_message() {
    let e = RemoteError::SessionHandshake(s("bad banner"));
    assert_eq!(e.message(), "Session handshake error: bad banner");
    assert_eq!(e.kind(), ErrorKind::Handshake);
}

#[test]
fn auth_message() {
    let e = RemoteError::SessionUserAuth(s("root"), s("/root/.ssh/id_rsa"), s("denied"));
    assert_eq!(
        e.message(),
        "Session auth user root with private key file /root/.ssh/id_rsa error: denied"
    );
    assert_eq!(e.kind(), ErrorKind::Auth);
}

#[test]
fn create_file_message() {
    let e = RemoteError::CreateRemoteFile(s("/no/such/dir/f.txt"), s("scp failed"));
    assert_eq!(e.message(), "Create remote file /no/such/dir/f.txt error: scp failed");
    assert_eq!(e.kind(), ErrorKind::CreateRemoteFile);
}

#[test]
fn write_file_message() {
    let e = RemoteError::WriteRemoteFile(s("f.txt"), s("broken pipe"));
    assert_eq!(e.message(), "Write remote file f.txt error: broken pipe");
    assert_eq!(e.kind(), ErrorKind::WriteRemoteFile);
}

#[test]
fn read_file_message() {
    let e = RemoteError::ReadRemoteFile(s("f.txt"), s("invalid utf-8"));
    assert_eq!(e.message(), "Read remote file f.txt error: invalid utf-8");
    assert_eq!(e.kind(), ErrorKind::ReadRemoteFile);
}

#[test]
fn exec_message() {
    let e = RemoteError::ExecCommands(s("echo a;echo b"), s("channel closed"));
    assert_eq!(e.message(), "Execute commands echo a;echo b error: channel closed");
    assert_eq!(e.kind(), ErrorKind::ExecCommands);
}
