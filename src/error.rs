//! What can go wrong at each stage of a remote operation, with the context
//! needed to tell what failed without running it again.

use vstd::prelude::*;

verus! {

/// One kind per place where a remote operation can fail. Each carries the
/// text of the underlying failure as its last field.
#[derive(Debug, PartialEq, Eq)]
pub enum RemoteError {
    /// The TCP connection to (address, port) could not be opened.
    TcpStreamConnect(String, u16, String),
    /// The SSH session object could not be created.
    SessionNew(String),
    /// The SSH handshake with the host failed.
    SessionHandshake(String),
    /// Authenticating (user, private key file) failed.
    SessionUserAuth(String, String, String),
    /// The remote file at this path could not be opened for copying.
    CreateRemoteFile(String, String),
    /// Sending the contents of the remote file at this path failed.
    WriteRemoteFile(String, String),
    /// Receiving the contents of the remote file at this path failed.
    ReadRemoteFile(String, String),
    /// Running this command line, or collecting its output, failed.
    ExecCommands(String, String),
}

/// The stage at which an operation failed, without its context.
#[derive(Debug, Clone, Copy, PartialEq, Eq)]
pub enum ErrorKind {
    Connect,
    SessionNew,
    Handshake,
    Auth,
    CreateRemoteFile,
    WriteRemoteFile,
    ReadRemoteFile,
    ExecCommands,
}

/// The decimal digit for `d`, below ten.
pub open spec fn digit_char(d: nat) -> char {
    if d == 0 { '0' }
    else if d == 1 { '1' }
    else if d == 2 { '2' }
    else if d == 3 { '3' }
    else if d == 4 { '4' }
    else if d == 5 { '5' }
    else if d == 6 { '6' }
    else if d == 7 { '7' }
    else if d == 8 { '8' }
    else { '9' }
}

/// `n` written in decimal, without leading zeros.
pub open spec fn decimal(n: nat) -> Seq<char>
    decreases n,
{
    if n < 10 {
        seq![digit_char(n)]
    } else {
        decimal(n / 10) + seq![digit_char(n % 10)]
    }
}

fn digit_text(d: u16) -> (r: &'static str)
    requires
        d < 10,
    ensures
        r@ == seq![digit_char(d as nat)],
{
    proof {
        reveal_strlit("0");
        reveal_strlit("1");
        reveal_strlit("2");
        reveal_strlit("3");
        reveal_strlit("4");
        reveal_strlit("5");
        reveal_strlit("6");
        reveal_strlit("7");
        reveal_strlit("8");
        reveal_strlit("9");
    }
    if d == 0 { "0" }
    else if d == 1 { "1" }
    else if d == 2 { "2" }
    else if d == 3 { "3" }
    else if d == 4 { "4" }
    else if d == 5 { "5" }
    else if d == 6 { "6" }
    else if d == 7 { "7" }
    else if d == 8 { "8" }
    else { "9" }
}

/// Writes a port number in decimal.
pub fn port_text(n: u16) -> (r: String)
    ensures
        r@ == decimal(n as nat),
    decreases n,
{
    if n < 10 {
        String::from_str(digit_text(n))
    } else {
        let mut r = port_text(n / 10);
        r.append(digit_text(n % 10));
        r
    }
}

impl RemoteError {
    /// The stage at which the operation failed.
    pub open spec fn spec_kind(self) -> ErrorKind {
        match self {
            RemoteError::TcpStreamConnect(..) => ErrorKind::Connect,
            RemoteError::SessionNew(..) => ErrorKind::SessionNew,
            RemoteError::SessionHandshake(..) => ErrorKind::Handshake,
            RemoteError::SessionUserAuth(..) => ErrorKind::Auth,
            RemoteError::CreateRemoteFile(..) => ErrorKind::CreateRemoteFile,
            RemoteError::WriteRemoteFile(..) => ErrorKind::WriteRemoteFile,
            RemoteError::ReadRemoteFile(..) => ErrorKind::ReadRemoteFile,
            RemoteError::ExecCommands(..) => ErrorKind::ExecCommands,
        }
    }

    /// The text that describes the failure to a person.
    pub open spec fn spec_message(self) -> Seq<char> {
        match self {
            RemoteError::TcpStreamConnect(addr, port, e) => "Tcp stream connection to "@ + addr@ + ":"@
                + decimal(port as nat) + " error: "@ + e@,
            RemoteError::SessionNew(e) => "Session initializing error: "@ + e@,
            RemoteError::SessionHandshake(e) => "Session handshake error: "@ + e@,
            RemoteError::SessionUserAuth(user, key, e) => "Session auth user "@ + user@
                + " with private key file "@ + key@ + " error: "@ + e@,
            RemoteError::CreateRemoteFile(path, e) => "Create remote file "@ + path@ + " error: "@ + e@,
            RemoteError::WriteRemoteFile(path, e) => "Write remote file "@ + path@ + " error: "@ + e@,
            RemoteError::ReadRemoteFile(path, e) => "Read remote file "@ + path@ + " error: "@ + e@,
            RemoteError::ExecCommands(line, e) => "Execute commands "@ + line@ + " error: "@ + e@,
        }
    }

    /// The stage at which the operation failed.
    pub fn kind(&self) -> (r: ErrorKind)
        ensures
            r == self.spec_kind(),
    {
        match self {
            RemoteError::TcpStreamConnect(..) => ErrorKind::Connect,
            RemoteError::SessionNew(..) => ErrorKind::SessionNew,
            RemoteError::SessionHandshake(..) => ErrorKind::Handshake,
            RemoteError::SessionUserAuth(..) => ErrorKind::Auth,
            RemoteError::CreateRemoteFile(..) => ErrorKind::CreateRemoteFile,
            RemoteError::WriteRemoteFile(..) => ErrorKind::WriteRemoteFile,
            RemoteError::ReadRemoteFile(..) => ErrorKind::ReadRemoteFile,
            RemoteError::ExecCommands(..) => ErrorKind::ExecCommands,
        }
    }

    /// The text that describes the failure to a person.
    pub fn message(&self) -> (r: String)
        ensures
            r@ == self.spec_message(),
    {
        match self {
            RemoteError::TcpStreamConnect(addr, port, e) => {
                let mut r = String::from_str("Tcp stream connection to ");
                r.append(addr.as_str());
                r.append(":");
                let digits = port_text(*port);
                r.append(digits.as_str());
                r.append(" error: ");
                r.append(e.as_str());
                r
            },
            RemoteError::SessionNew(e) => String::from_str("Session initializing error: ").concat(e.as_str()),
            RemoteError::SessionHandshake(e) => String::from_str("Session handshake error: ").concat(e.as_str()),
            RemoteError::SessionUserAuth(user, key, e) => {
                let mut r = String::from_str("Session auth user ");
                r.append(user.as_str());
                r.append(" with private key file ");
                r.append(key.as_str());
                r.append(" error: ");
                r.append(e.as_str());
                r
            },
            RemoteError::CreateRemoteFile(path, e) => with_context("Create remote file ", path, e),
            RemoteError::WriteRemoteFile(path, e) => with_context("Write remote file ", path, e),
            RemoteError::ReadRemoteFile(path, e) => with_context("Read remote file ", path, e),
            RemoteError::ExecCommands(line, e) => with_context("Execute commands ", line, e),
        }
    }
}

/// `what`, the context, then the underlying failure.
fn with_context(what: &str, context: &String, e: &String) -> (r: String)
    ensures
        r@ == what@ + context@ + " error: "@ + e@,
{
    let mut r = String::from_str(what);
    r.append(context.as_str());
    r.append(" error: ");
    r.append(e.as_str());
    r
}

} // verus!
