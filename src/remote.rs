//! Opening an SSH session, copying file contents over SCP, and running a
//! command batch on one channel.
//!
//! Every step that talks to the host is a single call into the `ssh2`
//! crate. What comes back from the host is not known in advance, so each
//! operation hands the outcome of every stage to a verified function of
//! its own (`auth_outcome`, `transfer_failure`, `transfer_step`,
//! `read_outcome`, `exec_failure`, `exec_step`, `exec_outcome`) whose contract says exactly what that outcome becomes.
//!
//! Host keys: the host's key is accepted as offered. No known-hosts file
//! is consulted and no fingerprint is compared; a caller that needs that
//! must check the key on the session before authenticating.

use vstd::prelude::*;
use vstd::string::StringSliceAdditionalSpecFns;

use crate::command::command_views;
use crate::command::join_commands;
use crate::command::joined;
use crate::error::RemoteError;
use crate::ssh::channel_close;
use crate::ssh::channel_exec;
use crate::ssh::channel_merge_extended_data;
use crate::ssh::channel_read_to_string;
use crate::ssh::channel_send_eof;
use crate::ssh::channel_session;
use crate::ssh::channel_wait_close;
use crate::ssh::channel_wait_eof;
use crate::ssh::channel_write_all;
use crate::ssh::io_error_text;
use crate::ssh::scp_recv;
use crate::ssh::scp_send;
use crate::ssh::session_authenticated;
use crate::ssh::session_handshake;
use crate::ssh::session_new;
use crate::ssh::session_userauth_pubkey_file;
use crate::ssh::ssh_error_text;

pub use ssh2::Session;

verus! {

/// Permission bits of every file copied to the host: `rw-r--r--`.
pub const FILE_MODE: i32 = 0o644;

/// What an SCP upload announces before any content is sent.
pub struct TransferRequest {
    /// Where the file goes on the host.
    pub path: String,
    /// Its permission bits.
    pub mode: i32,
    /// Its length in bytes.
    pub size: u64,
}

/// The upload of `content` to `remote_file`: the path as given, the fixed
/// file mode, and the UTF-8 length of the content.
pub fn transfer_request(content: &str, remote_file: &str) -> (r: TransferRequest)
    ensures
        r.path@ == remote_file@,
        r.mode == FILE_MODE,
        r.size == content.spec_bytes().len(),
{
    let size = content.as_bytes().len() as u64;
    TransferRequest { path: String::from_str(remote_file), mode: FILE_MODE, size }
}

/// The failure text given when the key was accepted but the session still
/// reports itself unauthenticated.
pub open spec fn not_authenticated_text() -> Seq<char> {
    "session is not authenticated"@
}

/// Decides how establishing a session ended, from the outcome of the
/// handshake, of the key attempt (not looked at when the handshake failed)
/// and whether the session then reports itself authenticated. The first
/// stage that failed names the error.
pub fn auth_outcome(
    username: &str,
    privatekey: &str,
    handshake: Result<(), String>,
    attempt: Result<(), String>,
    authenticated: bool,
) -> (r: Result<(), RemoteError>)
    ensures
        r is Ok <==> (handshake is Ok && attempt is Ok && authenticated),
        handshake matches Err(m) ==> (r matches Err(e) && e matches RemoteError::SessionHandshake(why)
            && why@ == m@),
        handshake is Ok && r is Err ==> (r->Err_0 matches RemoteError::SessionUserAuth(user, key, why)
            && user@ == username@ && key@ == privatekey@ && why@ == (match attempt {
            Err(m) => m@,
            Ok(_) => not_authenticated_text(),
        })),
{
    if let Err(m) = handshake {
        return Err(RemoteError::SessionHandshake(m));
    }
    match attempt {
        Err(m) => Err(
            RemoteError::SessionUserAuth(String::from_str(username), String::from_str(privatekey), m),
        ),
        Ok(()) => {
            if authenticated {
                Ok(())
            } else {
                Err(
                    RemoteError::SessionUserAuth(
                        String::from_str(username),
                        String::from_str(privatekey),
                        String::from_str("session is not authenticated"),
                    ),
                )
            }
        },
    }
}

/// Creates a session object, not yet bound to a connection.
pub fn new_session() -> (r: Result<Session, RemoteError>)
    ensures
        r matches Err(e) ==> e is SessionNew,
{
    match session_new() {
        Ok(s) => Ok(s),
        Err(e) => Err(RemoteError::SessionNew(ssh_error_text(&e))),
    }
}

/// Runs the handshake on a session bound to a connection, then, only if it
/// succeeded, authenticates `username` with the private key file at
/// `privatekey`. Succeeds only if the session then reports itself
/// authenticated; no other method of authentication is tried. What each
/// outcome becomes is the contract of `auth_outcome`.
pub fn authenticate(sess: &mut Session, username: &str, privatekey: &str) -> (r: Result<(), RemoteError>)
    ensures
        r matches Err(e) ==> e is SessionHandshake || (e matches RemoteError::SessionUserAuth(user, key, _)
            && user@ == username@ && key@ == privatekey@),
{
    let handshake = match session_handshake(sess) {
        Ok(()) => Ok(()),
        Err(e) => Err(ssh_error_text(&e)),
    };
    let mut attempt = Ok(());
    let mut authenticated = false;
    if handshake.is_ok() {
        attempt = match session_userauth_pubkey_file(sess, username, privatekey) {
            Ok(()) => Ok(()),
            Err(e) => Err(ssh_error_text(&e)),
        };
        if attempt.is_ok() {
            authenticated = session_authenticated(sess);
        }
    }
    auth_outcome(username, privatekey, handshake, attempt, authenticated)
}

/// The stages of copying a file over SCP, in the order they run.
#[derive(Debug, Clone, Copy, PartialEq, Eq)]
pub enum TransferStage {
    /// Opening the channel for the file.
    Open,
    /// Sending the file's contents.
    Write,
    /// Telling the host that no more data follows.
    SendEof,
    /// Waiting for the host's acknowledgement of the end of data.
    WaitEof,
    /// Closing the channel.
    Close,
    /// Waiting for the host to close the channel.
    WaitClose,
}

/// The error for a failure, with text `m`, of one stage of copying the
/// file at `remote_file`: `CreateRemoteFile` when the channel could not be
/// opened, `WriteRemoteFile` at any later stage, both with the path.
pub fn transfer_failure(remote_file: &str, stage: TransferStage, m: String) -> (r: RemoteError)
    ensures
        stage is Open ==> (r matches RemoteError::CreateRemoteFile(p, why) && p@ == remote_file@
            && why@ == m@),
        !(stage is Open) ==> (r matches RemoteError::WriteRemoteFile(p, why) && p@ == remote_file@
            && why@ == m@),
{
    match stage {
        TransferStage::Open => RemoteError::CreateRemoteFile(String::from_str(remote_file), m),
        _ => RemoteError::WriteRemoteFile(String::from_str(remote_file), m),
    }
}

/// What the outcome of one stage of copying the file at `remote_file`
/// becomes: success stays success, a failure is `transfer_failure`'s error.
pub fn transfer_step(remote_file: &str, stage: TransferStage, outcome: Result<(), String>) -> (r: Result<
    (),
    RemoteError,
>)
    ensures
        r is Ok <==> outcome is Ok,
        outcome matches Err(m) ==> (r matches Err(e) && (if stage is Open {
            e matches RemoteError::CreateRemoteFile(p, why) && p@ == remote_file@ && why@ == m@
        } else {
            e matches RemoteError::WriteRemoteFile(p, why) && p@ == remote_file@ && why@ == m@
        })),
{
    match outcome {
        Ok(()) => Ok(()),
        Err(m) => Err(transfer_failure(remote_file, stage, m)),
    }
}

/// The text of a failed stage that reported an SSH error, or success.
fn ssh_outcome(outcome: Result<(), ssh2::Error>) -> (r: Result<(), String>)
    ensures
        r is Ok <==> outcome is Ok,
{
    match outcome {
        Ok(()) => Ok(()),
        Err(e) => Err(ssh_error_text(&e)),
    }
}

/// Copies `content` to `remote_file` on the host with mode `rw-r--r--`,
/// then sends end of data, waits for the host's acknowledgement, closes the
/// channel and waits for it to close. The stages run in that order and
/// the first that fails ends the copy; its error is the one that
/// `transfer_step` gives for it. Succeeds only if every stage does.
pub fn write_file(sess: &Session, content: &str, remote_file: &str) -> (r: Result<(), RemoteError>)
    ensures
        r matches Err(e) ==> (e matches RemoteError::CreateRemoteFile(p, _) && p@ == remote_file@) || (
        e matches RemoteError::WriteRemoteFile(p, _) && p@ == remote_file@),
{
    let request = transfer_request(content, remote_file);
    let mut channel = match scp_send(sess, &request) {
        Ok(c) => c,
        Err(e) => return Err(transfer_failure(remote_file, TransferStage::Open, ssh_error_text(&e))),
    };
    let written = match channel_write_all(&mut channel, content.as_bytes()) {
        Ok(()) => Ok(()),
        Err(e) => Err(io_error_text(&e)),
    };
    transfer_step(remote_file, TransferStage::Write, written)?;
    transfer_step(remote_file, TransferStage::SendEof, ssh_outcome(channel_send_eof(&mut channel)))?;
    transfer_step(remote_file, TransferStage::WaitEof, ssh_outcome(channel_wait_eof(&mut channel)))?;
    transfer_step(remote_file, TransferStage::Close, ssh_outcome(channel_close(&mut channel)))?;
    transfer_step(remote_file, TransferStage::WaitClose, ssh_outcome(channel_wait_close(&mut channel)))
}

/// What reading the file at `remote_file` to its end becomes: the text
/// read, exactly, or a `ReadRemoteFile` error with the path and the
/// failure's text (among them contents that are not UTF-8).
pub fn read_outcome(remote_file: &str, data: Result<String, String>) -> (r: Result<String, RemoteError>)
    ensures
        r is Ok <==> data is Ok,
        data matches Ok(d) ==> (r matches Ok(s) && s@ == d@),
        data matches Err(m) ==> (r matches Err(e) && e matches RemoteError::ReadRemoteFile(p, why)
            && p@ == remote_file@ && why@ == m@),
{
    match data {
        Ok(d) => Ok(d),
        Err(m) => Err(RemoteError::ReadRemoteFile(String::from_str(remote_file), m)),
    }
}

/// Fetches the contents of `remote_file` from the host, which must be
/// UTF-8 text. A failure to open the channel is what `transfer_failure`
/// gives for the `Open` stage; what the read gives is what `read_outcome` says.
pub fn read_file(sess: &Session, remote_file: &str) -> (r: Result<String, RemoteError>)
    ensures
        r matches Err(e) ==> (e matches RemoteError::CreateRemoteFile(p, _) && p@ == remote_file@) || (
        e matches RemoteError::ReadRemoteFile(p, _) && p@ == remote_file@),
{
    let mut channel = match scp_recv(sess, remote_file) {
        Ok(c) => c,
        Err(e) => return Err(transfer_failure(remote_file, TransferStage::Open, ssh_error_text(&e))),
    };
    let data = match channel_read_to_string(&mut channel) {
        Ok(d) => Ok(d),
        Err(e) => Err(io_error_text(&e)),
    };
    read_outcome(remote_file, data)
}

/// The error for a failure, with text `m`, of running the command line
/// `line` at any stage.
pub fn exec_failure(line: &str, m: String) -> (r: RemoteError)
    ensures
        r matches RemoteError::ExecCommands(l, why) && l@ == line@ && why@ == m@,
{
    RemoteError::ExecCommands(String::from_str(line), m)
}

/// What the outcome of a stage before reading the output of the command
/// line `line` becomes: success stays success, a failure is
/// `exec_failure`'s error.
pub fn exec_step(line: &str, outcome: Result<(), String>) -> (r: Result<(), RemoteError>)
    ensures
        r is Ok <==> outcome is Ok,
        outcome matches Err(m) ==> (r matches Err(e) && e matches RemoteError::ExecCommands(l, why)
            && l@ == line@ && why@ == m@),
{
    match outcome {
        Ok(()) => Ok(()),
        Err(m) => Err(exec_failure(line, m)),
    }
}

/// What running the command line `line` gives once its output has been
/// read and the channel waited on (not looked at when the read failed):
/// the output, exactly, only if both went well; else an `ExecCommands`
/// error with the line and the text of the first failure.
pub fn exec_outcome(line: &str, output: Result<String, String>, closed: Result<(), String>) -> (r: Result<
    String,
    RemoteError,
>)
    ensures
        r is Ok <==> (output is Ok && closed is Ok),
        r matches Ok(s) ==> (output matches Ok(o) && s@ == o@),
        r matches Err(e) ==> e matches RemoteError::ExecCommands(l, why) && l@ == line@ && why@ == (
        match output {
            Err(m) => m@,
            Ok(_) => closed->Err_0@,
        }),
{
    match output {
        Err(m) => Err(exec_failure(line, m)),
        Ok(o) => match closed {
            Ok(()) => Ok(o),
            Err(m) => Err(exec_failure(line, m)),
        },
    }
}

/// Runs the commands of a batch, joined with `;`, as one command line on a
/// new channel whose standard error is merged into its standard output,
/// reads that output to its end and waits for the channel to close. No
/// exit status is looked at: a command that fails shows only in the text.
/// A failure to open the channel is `exec_failure`'s error; each later
/// stage before the read ends the run on failure with what `exec_step`
/// gives; the rest is what `exec_outcome` says.
pub fn run_commands(sess: &Session, commands: &[&str]) -> (r: Result<String, RemoteError>)
    ensures
        r matches Err(e) ==> e matches RemoteError::ExecCommands(line, _) && line@ == joined(
            command_views(commands@),
        ),
{
    let line = join_commands(commands);
    let mut channel = match channel_session(sess) {
        Ok(c) => c,
        Err(e) => return Err(exec_failure(line.as_str(), ssh_error_text(&e))),
    };
    exec_step(line.as_str(), ssh_outcome(channel_merge_extended_data(&mut channel)))?;
    exec_step(line.as_str(), ssh_outcome(channel_exec(&mut channel, line.as_str())))?;
    let output = match channel_read_to_string(&mut channel) {
        Ok(s) => Ok(s),
        Err(e) => Err(io_error_text(&e)),
    };
    let closed = if output.is_ok() {
        ssh_outcome(channel_wait_close(&mut channel))
    } else {
        Ok(())
    };
    exec_outcome(line.as_str(), output, closed)
}

} // verus!
