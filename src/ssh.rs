//! The calls into the `ssh2` crate that the remote operations make, one
//! function each. Nothing is promised of what they return: that depends on
//! the host and the network.

use std::io::Read;
use std::io::Write;
use std::path::Path;

use vstd::prelude::*;

use ssh2::Channel;
use ssh2::Session;

use crate::remote::TransferRequest;

verus! {

#[verifier::external_type_specification]
#[verifier::external_body]
pub struct ExSession(ssh2::Session);

#[verifier::external_type_specification]
#[verifier::external_body]
pub struct ExChannel(ssh2::Channel);

#[verifier::external_type_specification]
#[verifier::external_body]
pub struct ExSshError(ssh2::Error);

#[verifier::external_type_specification]
#[verifier::external_body]
pub struct ExIoError(std::io::Error);

/// Relies on ssh2::Error's Display for the text of a failure reported by
/// the SSH library.
#[verifier::external_body]
pub(crate) fn ssh_error_text(e: &ssh2::Error) -> (r: String) {
    e.to_string()
}

/// Relies on std::io::Error's Display for the text of a failed read or
/// write on a channel.
#[verifier::external_body]
pub(crate) fn io_error_text(e: &std::io::Error) -> (r: String) {
    e.to_string()
}

/// Relies on ssh2::Session::new to create a session object.
#[verifier::external_body]
pub(crate) fn session_new() -> (r: Result<Session, ssh2::Error>) {
    Session::new()
}

/// Relies on ssh2::Session::handshake to negotiate with the host.
#[verifier::external_body]
pub(crate) fn session_handshake(sess: &mut Session) -> (r: Result<(), ssh2::Error>) {
    sess.handshake()
}

/// Relies on ssh2::Session::userauth_pubkey_file to authenticate with a
/// private key file and no passphrase, the public key derived from it.
#[verifier::external_body]
pub(crate) fn session_userauth_pubkey_file(
    sess: &Session,
    username: &str,
    privatekey: &str,
) -> (r: Result<(), ssh2::Error>) {
    sess.userauth_pubkey_file(username, None, Path::new(privatekey), None)
}

/// Relies on ssh2::Session::authenticated to tell whether the session is
/// authenticated.
#[verifier::external_body]
pub(crate) fn session_authenticated(sess: &Session) -> (r: bool) {
    sess.authenticated()
}

/// Relies on ssh2::Session::scp_send to open an upload channel with the
/// request's path, mode and size, the times left to the host.
#[verifier::external_body]
pub(crate) fn scp_send(
    sess: &Session,
    request: &TransferRequest,
) -> (r: Result<Channel, ssh2::Error>) {
    sess.scp_send(Path::new(&request.path), request.mode, request.size, None)
}

/// Relies on ssh2::Session::scp_recv to open a download channel for a path;
/// the file's stat is not kept.
#[verifier::external_body]
pub(crate) fn scp_recv(sess: &Session, remote_file: &str) -> (r: Result<Channel, ssh2::Error>) {
    sess.scp_recv(Path::new(remote_file)).map(|(c, _)| c)
}

/// Relies on ssh2::Session::channel_session to open a session channel.
#[verifier::external_body]
pub(crate) fn channel_session(sess: &Session) -> (r: Result<Channel, ssh2::Error>) {
    sess.channel_session()
}

/// Relies on ssh2::Channel::handle_extended_data with ExtendedData::Merge,
/// so that reads of the channel take its standard error too.
#[verifier::external_body]
pub(crate) fn channel_merge_extended_data(channel: &mut Channel) -> (r: Result<(), ssh2::Error>) {
    channel.handle_extended_data(ssh2::ExtendedData::Merge)
}

/// Relies on ssh2::Channel::exec to start a command line on a channel.
#[verifier::external_body]
pub(crate) fn channel_exec(channel: &mut Channel, command: &str) -> (r: Result<(), ssh2::Error>) {
    channel.exec(command)
}

/// Relies on std::io::Write::write_all, over ssh2's Write for Channel, to
/// send all of the bytes.
#[verifier::external_body]
pub(crate) fn channel_write_all(
    channel: &mut Channel,
    bytes: &[u8],
) -> (r: Result<(), std::io::Error>) {
    channel.write_all(bytes)
}

/// Relies on std::io::Read::read_to_string, over ssh2's Read for Channel, to
/// read to the end of the stream as UTF-8.
#[verifier::external_body]
pub(crate) fn channel_read_to_string(
    channel: &mut Channel,
) -> (r: Result<String, std::io::Error>) {
    let mut data = String::new();
    channel.read_to_string(&mut data).map(|_| data)
}

/// Relies on ssh2::Channel::send_eof to tell the host no more data follows.
#[verifier::external_body]
pub(crate) fn channel_send_eof(channel: &mut Channel) -> (r: Result<(), ssh2::Error>) {
    channel.send_eof()
}

/// Relies on ssh2::Channel::wait_eof to wait for the host's end of data.
#[verifier::external_body]
pub(crate) fn channel_wait_eof(channel: &mut Channel) -> (r: Result<(), ssh2::Error>) {
    channel.wait_eof()
}

/// Relies on ssh2::Channel::close to close the channel.
#[verifier::external_body]
pub(crate) fn channel_close(channel: &mut Channel) -> (r: Result<(), ssh2::Error>) {
    channel.close()
}

/// Relies on ssh2::Channel::wait_close to wait until the host closes the
/// channel.
#[verifier::external_body]
pub(crate) fn channel_wait_close(channel: &mut Channel) -> (r: Result<(), ssh2::Error>) {
    channel.wait_close()
}

} // verus!
