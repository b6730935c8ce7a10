//! The serial device session: at most one open connection, explicit
//! connect and disconnect, and a synchronous send-with-reply operation.
use vstd::prelude::*;
use std::io::Read;
use std::io::Write;

verus! {

use vstd::string::StringExecFns;
use vstd::string::StringSliceAdditionalSpecFns;
use crate::errors::{ConnectError, SendError};

/// Fixed baud rate of every connection.
pub const BAUD_RATE: u32 = 9600;

/// Fixed read timeout, in milliseconds, set when a connection is opened.
pub const READ_TIMEOUT_MS: u64 = 1000;

/// Grace period, in milliseconds, between writing a command and issuing
/// the bounded read, so a reply can arrive whole. Sleeping is I/O-side
/// work: the caller that owns the clock pauses this long between
/// `send_command_write` and `send_command_read`.
pub const GRACE_PERIOD_MS: u64 = 100;

/// Capacity of the single bounded read issued after a write.
pub const READ_BUFFER_LEN: usize = 100;

#[verifier::external_type_specification]
#[verifier::external_body]
pub struct ExTTYPort(serialport::TTYPort);

/// The lossy UTF-8 decoding of a byte sequence (invalid sequences become
/// replacement characters), a function of the bytes alone.
pub uninterp spec fn utf8_lossy_of(b: Seq<u8>) -> Seq<char>;

/// Relies on String::from_utf8_lossy: decodes bytes as UTF-8, replacing
/// invalid sequences, a function of the bytes alone.
#[verifier::external_body]
fn lossy_utf8(b: &Vec<u8>) -> (r: String)
    ensures
        r@ == utf8_lossy_of(b@),
{
    String::from_utf8_lossy(b).to_string()
}

/// Relies on serialport::new(path, baud).timeout(...).open_native(): opens
/// the device at the fixed baud rate with the fixed read timeout, or
/// reports the transport's error message.
#[verifier::external_body]
fn open_port(path: &str) -> (r: Result<serialport::TTYPort, String>) {
    let builder = serialport::new(path, BAUD_RATE).timeout(
        std::time::Duration::from_millis(READ_TIMEOUT_MS),
    );
    match builder.open_native() {
        Ok(p) => Ok(p),
        Err(e) => Err(e.to_string()),
    }
}

/// Relies on the std::io::Write impl of serialport::TTYPort: one
/// synchronous write of the UTF-8 bytes of `data`; on success at most
/// that many bytes were written.
#[verifier::external_body]
fn serial_write(port: &mut serialport::TTYPort, data: &str) -> (r: Result<usize, String>)
    ensures
        r matches Ok(n) ==> n <= data.spec_bytes().len(),
{
    match port.write(data.as_bytes()) {
        Ok(n) => Ok(n),
        Err(e) => Err(e.to_string()),
    }
}

/// Relies on the std::io::Read impl of serialport::TTYPort: one bounded
/// read into a buffer of `READ_BUFFER_LEN` bytes, waiting at most the read
/// timeout fixed at open; returns the bytes read, at most the buffer's
/// length.
#[verifier::external_body]
fn serial_read(port: &mut serialport::TTYPort) -> (r: Result<Vec<u8>, String>)
    ensures
        r matches Ok(b) ==> b@.len() <= READ_BUFFER_LEN,
{
    let mut buf = [0u8; READ_BUFFER_LEN];
    match port.read(&mut buf) {
        Ok(n) => Ok(buf[..n].to_vec()),
        Err(e) => Err(e.to_string()),
    }
}

/// A command with the newline terminator of the wire format appended.
pub fn frame_command(command: &str) -> (r: String)
    ensures
        r@ == command@ + "\n"@,
{
    String::from_str(command).concat("\n")
}

/// The reply value for the outcome of the bounded read: the decoded bytes
/// when some arrived, a sentinel when none did, and a sentinel when the
/// read itself failed — a non-responding device is expected and is not a
/// hard failure.
pub fn interpret_response(outcome: Result<Vec<u8>, String>) -> (r: String)
    ensures
        outcome matches Ok(b) ==> (if b@.len() > 0 {
            r@ == utf8_lossy_of(b@)
        } else {
            r@ == "No response"@
        }),
        outcome is Err ==> r@ == "Error reading response"@,
{
    match outcome {
        Ok(b) => {
            if b.len() > 0 {
                lossy_utf8(&b)
            } else {
                String::from_str("No response")
            }
        },
        Err(_) => String::from_str("Error reading response"),
    }
}

/// What `disconnect_arduino` guarantees: the session is disconnected and
/// the success message is fixed.
pub open spec fn disconnect_post(connected_after: bool, msg: Seq<char>) -> bool {
    !connected_after && msg == "Arduino disconnected"@
}

/// Disconnecting is idempotent: any two consecutive calls that meet the
/// disconnect contract return the same success message, and both leave the
/// session disconnected.
pub proof fn lemma_disconnect_idempotent(c1: bool, m1: Seq<char>, c2: bool, m2: Seq<char>)
    requires
        disconnect_post(c1, m1),
        disconnect_post(c2, m2),
    ensures
        m1 == m2,
        !c1,
        !c2,
{
}

/// The serial session: owns at most one open connection. Connecting while
/// already connected replaces the previous handle, which is dropped and
/// thereby closed — an implicit disconnect-then-connect.
pub struct SerialSession {
    pub port: Option<serialport::TTYPort>,
}

impl SerialSession {
    /// Whether the session holds an open connection.
    pub open spec fn connected(self) -> bool {
        self.port is Some
    }

    /// A fresh session, disconnected.
    pub fn new() -> (r: SerialSession)
        ensures
            !r.connected(),
    {
        SerialSession { port: None }
    }

    /// Whether the session holds an open connection.
    pub fn is_connected(&self) -> (r: bool)
        ensures
            r == self.connected(),
    {
        self.port.is_some()
    }

    /// Opens the named device at the fixed baud rate and read timeout. On
    /// success the session is connected (a previous connection, if any, is
    /// replaced); on failure the session — including any connection it
    /// held — is exactly what it was.
    pub fn connect_to_arduino(&mut self, port_name: &str) -> (r: Result<String, ConnectError>)
        ensures
            r matches Ok(msg) ==> final(self).connected() && msg@ == "Connected to "@
                + port_name@,
            r matches Err(e) ==> e matches ConnectError::OpenFailed(_),
            r is Err ==> *final(self) == *old(self),
    {
        match open_port(port_name) {
            Ok(p) => {
                self.port = Some(p);
                Ok(String::from_str("Connected to ").concat(port_name))
            },
            Err(m) => Err(ConnectError::OpenFailed(m)),
        }
    }

    /// Releases the connection if one is held. Always succeeds, from any
    /// state, with the same message; idempotent.
    pub fn disconnect_arduino(&mut self) -> (r: String)
        ensures
            disconnect_post(final(self).connected(), r@),
    {
        self.port = None;
        String::from_str("Arduino disconnected")
    }

    /// Writes `command` with a newline terminator over the open
    /// connection: the first half of a send. Fails with `NotConnected` —
    /// before any transport work — when no connection is held, and with
    /// `WriteFailed` when the write call errors. The connection state is
    /// never changed.
    pub fn send_command_write(&mut self, command: &str) -> (r: Result<(), SendError>)
        ensures
            final(self).connected() == old(self).connected(),
            !old(self).connected() ==> r == Err::<(), SendError>(SendError::NotConnected),
            r matches Err(e) && e == SendError::NotConnected ==> !old(self).connected(),
            r is Ok ==> old(self).connected(),
            old(self).connected() ==> (r matches Err(e) ==> e matches SendError::WriteFailed(_)),
    {
        match self.port.as_mut() {
            None => Err(SendError::NotConnected),
            Some(p) => {
                let framed = frame_command(command);
                match serial_write(p, framed.as_str()) {
                    Err(m) => Err(SendError::WriteFailed(m)),
                    Ok(_) => Ok(()),
                }
            },
        }
    }

    /// Issues the single bounded read for a reply: the second half of a
    /// send, after the caller has let `GRACE_PERIOD_MS` pass. Fails with
    /// `NotConnected` when no connection is held; a failed or empty read
    /// is downgraded to a sentinel reply, never to a failure. The
    /// connection state is never changed.
    pub fn send_command_read(&mut self) -> (r: Result<String, SendError>)
        ensures
            final(self).connected() == old(self).connected(),
            !old(self).connected() ==> r == Err::<String, SendError>(SendError::NotConnected),
            old(self).connected() ==> r is Ok,
    {
        match self.port.as_mut() {
            None => Err(SendError::NotConnected),
            Some(p) => Ok(interpret_response(serial_read(p))),
        }
    }

    /// Sends `command` with a newline terminator over the open connection,
    /// then issues the bounded read at once, relying on the read timeout
    /// fixed at open to wait for the reply. This one-call form inserts no
    /// pause between the two halves: a caller that wants the device to
    /// settle first calls `send_command_write`, waits `GRACE_PERIOD_MS`,
    /// then `send_command_read`. Fails with `NotConnected` — before any
    /// transport work — when no connection is held, and with `WriteFailed`
    /// when the write call errors; a failed or empty read is downgraded to
    /// a sentinel reply. The connection state is never changed.
    pub fn send_arduino_command(&mut self, command: &str) -> (r: Result<String, SendError>)
        ensures
            final(self).connected() == old(self).connected(),
            !old(self).connected() ==> r == Err::<String, SendError>(SendError::NotConnected),
            r matches Err(e) && e == SendError::NotConnected ==> !old(self).connected(),
            r is Ok ==> old(self).connected(),
            old(self).connected() ==> (r matches Err(e) ==> e matches SendError::WriteFailed(_)),
    {
        match self.send_command_write(command) {
            Err(e) => Err(e),
            Ok(()) => self.send_command_read(),
        }
    }
}

} // verus!
