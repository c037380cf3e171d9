//! QEMU guest agent client settings and the reading of its replies. The
//! socket conversation itself (`guest-sync`, then the command) runs outside.
use vstd::prelude::*;
use std::time::Duration;
use base64::Engine;
use vstd::utf8::{decode_utf8, valid_utf8};
use crate::error::Error;
use crate::text::{decimal, owned, push_decimal, push_str};
use crate::time::{debug_duration, duration_debug, duration_from_secs, duration_of_secs};

verus! {

/// A guest agent client: its socket and per-command timeout.
pub struct QgaClient {
    socket_path: String,
    timeout: Duration,
}

/// The result of `guest-exec-status`.
#[derive(Debug, Clone)]
pub struct GuestExecResult {
    /// Guest PID of the command.
    pub pid: i64,
    /// Exit code, once the command exited.
    pub exit_code: Option<i64>,
    /// Captured standard output.
    pub stdout: Option<String>,
    /// Captured standard error.
    pub stderr: Option<String>,
    /// Whether the command exited.
    pub exited: bool,
}

/// What `guest-info` returns.
#[derive(Debug, Clone)]
pub struct GuestInfo {
    /// Agent version.
    pub version: String,
    /// Commands the agent supports.
    pub supported_commands: Vec<SupportedCommand>,
}

/// One command the agent supports.
#[derive(Debug, Clone)]
pub struct SupportedCommand {
    /// Command name, e.g. `guest-ping`.
    pub name: String,
    /// Whether it is enabled.
    pub enabled: bool,
}

/// The guest agent socket libvirt creates for a VM.
pub open spec fn agent_socket(vm_name: Seq<char>) -> Seq<char> {
    "/var/lib/libvirt/qemu/channel/target/"@ + vm_name + ".org.qemu.guest_agent.0"@
}

impl QgaClient {
    /// The socket.
    pub closed spec fn socket(&self) -> Seq<char> {
        self.socket_path@
    }

    /// The per-command timeout.
    pub closed spec fn timeout_spec(&self) -> Duration {
        self.timeout
    }

    /// A client for a VM's agent, at libvirt's channel path, with a 5 s
    /// timeout.
    pub fn for_vm(vm_name: &str) -> (r: Self)
        ensures
            r.socket() == agent_socket(vm_name@),
            r.timeout_spec() == duration_of_secs(5),
    {
        let mut p = owned("/var/lib/libvirt/qemu/channel/target/");
        push_str(&mut p, vm_name);
        push_str(&mut p, ".org.qemu.guest_agent.0");
        QgaClient { socket_path: p, timeout: duration_from_secs(5) }
    }

    /// A client for an agent at an explicit socket, with a 5 s timeout.
    pub fn from_socket(path: &str) -> (r: Self)
        ensures
            r.socket() == path@,
            r.timeout_spec() == duration_of_secs(5),
    {
        QgaClient { socket_path: owned(path), timeout: duration_from_secs(5) }
    }

    /// The same client with another per-command timeout.
    pub fn with_timeout(self, timeout: Duration) -> (r: Self)
        ensures
            r.socket() == self.socket(),
            r.timeout_spec() == timeout,
    {
        QgaClient { socket_path: self.socket_path, timeout }
    }

    /// The socket.
    pub fn socket_path(&self) -> (r: &str)
        ensures
            r@ == self.socket(),
    {
        self.socket_path.as_str()
    }

    /// The per-command timeout.
    pub fn timeout(&self) -> (r: Duration)
        ensures
            r == self.timeout_spec(),
    {
        self.timeout
    }
}

#[verifier::external_type_specification]
#[verifier::external_body]
pub struct ExDecodeError(base64::DecodeError);

/// The bytes that base64's standard engine (standard alphabet, padding
/// required) decodes a text to, or `None` when it rejects the text.
pub uninterp spec fn base64_standard(text: Seq<char>) -> Option<Seq<u8>>;

/// Decodes base64 text with `base64::engine::general_purpose::STANDARD`.
///
/// Trusted: the result depends on the text alone; the bytes, or the
/// rejection, are named by [`base64_standard`].
#[verifier::external_body]
fn base64_decode_standard(text: &str) -> (r: Result<Vec<u8>, base64::DecodeError>)
    ensures
        match base64_standard(text@) {
            Some(b) => r matches Ok(v) && v@ == b,
            None => r is Err,
        },
{
    base64::engine::general_purpose::STANDARD.decode(text)
}

/// Reads bytes as UTF-8 text (`String::from_utf8`).
///
/// Trusted: std documents that the bytes are accepted exactly when they
/// are valid UTF-8, and that the text is what they encode.
#[verifier::external_body]
fn utf8_text(bytes: Vec<u8>) -> (r: Option<String>)
    ensures
        match r {
            Some(s) => valid_utf8(bytes@) && s@ == decode_utf8(bytes@),
            None => !valid_utf8(bytes@),
        },
{
    String::from_utf8(bytes).ok()
}

/// The text of decoded bytes, when they are valid UTF-8.
pub fn text_of_decoded(decoded: Option<Vec<u8>>) -> (r: Option<String>)
    ensures
        match decoded {
            Some(b) => match r {
                Some(s) => valid_utf8(b@) && s@ == decode_utf8(b@),
                None => !valid_utf8(b@),
            },
            None => r is None,
        },
{
    match decoded {
        Some(b) => utf8_text(b),
        None => None,
    }
}

/// Decodes the base64 output data of a guest command into text.
pub fn decode_base64(b64: &str) -> (r: Option<String>)
    ensures
        match base64_standard(b64@) {
            Some(b) => match r {
                Some(s) => valid_utf8(b) && s@ == decode_utf8(b),
                None => !valid_utf8(b),
            },
            None => r is None,
        },
{
    let decoded = match base64_decode_standard(b64) {
        Ok(v) => Some(v),
        Err(_) => None,
    };
    text_of_decoded(decoded)
}

/// The decoded text of optional base64 data.
pub open spec fn decoded_text_of(data: Option<&str>) -> Option<Seq<char>> {
    match data {
        Some(d) => match base64_standard(d@) {
            Some(b) => if valid_utf8(b) {
                Some(decode_utf8(b))
            } else {
                None
            },
            None => None,
        },
        None => None,
    }
}

impl GuestExecResult {
    /// The result of `guest-exec-status` from the fields of its reply: a
    /// missing `exited` counts as not exited, and the output data is
    /// decoded from base64.
    pub fn from_status_fields(
        pid: i64,
        exited: Option<bool>,
        exit_code: Option<i64>,
        out_data: Option<&str>,
        err_data: Option<&str>,
    ) -> (r: Self)
        ensures
            r.pid == pid,
            r.exited == (exited == Some(true)),
            r.exit_code == exit_code,
            match decoded_text_of(out_data) {
                Some(t) => r.stdout matches Some(s) && s@ == t,
                None => r.stdout is None,
            },
            match decoded_text_of(err_data) {
                Some(t) => r.stderr matches Some(s) && s@ == t,
                None => r.stderr is None,
            },
    {
        let stdout = match out_data {
            Some(d) => decode_base64(d),
            None => None,
        };
        let stderr = match err_data {
            Some(d) => decode_base64(d),
            None => None,
        };
        GuestExecResult {
            pid,
            exit_code,
            stdout,
            stderr,
            exited: match exited {
                Some(b) => b,
                None => false,
            },
        }
    }
}

/// What waiting for a guest command does after a poll.
#[derive(Debug, Clone, Copy, PartialEq, Eq, Structural)]
pub enum ExecWaitStep {
    /// The command exited: done.
    Done,
    /// The deadline passed: give up.
    TimedOut,
    /// Poll again after the given milliseconds.
    PollAfterMs(u64),
}

/// Decides what follows a poll of a guest command that was last polled
/// `interval_ms` after the one before: done once it exited, give up past
/// the deadline, else poll again after twice the interval, at most 2 s.
pub fn exec_wait_step(exited: bool, past_deadline: bool, interval_ms: u64) -> (r: ExecWaitStep)
    ensures
        r == (if exited {
            ExecWaitStep::Done
        } else if past_deadline {
            ExecWaitStep::TimedOut
        } else {
            ExecWaitStep::PollAfterMs(if interval_ms * 2 < 2000 {
                (interval_ms * 2) as u64
            } else {
                2000
            })
        }),
{
    if exited {
        ExecWaitStep::Done
    } else if past_deadline {
        ExecWaitStep::TimedOut
    } else if interval_ms < 1000 {
        ExecWaitStep::PollAfterMs(interval_ms * 2)
    } else {
        ExecWaitStep::PollAfterMs(2000)
    }
}

/// What a reply to `command` comes to, given the JSON text of its `error`
/// member when it has one: that error, else success.
pub fn reply_outcome(command: &str, error_json: Option<&str>) -> (r: Result<(), Error>)
    ensures
        match error_json {
            Some(e) => r matches Err(Error::Monitoring(m)) && m@ == "QGA "@ + command@ + " error: "@ + e@,
            None => r is Ok,
        },
{
    match error_json {
        Some(e) => {
            let mut m = owned("QGA ");
            push_str(&mut m, command);
            push_str(&mut m, " error: ");
            push_str(&mut m, e);
            Err(Error::Monitoring(m))
        },
        None => Ok(()),
    }
}

/// The error of a guest reply without the PID of the started command.
pub fn missing_pid_error() -> (r: Error)
    ensures
        r matches Error::Monitoring(m) && m@ == "QGA guest-exec: no pid in response"@,
{
    Error::Monitoring(owned("QGA guest-exec: no pid in response"))
}

/// The agent version a `guest-info` reply names, `unknown` when it names
/// none.
pub fn agent_version(version: Option<&str>) -> (r: String)
    ensures
        r@ == match version {
            Some(v) => v@,
            None => "unknown"@,
        },
{
    match version {
        Some(v) => owned(v),
        None => owned("unknown"),
    }
}

/// The error of a guest command that did not exit in time.
pub fn exec_timeout_error(pid: i64, timeout: Duration) -> (r: Error)
    ensures
        r matches Error::Monitoring(m) && m@ == "QGA command (pid "@
            + (if pid < 0 { "-"@ + decimal((-pid) as nat) } else { decimal(pid as nat) })
            + ") did not exit within "@ + duration_debug(timeout),
{
    let mut m = owned("QGA command (pid ");
    if pid < 0 {
        push_str(&mut m, "-");
        let magnitude: u64 = (0i128 - pid as i128) as u64;
        push_decimal(&mut m, magnitude);
    } else {
        push_decimal(&mut m, pid as u64);
    }
    push_str(&mut m, ") did not exit within ");
    let t = debug_duration(timeout);
    push_str(&mut m, t.as_str());
    Error::Monitoring(m)
}

} // verus!
