//! The commands an SSH session runs to move data and run programs, and
//! what their results mean. The session itself runs outside.
use vstd::prelude::*;
use vstd::string::StrSliceExecFns;
use crate::error::Error;
use crate::path::{join_path, path_join};
use crate::text::{chars_of, decimal, join, join_strings, owned, push_decimal, push_str, string_from_chars, trim, trim_chars, views};

verus! {

/// The character of a 6-bit value in the standard base64 alphabet
/// (RFC 4648, section 4): `A`-`Z`, `a`-`z`, `0`-`9`, `+`, `/`.
pub open spec fn base64_symbol(v: int) -> char {
    if v < 26 {
        (65 + v) as char
    } else if v < 52 {
        (97 + v - 26) as char
    } else if v < 62 {
        (48 + v - 52) as char
    } else if v == 62 {
        '+'
    } else {
        '/'
    }
}

/// Padded base64 of bytes (RFC 4648, section 4), as `data_encoding::BASE64`
/// writes it: each group of three bytes becomes four symbols, and a last
/// group of one or two bytes is padded with `=` to four characters.
pub open spec fn base64_text(data: Seq<u8>) -> Seq<char>
    decreases data.len(),
{
    let a = data[0] as int;
    let b = data[1] as int;
    let c = data[2] as int;
    if data.len() == 0 {
        Seq::empty()
    } else if data.len() == 1 {
        seq![base64_symbol(a / 4), base64_symbol((a % 4) * 16), '=', '=']
    } else if data.len() == 2 {
        seq![base64_symbol(a / 4), base64_symbol((a % 4) * 16 + b / 16), base64_symbol((b % 16) * 4), '=']
    } else {
        seq![
            base64_symbol(a / 4),
            base64_symbol((a % 4) * 16 + b / 16),
            base64_symbol((b % 16) * 4 + c / 64),
            base64_symbol(c % 64),
        ] + base64_text(data.skip(3))
    }
}

/// What `data_encoding::BASE64` decodes input bytes to: the bytes, or the
/// text of the error it reports.
pub uninterp spec fn base64_decoding(input: Seq<u8>) -> Result<Seq<u8>, Seq<char>>;

/// Encodes bytes with `data_encoding::BASE64`.
///
/// Trusted: the text is the padded RFC 4648 base64 of the bytes,
/// [`base64_text`], as the crate documents for `BASE64`.
/// `Encoding::encode` asserts that the input holds at most
/// `usize::MAX / 512` bytes; longer inputs are left out.
#[verifier::external_body]
fn encode_base64(data: &[u8]) -> (r: String)
    requires
        data@.len() <= usize::MAX / 512,
    ensures
        r@ == base64_text(data@),
{
    data_encoding::BASE64.encode(data)
}

/// Decodes bytes with `data_encoding::BASE64`, giving the error's text on
/// failure.
///
/// Trusted: the outcome depends on the input alone, named by
/// [`base64_decoding`]. `Encoding::decode` asserts that the input holds at
/// most `usize::MAX / 8` bytes; longer inputs are left out.
#[verifier::external_body]
fn decode_base64(input: &[u8]) -> (r: Result<Vec<u8>, String>)
    requires
        input@.len() <= usize::MAX / 8,
    ensures
        match base64_decoding(input@) {
            Ok(b) => r matches Ok(v) && v@ == b,
            Err(t) => r matches Err(s) && s@ == t,
        },
{
    data_encoding::BASE64.decode(input).map_err(|e| e.to_string())
}

/// Base64 text of bytes, as sent through a shell. The encoder takes at
/// most `usize::MAX / 512` bytes.
pub fn encode(data: &[u8]) -> (r: String)
    requires
        data@.len() <= usize::MAX / 512,
    ensures
        r@ == base64_text(data@),
{
    encode_base64(data)
}

/// The command line a program and its arguments make: the words joined
/// with spaces.
pub fn command_line(command: &Vec<String>) -> (r: String)
    ensures
        r@ == join(views(command@), " "@),
{
    join_strings(command, " ")
}

/// The output of a command run for its output: its standard output when
/// it exited with 0; otherwise an error with the exit code and its
/// standard error, or its standard output when the error stream was empty.
pub fn exec_stdout_outcome(exit_code: i32, stdout: String, stderr: String) -> (r: Result<String, Error>)
    ensures
        exit_code == 0 ==> r == Ok::<String, Error>(stdout),
        exit_code != 0 ==> (r matches Err(Error::Backend(m)) && m@ == "Command failed (exit "@
            + (if exit_code < 0 { "-"@ + decimal((-exit_code) as nat) } else { decimal(exit_code as nat) })
            + "): "@ + (if stderr@.len() == 0 { stdout@ } else { stderr@ })),
{
    if exit_code == 0 {
        return Ok(stdout);
    }
    let mut m = owned("Command failed (exit ");
    if exit_code < 0 {
        push_str(&mut m, "-");
        let magnitude: u64 = (0i64 - exit_code as i64) as u64;
        push_decimal(&mut m, magnitude);
    } else {
        push_decimal(&mut m, exit_code as u64);
    }
    push_str(&mut m, "): ");
    let err_chars = chars_of(stderr.as_str());
    if err_chars.len() == 0 {
        push_str(&mut m, stdout.as_str());
    } else {
        push_str(&mut m, stderr.as_str());
    }
    Err(Error::Backend(m))
}

/// The shell command that writes bytes to a remote file:
/// `echo '<base64>' | base64 -d > <path>`.
pub open spec fn write_command(data: Seq<u8>, remote_path: Seq<char>) -> Seq<char> {
    "echo '"@ + base64_text(data) + "' | base64 -d > "@ + remote_path
}

/// The command that writes bytes to a remote file.
pub fn push_data_command(data: &[u8], remote_path: &str) -> (r: String)
    requires
        data@.len() <= usize::MAX / 512,
    ensures
        r@ == write_command(data@, remote_path@),
{
    let mut c = owned("echo '");
    let b64 = encode_base64(data);
    push_str(&mut c, b64.as_str());
    push_str(&mut c, "' | base64 -d > ");
    push_str(&mut c, remote_path);
    c
}

/// What writing a remote file came to: done on exit code 0, else an error
/// with the command's standard error.
pub fn push_data_outcome(exit_code: i32, remote_path: &str, stderr: &str) -> (r: Result<(), Error>)
    ensures
        exit_code == 0 ==> r is Ok,
        exit_code != 0 ==> (r matches Err(Error::Backend(m)) && m@ == "push_data to "@ + remote_path@ + " failed: "@
            + stderr@),
{
    if exit_code == 0 {
        return Ok(());
    }
    let mut m = owned("push_data to ");
    push_str(&mut m, remote_path);
    push_str(&mut m, " failed: ");
    push_str(&mut m, stderr);
    Err(Error::Backend(m))
}

/// The command that prints a remote file as base64.
pub fn fetch_data_command(remote_path: &str) -> (r: String)
    ensures
        r@ == "base64 "@ + remote_path@,
{
    let mut c = owned("base64 ");
    push_str(&mut c, remote_path);
    c
}

/// What reading a remote file came to: on exit code 0 the bytes its
/// printed base64 (trimmed) decodes to, or an error when it does not
/// decode; otherwise an error with the command's standard error. The
/// decoder takes at most `usize::MAX / 8` bytes of trimmed output.
pub fn fetch_data_outcome(exit_code: i32, remote_path: &str, stdout: &str, stderr: &str) -> (r: Result<Vec<u8>, Error>)
    requires
        vstd::utf8::encode_utf8(trim(stdout@)).len() <= usize::MAX / 8,
    ensures
        exit_code != 0 ==> (r matches Err(Error::Backend(m)) && m@ == "fetch_data from "@ + remote_path@ + " failed: "@
            + stderr@),
        exit_code == 0 ==> match base64_decoding(vstd::utf8::encode_utf8(trim(stdout@))) {
            Ok(b) => r matches Ok(v) && v@ == b,
            Err(t) => r matches Err(Error::Backend(m)) && m@ == "base64 decode failed: "@ + t,
        },
{
    if exit_code != 0 {
        let mut m = owned("fetch_data from ");
        push_str(&mut m, remote_path);
        push_str(&mut m, " failed: ");
        push_str(&mut m, stderr);
        return Err(Error::Backend(m));
    }
    let cs = chars_of(stdout);
    let trimmed = string_from_chars(trim_chars(cs.as_slice()).as_slice());
    let bytes = trimmed.as_str().as_bytes_vec();
    match decode_base64(bytes.as_slice()) {
        Ok(v) => Ok(v),
        Err(t) => {
            let mut m = owned("base64 decode failed: ");
            push_str(&mut m, t.as_str());
            Err(Error::Backend(m))
        },
    }
}

/// The two commands that copy a local file to a remote path: write it
/// under its file name (`file` when it has none) in `/tmp`, then move it.
pub fn copy_file_commands(data: &[u8], file_name: Option<&str>, remote_path: &str) -> (r: (String, String))
    requires
        data@.len() <= usize::MAX / 512,
    ensures
        ({
            let temp = "/tmp/"@ + match file_name {
                Some(f) => f@,
                None => "file"@,
            };
            &&& r.0@ == write_command(data@, temp)
            &&& r.1@ == "mv "@ + temp + " "@ + remote_path@
        }),
{
    let mut temp = owned("/tmp/");
    match file_name {
        Some(f) => push_str(&mut temp, f),
        None => push_str(&mut temp, "file"),
    }
    let create = push_data_command(data, temp.as_str());
    let mut mv = owned("mv ");
    push_str(&mut mv, temp.as_str());
    push_str(&mut mv, " ");
    push_str(&mut mv, remote_path);
    (create, mv)
}

/// The private keys tried when none is given, in order:
/// `~/.ssh/id_ed25519`, then `~/.ssh/id_rsa`.
pub fn default_key_candidates(home: &str) -> (r: Vec<String>)
    ensures
        views(r@) == seq![
            path_join(path_join(home@, ".ssh"@), "id_ed25519"@),
            path_join(path_join(home@, ".ssh"@), "id_rsa"@),
        ],
{
    let ssh_dir = join_path(home, ".ssh");
    let mut v: Vec<String> = Vec::new();
    v.push(join_path(ssh_dir.as_str(), "id_ed25519"));
    v.push(join_path(ssh_dir.as_str(), "id_rsa"));
    proof {
        assert(views(v@) =~= seq![
            path_join(path_join(home@, ".ssh"@), "id_ed25519"@),
            path_join(path_join(home@, ".ssh"@), "id_rsa"@),
        ]);
    }
    v
}

/// The error when no private key could be loaded.
pub fn no_key_error() -> (r: Error)
    ensures
        r matches Error::Backend(m) && m@ == "No usable SSH private key found (tried ~/.ssh/id_ed25519, ~/.ssh/id_rsa)"@,
{
    Error::Backend(owned("No usable SSH private key found (tried ~/.ssh/id_ed25519, ~/.ssh/id_rsa)"))
}

} // verus!
