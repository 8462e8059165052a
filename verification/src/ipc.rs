use vstd::prelude::*;

use crate::text::{chars_of, push_str, starts_with, starts_with_str, string_of, trim, trim_chars};

verus! {

/// The control socket's path: `/tmp/cce-<display>.sock` for a named
/// Wayland display socket, `/tmp/cce.sock` otherwise.
pub fn get_ipc_socket_path(display_socket: Option<&str>) -> (r: String)
    ensures
        r@ == match display_socket {
            Some(d) => "/tmp/cce-"@ + d@ + ".sock"@,
            None => "/tmp/cce.sock"@,
        },
{
    match display_socket {
        Some(d) => {
            let mut p = String::from_str("/tmp/cce-");
            push_str(&mut p, d);
            push_str(&mut p, ".sock");
            p
        },
        None => String::from_str("/tmp/cce.sock"),
    }
}

/// What `String::from_utf8_lossy` gives for a byte buffer (invalid
/// sequences replaced by U+FFFD).
pub uninterp spec fn utf8_lossy(bytes: Seq<u8>) -> Seq<char>;

/// Calls `String::from_utf8_lossy`.
#[verifier::external_body]
fn decode_lossy(bytes: &[u8]) -> (r: String)
    ensures
        r@ == utf8_lossy(bytes@),
{
    String::from_utf8_lossy(bytes).into_owned()
}

/// The command a client sent: its bytes decoded (lossily) and trimmed;
/// `None` when nothing is left.
pub fn request_command(bytes: &[u8]) -> (r: Option<String>)
    ensures
        match r {
            Some(c) => c@ == trim(utf8_lossy(bytes@)) && c@.len() > 0,
            None => trim(utf8_lossy(bytes@)).len() == 0,
        },
{
    let s = decode_lossy(bytes);
    let v = chars_of(s.as_str());
    let t = trim_chars(&v);
    if t.len() == 0 {
        None
    } else {
        Some(string_of(&t))
    }
}

/// How long a client waits for the compositor's reply, in ms: five
/// seconds for a screenshot (its capture waits for the next composited
/// frame), one second for anything else.
pub fn reply_timeout_ms(command: &str) -> (r: u64)
    ensures
        r == (if starts_with(command@, "screenshot"@) {
            5000u64
        } else {
            1000u64
        }),
{
    let v = chars_of(command);
    if starts_with_str(&v, "screenshot") {
        5000
    } else {
        1000
    }
}

/// The reply a client gets when the compositor does not answer in time.
pub fn timeout_reply() -> (r: String)
    ensures
        r@ == "error: timeout processing command\n"@,
{
    String::from_str("error: timeout processing command\n")
}

} // verus!
