//! The control-protocol wire format: request lines and the fixed
//! eight-byte acknowledgement that every accepted command earns.

use vstd::prelude::*;
use crate::render::{decimal, normalize_separators};

verus! {

/// The characters of an optional password.
pub open spec fn opt_chars(p: Option<String>) -> Option<Seq<char>> {
    match p {
        Option::Some(s) => Option::Some(s@),
        Option::None => Option::None,
    }
}

/// The authenticate request: bare when no password is configured,
/// otherwise with the password in double quotes; terminated either way.
pub open spec fn auth_line(password: Option<Seq<char>>) -> Seq<char> {
    match password {
        Option::None => "AUTHENTICATE\r\n"@,
        Option::Some(p) => "AUTHENTICATE \""@ + p + "\"\r\n"@,
    }
}

/// Renders the authenticate command for the configured password.
pub fn authenticate_command(password: &Option<String>) -> (r: String)
    ensures
        r@ == auth_line(opt_chars(*password)),
{
    proof {
        reveal_strlit("AUTHENTICATE");
        reveal_strlit("AUTHENTICATE\r\n");
        reveal_strlit("AUTHENTICATE \"");
        reveal_strlit(" \"");
        reveal_strlit("\"\r\n");
        reveal_strlit("\r\n");
    }
    let mut s = String::from_str("AUTHENTICATE");
    match password {
        Option::None => {
            s.append("\r\n");
            assert(s@ =~= auth_line(opt_chars(*password)));
        },
        Option::Some(p) => {
            s.append(" \"");
            s.append(p.as_str());
            s.append("\"\r\n");
            assert(s@ =~= auth_line(opt_chars(*password)));
        },
    }
    s
}

/// The request that provisions one hidden service: its directory with
/// separators normalized, and a mapping from virtual port 80 to the
/// local port.
pub open spec fn setconf_line(dir: Seq<char>, port: u16) -> Seq<char> {
    "SETCONF HiddenServiceDir=\""@ + normalize_separators(dir)
        + "\" HiddenServicePort=\"80 127.0.0.1:"@ + decimal(port as nat) + "\"\r\n"@
}

/// The only acknowledgement that counts as success: the eight bytes
/// of "250 OK" followed by carriage return and line feed.
pub open spec fn ok_ack() -> Seq<u8> {
    seq![50u8, 53u8, 48u8, 32u8, 79u8, 75u8, 13u8, 10u8]
}

/// Whether the bytes read back after a command are exactly the
/// success acknowledgement.
pub open spec fn is_ok_ack(bytes: Seq<u8>) -> bool {
    bytes == ok_ack()
}

/// Classifies the response bytes read after a command was sent.
/// Anything but the exact eight-byte acknowledgement is a failure,
/// including a response cut short by the stream closing.
pub fn response_is_ok(bytes: &Vec<u8>) -> (r: bool)
    ensures
        r == is_ok_ack(bytes@),
{
    if bytes.len() != 8 {
        return false;
    }
    let r = bytes[0] == 50 && bytes[1] == 53 && bytes[2] == 48 && bytes[3] == 32
        && bytes[4] == 79 && bytes[5] == 75 && bytes[6] == 13 && bytes[7] == 10;
    proof {
        if r {
            assert(bytes@ =~= ok_ack());
        }
    }
    r
}

/// A response of fewer than eight bytes — the stream closed before a
/// full acknowledgement arrived — is never a success.
pub proof fn lemma_short_response_is_failure(bytes: Seq<u8>)
    requires
        bytes.len() < 8,
    ensures
        !is_ok_ack(bytes),
{
    assert(ok_ack().len() == 8);
}

} // verus!
