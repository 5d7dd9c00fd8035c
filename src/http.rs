//! The little of HTTP that the sidecar calls need: reading the status code
//! of a response, and telling success from failure.
use vstd::prelude::*;

verus! {

/// Path of the sidecar's readiness endpoint, under its base URL.
pub const READINESS_PATH: &'static str = "/healthz/ready";

/// Path of the sidecar's shutdown endpoint, under its base URL.
pub const TERMINATION_PATH: &'static str = "/quitquitquit";

pub open spec fn is_digit(b: u8) -> bool {
    48 <= b <= 57
}

/// The value of three decimal digits.
pub open spec fn digits_value(a: u8, b: u8, c: u8) -> int {
    100 * (a - 48) + 10 * (b - 48) + (c - 48)
}

/// Whether `s` starts with a status line `HTTP/<d>.<d> <ddd>`, the code
/// followed by a space, a carriage return or the end of the bytes.
pub open spec fn has_status_line(s: Seq<u8>) -> bool {
    &&& s.len() >= 12
    &&& s[0] == 72 && s[1] == 84 && s[2] == 84 && s[3] == 80 && s[4] == 47  // "HTTP/"
    &&& is_digit(s[5]) && s[6] == 46 && is_digit(s[7])
    &&& s[8] == 32
    &&& is_digit(s[9]) && is_digit(s[10]) && is_digit(s[11])
    &&& (s.len() == 12 || s[12] == 32 || s[12] == 13)
}

/// The status code of a response, when it starts with a status line.
pub open spec fn status_code_of(s: Seq<u8>) -> Option<u16> {
    if has_status_line(s) {
        Some(digits_value(s[9], s[10], s[11]) as u16)
    } else {
        None
    }
}

/// Whether a status code reports success (`2xx`).
pub open spec fn is_success_code(code: u16) -> bool {
    200 <= code <= 299
}

fn is_digit_byte(b: u8) -> (r: bool)
    ensures
        r == is_digit(b),
{
    48 <= b && b <= 57
}

/// Reads the status code from the start of a response.
pub fn parse_status_code(response: &[u8]) -> (r: Option<u16>)
    ensures
        r == status_code_of(response@),
{
    if response.len() < 12 {
        return None;
    }
    let s = response;
    if !(s[0] == 72 && s[1] == 84 && s[2] == 84 && s[3] == 80 && s[4] == 47) {
        return None;
    }
    if !(is_digit_byte(s[5]) && s[6] == 46 && is_digit_byte(s[7]) && s[8] == 32) {
        return None;
    }
    if !(is_digit_byte(s[9]) && is_digit_byte(s[10]) && is_digit_byte(s[11])) {
        return None;
    }
    if !(s.len() == 12 || s[12] == 32 || s[12] == 13) {
        return None;
    }
    let code: u16 = 100 * (s[9] - 48) as u16 + 10 * (s[10] - 48) as u16 + (s[11] - 48) as u16;
    Some(code)
}

/// Whether a status code reports success.
pub fn is_success(code: u16) -> (r: bool)
    ensures
        r == is_success_code(code),
{
    200 <= code && code <= 299
}

/// Whether a response reports success: it starts with a status line whose
/// code is `2xx`.
pub fn response_succeeded(response: &[u8]) -> (r: bool)
    ensures
        r == match status_code_of(response@) {
            Some(code) => is_success_code(code),
            None => false,
        },
{
    match parse_status_code(response) {
        Some(code) => is_success(code),
        None => false,
    }
}

/// Whether `s` starts with `http://`.
pub open spec fn has_http_scheme(s: Seq<u8>) -> bool {
    &&& s.len() >= 7
    &&& s[0] == 104 && s[1] == 116 && s[2] == 116 && s[3] == 112  // "http"
    &&& s[4] == 58 && s[5] == 47 && s[6] == 47  // "://"
}

/// Whether `s[7..e]` is the authority of an `http://` URL: not empty, free
/// of `/`, and followed by the end of the URL or by its path.
pub open spec fn is_authority_end(s: Seq<u8>, e: int) -> bool {
    &&& has_http_scheme(s)
    &&& 7 < e <= s.len()
    &&& forall|i: int| 7 <= i < e ==> s[i] != 47
    &&& (e == s.len() || s[e] == 47)
}

/// Splits an `http://` base URL into its authority (host and port), which
/// is `url[7..e]`, and the path before which requests go, which is
/// `url[e..]`. `None` when the URL has another scheme or no host.
pub fn split_http_url(url: &[u8]) -> (r: Option<usize>)
    ensures
        r matches Some(e) ==> is_authority_end(url@, e as int),
        r is None ==> forall|e: int| !is_authority_end(url@, e),
{
    if url.len() < 7 {
        return None;
    }
    if !(url[0] == 104 && url[1] == 116 && url[2] == 116 && url[3] == 112 && url[4] == 58
        && url[5] == 47 && url[6] == 47) {
        return None;
    }
    let mut e: usize = 7;
    while e < url.len() && url[e] != 47
        invariant
            7 <= e <= url.len(),
            forall|i: int| 7 <= i < e ==> url@[i] != 47,
        decreases url.len() - e,
    {
        e = e + 1;
    }
    if e == 7 {
        assert forall|f: int| !is_authority_end(url@, f) by {
            if 7 < f <= url@.len() && forall|i: int| 7 <= i < f ==> url@[i] != 47 {
                assert(url@[7] != 47);
            }
        }
        return None;
    }
    Some(e)
}

} // verus!
