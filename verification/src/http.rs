//! What the engines hand to, and take back from, whoever performs HTTP:
//! a GET request, and the status line of the response.

use vstd::prelude::*;
use crate::text::{decimal, decimal_chars, push_str};

verus! {

/// An HTTP GET request: its URL and its headers, in order.
#[derive(Debug)]
pub struct HttpRequest {
    /// The full request URL.
    pub url: String,
    /// Header names (lower case) and values.
    pub headers: Vec<(String, String)>,
}

/// The text an optional string slice holds.
pub open spec fn opt_str_view(o: Option<&str>) -> Option<Seq<char>> {
    match o {
        Some(s) => Some(s@),
        None => None,
    }
}

/// The reason phrase shown for a status code without a canonical one.
pub const UNKNOWN_STATUS: &'static str = "<unknown status code>";

/// A status as HTTP libraries display it: the code, a space, then the
/// canonical reason phrase (or a placeholder when there is none).
pub open spec fn status_text(status: u16, reason: Option<Seq<char>>) -> Seq<char> {
    decimal(status as nat) + " "@ + match reason {
        Some(r) => r,
        None => UNKNOWN_STATUS@,
    }
}

/// A 2xx status.
pub open spec fn is_success(status: u16) -> bool {
    200 <= status < 300
}

/// Appends `prefix` then the displayed status to a fresh character list.
pub fn status_message(prefix: &str, status: u16, reason: Option<&str>) -> (r: Vec<char>)
    ensures
        r@ == prefix@ + status_text(status, opt_str_view(reason)),
{
    let mut out: Vec<char> = Vec::new();
    push_str(&mut out, prefix);
    let digits = decimal_chars(status as u64);
    out.extend_from_slice(digits.as_slice());
    push_str(&mut out, " ");
    match reason {
        Some(r) => push_str(&mut out, r),
        None => push_str(&mut out, UNKNOWN_STATUS),
    }
    out
}

} // verus!
