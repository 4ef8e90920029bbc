//! Status resolution for the request log.

use vstd::prelude::*;
use vstd::string::StringExecFns;

verus! {

/// Status code logged for a response that set none and carries no body.
pub const NOT_FOUND: u16 = 404;

/// Status code logged for a response that set none but carries a body.
pub const OK: u16 = 200;

/// Request logging middleware.
#[derive(Default, Debug)]
pub struct LogHandler;

impl LogHandler {
    /// The status a finished response is logged with.
    pub open spec fn spec_logged_status(status: Option<u16>, has_body: bool) -> u16 {
        match status {
            Some(code) => code,
            None => if has_body { OK } else { NOT_FOUND },
        }
    }

    /// How the peer of a request is named in the log.
    pub open spec fn spec_remote_label(remote_addr: Option<Seq<char>>) -> Seq<char> {
        match remote_addr {
            Some(addr) => addr,
            None => "[Unknown]"@,
        }
    }

    /// Names the peer of a request for the log: its address where one is
    /// known, else `[Unknown]`.
    pub fn remote_label(remote_addr: Option<String>) -> (label: String)
        ensures
            label@ == Self::spec_remote_label(
                match remote_addr {
                    Some(addr) => Some(addr@),
                    None => None,
                },
            ),
    {
        match remote_addr {
            Some(addr) => addr,
            None => String::from_str("[Unknown]"),
        }
    }

    /// Resolves the status to log once the rest of the chain has run: the
    /// status the response carries, else 404 for an empty response and 200
    /// for one with a body.
    pub fn logged_status(status: Option<u16>, has_body: bool) -> (code: u16)
        ensures
            code == Self::spec_logged_status(status, has_body),
    {
        match status {
            Some(code) => code,
            None => {
                if has_body {
                    OK
                } else {
                    NOT_FOUND
                }
            },
        }
    }
}

} // verus!
