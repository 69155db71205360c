//! The request errors and the HTTP status and page each one becomes.

use vstd::prelude::*;
use crate::text::push_str;

verus! {

/// Why a request could not be answered with content.
pub enum ServerError {
    /// An I/O failure unrelated to the request itself; the text describes it.
    Filesystem(String),
    /// The request names a restricted pattern or leaves the base directory.
    UnsafePath(String),
    /// The requested entry does not exist.
    NotFound(String),
    /// A response could not be assembled.
    ServerError(String),
}

/// What became of a filesystem lookup that did not succeed.
pub enum IoFailure {
    /// The entry does not exist.
    NotFound,
    /// Any other failure, with its description.
    Other(String),
}

pub open spec fn status_of(e: ServerError) -> u16 {
    match e {
        ServerError::NotFound(_) => 404,
        ServerError::UnsafePath(_) => 403,
        _ => 500,
    }
}

pub open spec fn error_page(e: ServerError) -> Seq<char> {
    match e {
        ServerError::NotFound(p) => "<h1>找不到路徑: "@ + p@ + "</h1>"@,
        ServerError::UnsafePath(p) => "<h1>禁止訪問: "@ + p@ + "</h1>"@,
        _ => "<h1>伺服器內部錯誤</h1>"@,
    }
}

impl ServerError {
    /// The HTTP status code: 404, 403, or 500 for every other failure.
    pub fn status_code(&self) -> (r: u16)
        ensures
            r == status_of(*self),
    {
        match self {
            ServerError::NotFound(_) => 404,
            ServerError::UnsafePath(_) => 403,
            _ => 500,
        }
    }

    /// The HTML body sent to the client; internal details are not echoed.
    pub fn body_html(&self) -> (r: String)
        ensures
            r@ == error_page(*self),
    {
        let mut out = String::new();
        match self {
            ServerError::NotFound(p) => {
                push_str(&mut out, "<h1>找不到路徑: ");
                push_str(&mut out, p.as_str());
                push_str(&mut out, "</h1>");
            },
            ServerError::UnsafePath(p) => {
                push_str(&mut out, "<h1>禁止訪問: ");
                push_str(&mut out, p.as_str());
                push_str(&mut out, "</h1>");
            },
            _ => {
                push_str(&mut out, "<h1>伺服器內部錯誤</h1>");
            },
        }
        assert(out@ =~= error_page(*self));
        out
    }
}

} // verus!
