//! File responses: the conditional-cache decision, the headers of a full
//! response, and the status each outcome of a request is sent with.

use vstd::prelude::*;
use crate::clock::{http_date, http_stamp, CivilTime};
use crate::error::{status_of, ServerError};
use crate::text::push_str;

verus! {

/// What mime_guess gives for a path: the first type registered for its
/// extension, or `application/octet-stream`.
pub uninterp spec fn mime_type_of(path: Seq<char>) -> Seq<char>;

/// Relies on `mime_guess::from_path(..).first_or_octet_stream()`: a content
/// type looked up from the path's extension alone, with no disk access.
#[verifier::external_body]
fn guess_mime(path: &str) -> (r: String)
    ensures
        r@ == mime_type_of(path@),
{
    let mime = mime_guess::from_path(path).first_or_octet_stream();
    let text: &str = mime.as_ref();
    text.to_owned()
}

/// A client's cached copy is current: it sent `If-Modified-Since`, the file's
/// modification time is known, and the header equals that time's
/// `Last-Modified` text character for character.
pub open spec fn not_modified(if_modified_since: Option<Seq<char>>, modified: Option<CivilTime>) -> bool {
    match (if_modified_since, modified) {
        (Some(h), Some(t)) => h == http_stamp(t),
        _ => false,
    }
}

pub open spec fn header_view(h: Option<&str>) -> Option<Seq<char>> {
    match h {
        Some(s) => Some(s@),
        None => None,
    }
}

/// Whether a file request can be answered with "not modified", without
/// reading the file. The header is compared as text, not as a date.
pub fn is_not_modified(if_modified_since: Option<&str>, modified: Option<CivilTime>) -> (r: bool)
    ensures
        r == not_modified(header_view(if_modified_since), modified),
{
    match (if_modified_since, modified) {
        (Some(h), Some(t)) => {
            let stamp = http_date(&t);
            let mut given = String::new();
            push_str(&mut given, h);
            given == stamp
        },
        _ => false,
    }
}

/// The body and headers of a full file response.
pub struct FileReply {
    pub body: Vec<u8>,
    pub content_type: String,
    pub last_modified: String,
    pub cache_control: String,
}

pub const CACHE_CONTROL: &'static str = "public, max-age=3600";

/// The full response for the file at `path`, whose bytes are `body` and
/// whose last modification was at `modified`.
pub fn file_reply(path: &str, body: Vec<u8>, modified: &CivilTime) -> (r: FileReply)
    ensures
        r.body@ == body@,
        r.content_type@ == mime_type_of(path@),
        r.last_modified@ == http_stamp(*modified),
        r.cache_control@ == CACHE_CONTROL@,
{
    let mut cache_control = String::new();
    push_str(&mut cache_control, CACHE_CONTROL);
    FileReply {
        body,
        content_type: guess_mime(path),
        last_modified: http_date(modified),
        cache_control,
    }
}

/// How a request is answered.
pub enum Response {
    /// A directory index page.
    Listing(String),
    /// The client's cached copy is current; no body.
    NotModified,
    File(FileReply),
    Failure(ServerError),
}

pub open spec fn response_status(r: Response) -> u16 {
    match r {
        Response::Listing(_) => 200,
        Response::NotModified => 304,
        Response::File(_) => 200,
        Response::Failure(e) => status_of(e),
    }
}

impl Response {
    /// The HTTP status: 200 with content, 304 without, or the error's status.
    pub fn status_code(&self) -> (r: u16)
        ensures
            r == response_status(*self),
    {
        match self {
            Response::Listing(_) => 200,
            Response::NotModified => 304,
            Response::File(_) => 200,
            Response::Failure(e) => e.status_code(),
        }
    }
}

} // verus!
