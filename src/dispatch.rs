//! The per-request state machine. Each function takes what the previous
//! filesystem step returned and says what to do next; the caller performs
//! the step and comes back with its outcome.

use vstd::prelude::*;
use crate::clock::{http_stamp, local_time_of, representable, CivilTime};
use crate::config::ServerConfig;
use crate::error::{IoFailure, ServerError};
use crate::listing::{index_page, render_listing, DirEntryRecord};
use crate::order::sorted_by_name;
use crate::resolve::{conclude, is_restricted, joined, passes_containment, screen};
use crate::respond::{file_reply, header_view, is_not_modified, mime_type_of, not_modified, Response};
use crate::text::push_str;

verus! {

/// What a resolved path turned out to be.
#[derive(Clone, Copy, PartialEq, Eq, Structural, Debug)]
pub enum EntryKind {
    Directory,
    File,
    /// Neither, such as a device or a socket.
    Other,
}

/// The next step of a request.
pub enum Action {
    /// Canonicalize the base directory and `candidate`, then `after_canonical`.
    Canonicalize(String),
    /// Find out what the resolved path is, then `after_kind`.
    Inspect(String),
    /// Read the directory's entries, then `after_entries`.
    ReadDirectory(String),
    /// Read the file's modification time, then `after_modified`.
    CheckModified(String),
    /// Read the file's bytes and modification time, then `after_read`.
    ReadFile(String),
    /// Send this response; the request is done.
    Reply(Response),
}

/// A request for `path` begins: restricted names are refused before anything
/// on disk is touched.
pub fn start(path: &str, config: &ServerConfig) -> (r: Action)
    ensures
        is_restricted(path@, config.restricted_files@) ==> (r matches Action::Reply(
            Response::Failure(ServerError::UnsafePath(p)),
        ) && p@ == path@),
        !is_restricted(path@, config.restricted_files@) ==> (r matches Action::Canonicalize(c)
            && c@ == joined(config.base_path@, path@)),
{
    match screen(path, config) {
        Ok(candidate) => Action::Canonicalize(candidate),
        Err(e) => Action::Reply(Response::Failure(e)),
    }
}

/// Canonicalization is done: the candidate goes on only when it lies inside
/// the base directory; every other outcome is an error reply as `conclude`
/// decides.
pub fn after_canonical(
    path: &str,
    candidate: String,
    canonical_base: Result<String, IoFailure>,
    canonical_candidate: Result<String, IoFailure>,
) -> (r: Action)
    ensures
        passes_containment(canonical_base, canonical_candidate) ==> (r matches Action::Inspect(p)
            && p@ == candidate@),
        !passes_containment(canonical_base, canonical_candidate) ==> (r matches Action::Reply(
            Response::Failure(_),
        )),
        canonical_base is Err ==> (r matches Action::Reply(
            Response::Failure(ServerError::Filesystem(_)),
        )),
        canonical_base is Ok ==> (canonical_candidate matches Err(IoFailure::NotFound) ==> (
        r matches Action::Reply(Response::Failure(ServerError::NotFound(p))) && p@ == path@)),
        canonical_base is Ok ==> (canonical_candidate matches Err(IoFailure::Other(_)) ==> (
        r matches Action::Reply(Response::Failure(ServerError::Filesystem(_))))),
        (canonical_base is Ok && canonical_candidate is Ok && !passes_containment(
            canonical_base,
            canonical_candidate,
        )) ==> (r matches Action::Reply(Response::Failure(ServerError::UnsafePath(p))) && p@
            == path@),
{
    match conclude(path, candidate, canonical_base, canonical_candidate) {
        Ok(p) => Action::Inspect(p),
        Err(e) => Action::Reply(Response::Failure(e)),
    }
}

/// A directory is listed; a file is checked against the client's cache when
/// the client sent `If-Modified-Since` and read at once otherwise; anything
/// else is not found.
pub fn after_kind(path: &str, resolved: String, kind: EntryKind, has_condition: bool) -> (r: Action)
    ensures
        kind == EntryKind::Directory ==> (r matches Action::ReadDirectory(p) && p@ == resolved@),
        (kind == EntryKind::File && has_condition) ==> (r matches Action::CheckModified(p) && p@
            == resolved@),
        (kind == EntryKind::File && !has_condition) ==> (r matches Action::ReadFile(p) && p@
            == resolved@),
        kind == EntryKind::Other ==> (r matches Action::Reply(
            Response::Failure(ServerError::NotFound(p)),
        ) && p@ == path@),
{
    match kind {
        EntryKind::Directory => Action::ReadDirectory(resolved),
        EntryKind::File => if has_condition {
            Action::CheckModified(resolved)
        } else {
            Action::ReadFile(resolved)
        },
        EntryKind::Other => Action::Reply(Response::Failure(ServerError::NotFound(path.to_owned()))),
    }
}

/// The directory's entries were read, or reading them failed.
pub fn after_entries(path: &str, entries: Result<Vec<DirEntryRecord>, String>, config: &ServerConfig) -> (r: Response)
    ensures
        entries matches Ok(v) ==> (r matches Response::Listing(html) && html@ == index_page(
            path@,
            sorted_by_name(v@),
            config.render_mode,
        )),
        entries is Err ==> (r matches Response::Failure(ServerError::Filesystem(_))),
{
    match entries {
        Ok(v) => Response::Listing(render_listing(path, v, config.render_mode)),
        Err(m) => Response::Failure(ServerError::Filesystem(m)),
    }
}

/// The file's modification time, in seconds and nanoseconds since the Unix
/// epoch, was read or could not be had. It is taken to local time, and a
/// current cached copy (see `is_not_modified`) ends the request with "not
/// modified", before the file is read.
pub fn after_modified(resolved: String, if_modified_since: Option<&str>, modified: Option<(i64, u32)>) -> (r: Action)
    ensures
        r matches Action::Reply(_) ==> (r matches Action::Reply(Response::NotModified)),
        r matches Action::Reply(_) ==> exists|t: CivilTime| #![auto]
            t.wf() && not_modified(header_view(if_modified_since), Some(t)),
        (if_modified_since is None || modified is None) ==> (r matches Action::ReadFile(p) && p@
            == resolved@),
        r matches Action::ReadFile(p) ==> p@ == resolved@,
        r is Reply || r is ReadFile,
{
    let local = match modified {
        Some((secs, nanos)) => local_time_of(secs, nanos),
        None => None,
    };
    if is_not_modified(if_modified_since, local) {
        Action::Reply(Response::NotModified)
    } else {
        Action::ReadFile(resolved)
    }
}

/// The file's bytes and modification time (seconds and nanoseconds since the
/// Unix epoch) were read, or reading failed. A time that cannot be taken to
/// local time fails the request.
pub fn after_read(resolved: &str, content: Result<(Vec<u8>, i64, u32), String>) -> (r: Response)
    ensures
        content matches Ok((body, _, _)) ==> (r matches Response::File(f) ==> (f.body@ == body@
            && f.content_type@ == mime_type_of(resolved@) && exists|t: CivilTime| #![auto]
            t.wf() && f.last_modified@ == http_stamp(t))),
        content is Ok ==> (r is File || r matches Response::Failure(ServerError::ServerError(_))),
        content matches Ok((_, secs, nanos)) ==> (representable(secs, nanos) ==> r is File),
        content is Err ==> (r matches Response::Failure(ServerError::Filesystem(_))),
{
    match content {
        Ok((body, secs, nanos)) => match local_time_of(secs, nanos) {
            Some(t) => Response::File(file_reply(resolved, body, &t)),
            None => {
                let mut m = String::new();
                push_str(&mut m, "modification time out of range");
                Response::Failure(ServerError::ServerError(m))
            },
        },
        Err(m) => Response::Failure(ServerError::Filesystem(m)),
    }
}

} // verus!
