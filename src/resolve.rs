//! Turning a request path into a filesystem path confined to the base directory.
//!
//! Resolution runs in two verified steps around the filesystem: `screen`
//! rejects restricted names before anything is touched and forms the candidate
//! path; the caller canonicalizes the base and the candidate; `conclude`
//! decides from those outcomes.

use vstd::prelude::*;
use crate::config::ServerConfig;
use crate::error::{IoFailure, ServerError};
use crate::text::{chars_of, push_char, push_str};

verus! {

/// `pattern` occurs in `s` as a contiguous substring.
pub open spec fn occurs_in(pattern: Seq<char>, s: Seq<char>) -> bool {
    exists|i: int| 0 <= i <= s.len() - pattern.len() && #[trigger] s.subrange(i, i + pattern.len()) == pattern
}

/// Some pattern of the list occurs in `path`.
pub open spec fn is_restricted(path: Seq<char>, patterns: Seq<String>) -> bool {
    exists|k: int| 0 <= k < patterns.len() && occurs_in(#[trigger] patterns[k]@, path)
}

/// `path` appended to `base` as a path join does: an absolute `path` replaces
/// `base`, and one separator is inserted unless `base` is empty or already
/// ends with one.
pub open spec fn joined(base: Seq<char>, path: Seq<char>) -> Seq<char> {
    if path.len() > 0 && path[0] == '/' {
        path
    } else if base.len() == 0 || base.last() == '/' {
        base + path
    } else {
        base + seq!['/'] + path
    }
}

/// `candidate` is `base` or lies below it, for canonical paths: `base` is a
/// prefix of `candidate` that ends at a separator or at the end.
pub open spec fn contained_in(base: Seq<char>, candidate: Seq<char>) -> bool {
    base.len() <= candidate.len() && candidate.subrange(0, base.len() as int) == base && (
    base.len() == 0 || base.last() == '/' || candidate.len() == base.len()
        || candidate[base.len() as int] == '/')
}

/// Both canonicalizations succeeded and the candidate's canonical form lies
/// inside the base's.
pub open spec fn passes_containment(
    canonical_base: Result<String, IoFailure>,
    canonical_candidate: Result<String, IoFailure>,
) -> bool {
    match (canonical_base, canonical_candidate) {
        (Ok(b), Ok(c)) => contained_in(b@, c@),
        _ => false,
    }
}

fn occurs_at(pattern: &Vec<char>, s: &Vec<char>, i: usize) -> (r: bool)
    requires
        i + pattern.len() <= s.len(),
    ensures
        r == (s@.subrange(i as int, i + pattern.len()) == pattern@),
{
    let mut j: usize = 0;
    while j < pattern.len()
        invariant
            j <= pattern.len(),
            i + pattern.len() <= s.len(),
            forall|k: int| 0 <= k < j ==> s@[i + k] == pattern@[k],
        decreases pattern.len() - j,
    {
        if s[i + j] != pattern[j] {
            assert(s@.subrange(i as int, i + pattern.len())[j as int] != pattern@[j as int]);
            return false;
        }
        j = j + 1;
    }
    assert(s@.subrange(i as int, i + pattern.len()) =~= pattern@);
    true
}

/// Whether `pattern` occurs anywhere in `s`.
pub fn contains_pattern(s: &str, pattern: &str) -> (r: bool)
    ensures
        r == occurs_in(pattern@, s@),
{
    let sv = chars_of(s);
    let pv = chars_of(pattern);
    if pv.len() > sv.len() {
        return false;
    }
    let last = sv.len() - pv.len();
    let mut i: usize = 0;
    while i <= last
        invariant
            sv@ == s@,
            pv@ == pattern@,
            last == sv.len() - pv.len(),
            i <= last,
            forall|k: int| 0 <= k < i ==> #[trigger] sv@.subrange(k, k + pv@.len()) != pv@,
        decreases last + 1 - i,
    {
        if occurs_at(&pv, &sv, i) {
            assert(s@.subrange(i as int, i + pattern@.len()) == pattern@);
            return true;
        }
        if i == last {
            return false;
        }
        i = i + 1;
    }
    false
}

/// Whether any of `patterns` occurs in `path`.
pub fn has_restricted(path: &str, patterns: &Vec<String>) -> (r: bool)
    ensures
        r == is_restricted(path@, patterns@),
{
    let mut k: usize = 0;
    while k < patterns.len()
        invariant
            k <= patterns.len(),
            forall|j: int| 0 <= j < k ==> !occurs_in(#[trigger] patterns@[j]@, path@),
        decreases patterns.len() - k,
    {
        if contains_pattern(path, patterns[k].as_str()) {
            return true;
        }
        k = k + 1;
    }
    false
}

/// Joins a request path onto a base directory (see `joined`).
pub fn join_path(base: &str, path: &str) -> (r: String)
    ensures
        r@ == joined(base@, path@),
{
    let bv = chars_of(base);
    let pv = chars_of(path);
    let mut out = String::new();
    if pv.len() > 0 && pv[0] == '/' {
        push_str(&mut out, path);
    } else if bv.len() == 0 || bv[bv.len() - 1] == '/' {
        push_str(&mut out, base);
        push_str(&mut out, path);
    } else {
        push_str(&mut out, base);
        push_char(&mut out, '/');
        push_str(&mut out, path);
    }
    assert(out@ =~= joined(base@, path@));
    out
}

/// Whether the canonical `candidate` is the canonical `base` or lies below it.
pub fn is_contained(base: &str, candidate: &str) -> (r: bool)
    ensures
        r == contained_in(base@, candidate@),
{
    let bv = chars_of(base);
    let cv = chars_of(candidate);
    if bv.len() > cv.len() {
        return false;
    }
    let mut i: usize = 0;
    while i < bv.len()
        invariant
            bv@ == base@,
            cv@ == candidate@,
            bv.len() <= cv.len(),
            i <= bv.len(),
            forall|k: int| 0 <= k < i ==> cv@[k] == bv@[k],
        decreases bv.len() - i,
    {
        if bv[i] != cv[i] {
            assert(cv@.subrange(0, bv@.len() as int)[i as int] != bv@[i as int]);
            return false;
        }
        i = i + 1;
    }
    assert(cv@.subrange(0, bv@.len() as int) =~= bv@);
    bv.len() == 0 || bv[bv.len() - 1] == '/' || cv.len() == bv.len() || cv[bv.len()] == '/'
}

/// The first step of resolution, made before any filesystem access: a path
/// containing a restricted pattern is refused, any other is joined onto the
/// base directory to give the candidate path.
pub fn screen(path: &str, config: &ServerConfig) -> (r: Result<String, ServerError>)
    ensures
        is_restricted(path@, config.restricted_files@) <==> r is Err,
        r matches Err(e) ==> (e matches ServerError::UnsafePath(p) && p@ == path@),
        r matches Ok(c) ==> c@ == joined(config.base_path@, path@),
{
    if has_restricted(path, &config.restricted_files) {
        Err(ServerError::UnsafePath(path.to_owned()))
    } else {
        Ok(join_path(config.base_path.as_str(), path))
    }
}

/// The last step of resolution, from what canonicalizing the base directory
/// and the candidate gave. A failure on the base is a filesystem error; a
/// missing candidate is `NotFound`; a candidate whose canonical form is not
/// inside the canonical base is `UnsafePath`. Otherwise the candidate itself,
/// not its canonical form, is the resolved path.
pub fn conclude(
    path: &str,
    candidate: String,
    canonical_base: Result<String, IoFailure>,
    canonical_candidate: Result<String, IoFailure>,
) -> (r: Result<String, ServerError>)
    ensures
        (r is Ok) == passes_containment(canonical_base, canonical_candidate),
        r matches Ok(p) ==> p@ == candidate@,
        canonical_base is Err ==> (r matches Err(ServerError::Filesystem(_))),
        canonical_base is Ok ==> (canonical_candidate matches Err(IoFailure::NotFound) ==> (
        r matches Err(ServerError::NotFound(p)) && p@ == path@)),
        canonical_base is Ok ==> (canonical_candidate matches Err(IoFailure::Other(_)) ==> (
        r matches Err(ServerError::Filesystem(_)))),
        (canonical_base is Ok && canonical_candidate is Ok && !passes_containment(
            canonical_base,
            canonical_candidate,
        )) ==> (r matches Err(ServerError::UnsafePath(p)) && p@ == path@),
{
    let base = match canonical_base {
        Ok(b) => b,
        Err(IoFailure::NotFound) => {
            return Err(ServerError::Filesystem(String::new()));
        },
        Err(IoFailure::Other(m)) => {
            return Err(ServerError::Filesystem(m));
        },
    };
    let canonical = match canonical_candidate {
        Ok(c) => c,
        Err(IoFailure::NotFound) => {
            return Err(ServerError::NotFound(path.to_owned()));
        },
        Err(IoFailure::Other(m)) => {
            return Err(ServerError::Filesystem(m));
        },
    };
    if !is_contained(base.as_str(), canonical.as_str()) {
        return Err(ServerError::UnsafePath(path.to_owned()));
    }
    Ok(candidate)
}

} // verus!
