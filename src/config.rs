//! The server configuration, fixed at startup and read by every request.

use vstd::prelude::*;

verus! {

/// How directory index pages are drawn.
#[derive(Clone, Copy, PartialEq, Eq, Structural, Debug)]
pub enum RenderMode {
    /// A preformatted block with fixed-width columns.
    Plain,
    /// A styled HTML table.
    Styled,
}

/// Read-only settings shared by all requests.
pub struct ServerConfig {
    /// The directory under which every request must resolve.
    pub base_path: String,
    /// Substrings that no request path may contain.
    pub restricted_files: Vec<String>,
    pub render_mode: RenderMode,
}

impl ServerConfig {
    pub fn new(base_path: String, restricted_files: Vec<String>, render_mode: RenderMode) -> (r: Self)
        ensures
            r.base_path@ == base_path@,
            r.restricted_files@ == restricted_files@,
            r.render_mode == render_mode,
    {
        ServerConfig { base_path, restricted_files, render_mode }
    }
}

} // verus!
