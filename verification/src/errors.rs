//! The error taxonomy surfaced by the workspace backend.

use vstd::prelude::*;

verus! {

/// Every failure the backend reports. Lookups of ids that were never created
/// fail with `UnknownWorkspace`, distinctly from filesystem failures (`Io`),
/// so callers can tell "never created" from "directory unreachable".
#[derive(Clone, PartialEq, Eq, Debug)]
pub enum WsError {
    /// The id is not present in the workspace registry.
    UnknownWorkspace(String),
    /// An asset category outside the enumerated set (`images`, `fonts`).
    InvalidCategory,
    /// A filename containing a parent-directory traversal segment.
    InvalidPath,
    /// A path that resolves outside its category folder.
    PathEscape,
    /// An underlying filesystem failure.
    Io(String),
    /// A malformed specification document.
    Parse(String),
    /// An encoder failure while writing a specification back out.
    Serialize(String),
    /// A malformed archive, or a failure creating or writing one.
    Archive(String),
    /// The external renderer was unreachable, exited non-zero, or produced
    /// no output file; carries the captured diagnostics.
    Renderer(String),
}

impl WsError {
    /// A human-readable description, for the GUI boundary.
    pub fn message(&self) -> (r: String)
        ensures
            self is UnknownWorkspace ==> r@ == "Unknown workspace id: "@ + self->UnknownWorkspace_0@,
            self is InvalidCategory ==> r@ == "Invalid category. Must be 'images' or 'fonts'"@,
            self is InvalidPath ==> r@ == "Invalid filename"@,
            self is PathEscape ==> r@ == "Invalid file path"@,
            self is Io ==> r@ == self->Io_0@,
            self is Parse ==> r@ == self->Parse_0@,
            self is Serialize ==> r@ == self->Serialize_0@,
            self is Archive ==> r@ == self->Archive_0@,
            self is Renderer ==> r@ == self->Renderer_0@,
    {
        match self {
            WsError::UnknownWorkspace(id) => {
                let mut m = String::from_str("Unknown workspace id: ");
                m.append(id.as_str());
                m
            },
            WsError::InvalidCategory => String::from_str("Invalid category. Must be 'images' or 'fonts'"),
            WsError::InvalidPath => String::from_str("Invalid filename"),
            WsError::PathEscape => String::from_str("Invalid file path"),
            WsError::Io(m) => m.clone(),
            WsError::Parse(m) => m.clone(),
            WsError::Serialize(m) => m.clone(),
            WsError::Archive(m) => m.clone(),
            WsError::Renderer(m) => m.clone(),
        }
    }
}

} // verus!
