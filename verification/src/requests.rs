//! Plain request records of the editing surface around the core.
//!
//! These carry positions, spans and buffer contents between a text buffer
//! and the application shell; the core itself reads none of them. Paths are
//! held as plain strings, and the set of in-memory files as an association
//! list of path and content.

use vstd::prelude::*;

verus! {

/// A request to move the cursor of an open buffer.
#[derive(Debug, Clone)]
pub struct ChangeCursorPositionRequest {
    /// The path of the buffer's file.
    pub filepath: String,
    /// The zero-based line of the new cursor position.
    pub line: usize,
    /// The zero-based column of the new cursor position, in bytes.
    pub character: usize,
}

/// A request to jump from a source position to the rendered document.
#[derive(Debug, Clone)]
pub struct SrcToDocJumpRequest {
    /// The path of the source file.
    pub filepath: String,
    /// The zero-based line of the source position.
    pub line: usize,
    /// The zero-based column of the source position, in bytes.
    pub character: usize,
}

/// A request to resolve a span of the rendered document back to a source
/// position.
#[derive(Debug, Clone)]
pub struct DocToSrcJumpResolveRequest {
    /// The span identifier, in hexadecimal form.
    pub span: String,
}

/// The full set of in-memory file buffers, as pairs of path and content.
#[derive(Debug, Clone)]
pub struct MemoryFiles {
    /// The buffered files.
    pub files: Vec<(String, String)>,
}

/// A set of file paths, for dropping buffers.
#[derive(Debug, Clone)]
pub struct MemoryFilesShort {
    /// The paths of the buffers concerned.
    pub files: Vec<String>,
}

} // verus!
