//! The data carried through the pipeline: file entries, detected image
//! formats, and the result and error values handed back to the caller.

use vstd::prelude::*;

verus! {

/// One file under processing, owned by the caller; the pipeline reads it and
/// returns results, it keeps no state between calls.
#[derive(Debug, Clone, PartialEq, Eq)]
pub struct FileEntry {
    pub path: String,
    pub file: Option<String>,
    pub status: FileEntryStatus,
    pub size: Option<u32>,
    pub original_size: Option<u32>,
    pub ext: Option<String>,
    pub savings: Option<u32>,
    pub error: Option<String>,
}

/// Size, extension and filename of a file, as reported to the caller.
#[derive(Debug, Clone, PartialEq, Eq)]
pub struct FileInfoResult {
    pub size: u32,
    pub extension: String,
    pub filename: String,
}

/// Lifecycle of a file entry.
#[derive(Debug, Clone, Copy, PartialEq, Eq, Structural)]
pub enum FileEntryStatus {
    Processing,
    Compressing,
    Complete,
    AlreadySmaller,
    Error,
}

/// The closed set of supported image formats, determined by content sniffing
/// or requested as a conversion target.
#[derive(Debug, Clone, Copy, PartialEq, Eq, Structural)]
pub enum ImageType {
    JPEG,
    PNG,
    WEBP,
    GIF,
    TIFF,
}

/// A successful pipeline run: where the input was, where the output went, and
/// how large it is.
#[derive(Debug, Clone, PartialEq, Eq)]
pub struct CompressResult {
    pub path: String,
    pub out_size: u32,
    pub out_path: String,
    pub result: String,
}

/// A failed pipeline run: a human-readable message plus its taxonomy member.
#[derive(Debug, Clone, PartialEq, Eq)]
pub struct CompressError {
    pub error: String,
    pub error_type: CompressErrorType,
}

/// The closed error taxonomy; every internal failure maps to exactly one
/// member.
#[derive(Debug, Clone, Copy, PartialEq, Eq, Structural)]
pub enum CompressErrorType {
    Unknown,
    FileTooLarge,
    FileNotFound,
    UnsupportedFileType,
    WontOverwrite,
    NotSmaller,
}

} // verus!
