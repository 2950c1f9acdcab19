//! Files whose text is to be extracted.
use vstd::prelude::*;

verus! {

/// A file, and what is known of its kind.
#[derive(Clone, Debug, PartialEq, Eq)]
pub struct ParseBytesRequest {
    /// The file's name, which tells its kind where `content_type` does not.
    pub filename: Option<String>,
    /// The file's MIME type.
    pub content_type: Option<String>,
    /// The file's content.
    pub bytes: Vec<u8>,
}

/// The text of a file, as Markdown.
#[derive(Clone, Debug, PartialEq, Eq)]
pub struct ParsedText {
    pub markdown: String,
}

} // verus!
