//! The record the pipeline produces for one file, and the error kinds of its
//! stages. Every optional field is best-effort: absence is data, not an error.

use vstd::prelude::*;

verus! {

/// The unit the pipeline produces and persists for one file.
#[derive(Debug)]
pub struct ImageMetadata {
    /// The path the file was found under; never empty for a produced record.
    pub path: String,
    /// The base-name component of `path`.
    pub file_name: String,
    /// The byte count the filesystem reported at extraction time.
    pub file_size: u64,
    /// Pixel width and height, absent when the bytes do not decode.
    pub dimensions: Option<(u32, u32)>,
    /// Container format name from content sniffing, absent when unrecognized.
    pub format: Option<String>,
    /// Verbatim display form of the embedded original-capture tag, if any.
    pub creation_date: Option<String>,
    /// Comma-separated terms from the enrichment reply.
    pub keywords: Option<String>,
    /// Free-text summary from the enrichment reply.
    pub description: Option<String>,
}

/// The mathematical value of an [`ImageMetadata`]: the same fields over
/// character sequences.
pub ghost struct MetaView {
    pub path: Seq<char>,
    pub file_name: Seq<char>,
    pub file_size: u64,
    pub dimensions: Option<(u32, u32)>,
    pub format: Option<Seq<char>>,
    pub creation_date: Option<Seq<char>>,
    pub keywords: Option<Seq<char>>,
    pub description: Option<Seq<char>>,
}

impl View for ImageMetadata {
    type V = MetaView;

    open spec fn view(&self) -> MetaView {
        MetaView {
            path: self.path@,
            file_name: self.file_name@,
            file_size: self.file_size,
            dimensions: self.dimensions,
            format: self.format.deep_view(),
            creation_date: self.creation_date.deep_view(),
            keywords: self.keywords.deep_view(),
            description: self.description.deep_view(),
        }
    }
}

/// Why talking to the enrichment service failed for one file.
#[derive(Clone, Copy, Debug, PartialEq, Eq, Structural)]
pub enum EnrichmentError {
    /// The request never produced a reply body.
    Network,
    /// The service answered with a non-success status.
    Status(u16),
    /// The reply body was not a well-formed JSON envelope.
    BadResponse,
}

/// Why extraction failed for one file; each kind is fatal to that file's
/// record alone, never to the scan.
#[derive(Clone, Copy, Debug, PartialEq, Eq, Structural)]
pub enum ExtractionError {
    /// The file could not be statted or read.
    Io,
    /// The enrichment stage failed.
    Enrichment(EnrichmentError),
}

/// Why appending a record to the store failed.
#[derive(Clone, Copy, Debug, PartialEq, Eq, Structural)]
pub enum StoreError {
    /// The storage engine refused the statement.
    Backend,
}

} // verus!
