//! Plain data records: the in-memory shape of the parsed document arrays.
//!
//! A record holds exactly what the wire format carries for one entity, with
//! optional fields kept optional. Records are produced by an external
//! deserialization step and never mutated afterwards.

use vstd::prelude::*;

verus! {

/// Opaque application-specific payload, carried verbatim.
pub type Extras = Option<serde_json::Value>;

/// One image record. Cross-references are integer indices into the sibling
/// arrays of the owning document, exactly as the wire format stores them.
///
/// A structurally valid record carries exactly one of `buffer_view` and
/// `uri`, and a non-empty `mime_type` whenever `buffer_view` is present;
/// see `Document::image_record_wf`.
#[derive(Clone, Debug, Default)]
pub struct ImageRecord {
    /// Index of the buffer view holding the encoded bytes, when the image
    /// data is embedded in the document's binary payload.
    pub buffer_view: Option<usize>,
    /// MIME type of the encoded data. The format mandates it whenever the
    /// data is embedded by reference to a buffer view.
    pub mime_type: Option<String>,
    /// URI of an external data source, when the data is not embedded.
    pub uri: Option<String>,
    /// Optional human-readable name.
    pub name: Option<String>,
    /// Extension block: fields unknown to this schema version, kept verbatim
    /// for forward compatibility. Absent is distinct from present-but-empty.
    pub extensions: Option<serde_json::Map<String, serde_json::Value>>,
    /// Opaque application-specific data.
    pub extras: Extras,
}

/// One buffer-view record: a named sub-range of a binary buffer.
#[derive(Clone, Debug, Default)]
pub struct ViewRecord {
    /// Index of the parent buffer.
    pub buffer: usize,
    /// Length of the range in bytes.
    pub byte_length: usize,
    /// Offset of the range from the start of the buffer, in bytes; the
    /// format reads an absent offset as zero.
    pub byte_offset: Option<usize>,
    /// Optional human-readable name.
    pub name: Option<String>,
}

} // verus!
