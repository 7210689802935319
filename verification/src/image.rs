//! Handles to image entities and their data source.

use vstd::prelude::*;

use crate::buffer;
use crate::document::Document;
use crate::ext::ext_entries;
use crate::ext::map_get;
use crate::record::Extras;
use crate::record::ImageRecord;

verus! {

/// Describes where an image's encoded bytes live. Exactly one of the two
/// strategies applies to any image of a structurally valid document: slice
/// the bytes out of a buffer view, or fetch them from a URI.
#[derive(Clone, Debug)]
pub enum Source<'a> {
    /// Image data is contained in a buffer view of the same document.
    View {
        /// The buffer view containing the encoded image data.
        view: buffer::BufferView<'a>,
        /// The image data MIME type.
        mime_type: &'a str,
    },
    /// Image data is contained in an external data source.
    Uri {
        /// The URI of the external data source.
        uri: &'a str,
        /// The image data MIME type, if provided.
        mime_type: Option<&'a str>,
    },
}

/// A non-owning handle to one image of a document: a borrowed reference to
/// the owning document, the image's position in the document's image array,
/// and a borrow of the record at that position. Every accessor is a pure
/// derivation from these three fields.
#[derive(Clone, Debug)]
pub struct Image<'a> {
    /// The owning document.
    document: &'a Document,
    /// The position of this image in the document's image array.
    index: usize,
    /// The record at that position.
    record: &'a ImageRecord,
}

impl<'a> Image<'a> {
    /// The owning document, as a spec-level value.
    pub closed spec fn doc_spec(&self) -> Document {
        *self.document
    }

    /// The position of this handle in the owning array, as a spec-level value.
    pub closed spec fn index_spec(&self) -> usize {
        self.index
    }

    /// The record this handle borrows, as a spec-level value.
    pub closed spec fn record_spec(&self) -> ImageRecord {
        *self.record
    }

    /// A well-formed handle points at a position inside the owning array and
    /// borrows exactly the record stored there.
    pub open spec fn wf(&self) -> bool {
        &&& self.index_spec() < self.doc_spec().images_spec().len()
        &&& self.record_spec() == self.doc_spec().images_spec()[self.index_spec() as int]
    }

    /// Constructs a handle from its parts.
    pub(crate) fn new(document: &'a Document, index: usize, record: &'a ImageRecord) -> (r: Self)
        ensures
            r.doc_spec() == *document,
            r.index_spec() == index,
            r.record_spec() == *record,
    {
        Image { document, index, record }
    }

    /// Returns the position of this image in its owning array. This is the
    /// image's stable identity: the handle at position `i` of the
    /// document's image array reports index `i`.
    pub fn index(&self) -> (r: usize)
        ensures
            r == self.index_spec(),
    {
        self.index
    }

    /// Returns the optional human-readable name of this image.
    pub fn name(&self) -> (r: Option<&'a str>)
        ensures
            match self.record_spec().name {
                Some(n) => r matches Some(s) && s@ == n@,
                None => r is None,
            },
    {
        match &self.record.name {
            Some(n) => Some(n.as_str()),
            None => None,
        }
    }

    /// Returns the image data source.
    ///
    /// When the record carries a buffer-view index, the result is the
    /// `View` arm: the index is resolved against the owning document into a
    /// buffer-view handle at exactly that position, paired with the
    /// record's (non-empty) MIME type. Otherwise the result is the `Uri`
    /// arm: the record's URI verbatim, paired with the MIME type exactly as
    /// given, absent when the record omits it.
    ///
    /// Resolution trusts the format's own validation: the caller must hold
    /// a structurally valid record (`image_record_wf`), under which the
    /// lookup cannot fail.
    pub fn source(&self) -> (r: Source<'a>)
        requires
            self.wf(),
            self.doc_spec().image_record_wf(self.record_spec()),
        ensures
            match self.record_spec().buffer_view {
                Some(bvi) => {
                    &&& r matches Source::View { view, mime_type }
                    &&& view.wf()
                    &&& view.doc_spec() == self.doc_spec()
                    &&& view.index_spec() == bvi
                    &&& self.record_spec().mime_type matches Some(m) && mime_type@ == m@
                    &&& mime_type@.len() > 0
                },
                None => {
                    &&& r matches Source::Uri { uri, mime_type }
                    &&& self.record_spec().uri matches Some(u) && uri@ == u@
                    &&& match self.record_spec().mime_type {
                        Some(m) => mime_type matches Some(mt) && mt@ == m@,
                        None => mime_type is None,
                    }
                },
            },
    {
        match self.record.buffer_view {
            Some(index) => {
                let view = match self.document.view(index) {
                    Some(v) => v,
                    None => unreached(),
                };
                let mime_type = match &self.record.mime_type {
                    Some(m) => m.as_str(),
                    None => unreached(),
                };
                Source::View { view, mime_type }
            },
            None => {
                let uri = match &self.record.uri {
                    Some(u) => u.as_str(),
                    None => unreached(),
                };
                let mime_type = match &self.record.mime_type {
                    Some(m) => Some(m.as_str()),
                    None => None,
                };
                Source::Uri { uri, mime_type }
            },
        }
    }

    /// Returns the extension block exactly as the record carries it:
    /// nothing when the record declared no block at all, and the block
    /// itself (possibly empty) when it declared one.
    pub fn extensions(&self) -> (r: Option<
        &'a serde_json::Map<String, serde_json::Value>,
    >)
        ensures
            match self.record_spec().extensions {
                Some(m) => r matches Some(rm) && *rm == m,
                None => r is None,
            },
    {
        match &self.record.extensions {
            Some(m) => Some(m),
            None => None,
        }
    }

    /// Looks one key up in the extension block, by exact key equality.
    /// Nothing comes back when the record has no extension block, or when
    /// the block lacks the key; otherwise the stored value, borrowed.
    pub fn extension_value(&self, ext_name: &str) -> (r: Option<&'a serde_json::Value>)
        ensures
            match self.record_spec().extensions {
                None => r is None,
                Some(m) => match r {
                    Some(v) => ext_entries(m).dom().contains(ext_name@)
                        && *v == ext_entries(m)[ext_name@],
                    None => !ext_entries(m).dom().contains(ext_name@),
                },
            },
    {
        match &self.record.extensions {
            Some(m) => map_get(m, ext_name),
            None => None,
        }
    }

    /// Returns the opaque application-specific payload, verbatim.
    pub fn extras(&self) -> (r: &'a Extras)
        ensures
            *r == self.record_spec().extras,
    {
        &self.record.extras
    }
}

} // verus!
