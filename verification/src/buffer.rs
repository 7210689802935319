//! Handles to buffer-view entities.

use vstd::prelude::*;

use crate::document::Document;
use crate::record::ViewRecord;

verus! {

/// A non-owning handle to one buffer view of a document: a borrowed
/// reference to the owning document, the view's position in the document's
/// buffer-view array, and a borrow of the record at that position.
#[derive(Clone, Debug)]
pub struct BufferView<'a> {
    /// The owning document.
    document: &'a Document,
    /// The position of this view in the document's buffer-view array.
    index: usize,
    /// The record at that position.
    record: &'a ViewRecord,
}

impl<'a> BufferView<'a> {
    /// The owning document, as a spec-level value.
    pub closed spec fn doc_spec(&self) -> Document {
        *self.document
    }

    /// The position of this handle in the owning array, as a spec-level value.
    pub closed spec fn index_spec(&self) -> usize {
        self.index
    }

    /// The record this handle borrows, as a spec-level value.
    pub closed spec fn record_spec(&self) -> ViewRecord {
        *self.record
    }

    /// A well-formed handle points at a position inside the owning array and
    /// borrows exactly the record stored there.
    pub open spec fn wf(&self) -> bool {
        &&& self.index_spec() < self.doc_spec().views_spec().len()
        &&& self.record_spec() == self.doc_spec().views_spec()[self.index_spec() as int]
    }

    /// Constructs a handle from its parts.
    pub(crate) fn new(document: &'a Document, index: usize, record: &'a ViewRecord) -> (r: Self)
        ensures
            r.doc_spec() == *document,
            r.index_spec() == index,
            r.record_spec() == *record,
    {
        BufferView { document, index, record }
    }

    /// Returns the position of this view in its owning array.
    pub fn index(&self) -> (r: usize)
        ensures
            r == self.index_spec(),
    {
        self.index
    }

    /// Returns the index of the parent buffer.
    pub fn buffer_index(&self) -> (r: usize)
        ensures
            r == self.record_spec().buffer,
    {
        self.record.buffer
    }

    /// Returns the length of the view in bytes.
    pub fn length(&self) -> (r: usize)
        ensures
            r == self.record_spec().byte_length,
    {
        self.record.byte_length
    }

    /// Returns the offset of the view from the start of its buffer, in
    /// bytes; an absent offset reads as zero.
    pub fn offset(&self) -> (r: usize)
        ensures
            r == match self.record_spec().byte_offset {
                Some(o) => o,
                None => 0usize,
            },
    {
        match self.record.byte_offset {
            Some(o) => o,
            None => 0,
        }
    }

    /// Returns the optional human-readable name of this view.
    pub fn name(&self) -> (r: Option<&'a str>)
        ensures
            match self.record_spec().name {
                Some(n) => r matches Some(s) && s@ == n@,
                None => r is None,
            },
    {
        match &self.record.name {
            Some(n) => Some(n.as_str()),
            None => None,
        }
    }
}

} // verus!
