//! The document: the owner of every parsed entity array.

use vstd::prelude::*;

use crate::buffer;
use crate::image::Image;
use crate::record::ImageRecord;
use crate::record::ViewRecord;

verus! {

/// The full in-memory representation of one parsed asset: immutable arrays
/// of entity records, indexed by position. Array positions are stable and
/// are exactly the indices the records use to cross-reference one another.
#[derive(Debug, Default)]
pub struct Document {
    /// The image records, in storage order.
    images: Vec<ImageRecord>,
    /// The buffer-view records, in storage order.
    views: Vec<ViewRecord>,
}

impl Document {
    /// The image array, as a spec-level sequence.
    pub closed spec fn images_spec(&self) -> Seq<ImageRecord> {
        self.images@
    }

    /// The buffer-view array, as a spec-level sequence.
    pub closed spec fn views_spec(&self) -> Seq<ViewRecord> {
        self.views@
    }

    /// Structural validity of one image record against this document:
    /// exactly one of the buffer-view index and the URI is present; a
    /// present buffer-view index lies inside the buffer-view array and is
    /// accompanied by a non-empty MIME type. The wire format's own
    /// validation guarantees all of this for every record it emits.
    pub open spec fn image_record_wf(&self, rec: ImageRecord) -> bool {
        &&& (rec.buffer_view is Some) <==> (rec.uri is None)
        &&& rec.buffer_view matches Some(i) ==> i < self.views_spec().len()
        &&& rec.buffer_view is Some ==> (rec.mime_type matches Some(m) && m@.len() > 0)
    }

    /// Structural validity of the whole document: every image record is
    /// valid against it.
    pub open spec fn wf(&self) -> bool {
        forall|i: int|
            0 <= i < self.images_spec().len() ==> self.image_record_wf(
                #[trigger] self.images_spec()[i],
            )
    }

    /// Assembles a document from its parsed record arrays.
    pub fn new(images: Vec<ImageRecord>, views: Vec<ViewRecord>) -> (doc: Document)
        ensures
            doc.images_spec() == images@,
            doc.views_spec() == views@,
    {
        Document { images, views }
    }

    /// Decides structural validity, record by record. A caller that did not
    /// produce the document through the format's own validation can use
    /// this to establish `wf` before resolving sources.
    pub fn is_valid(&self) -> (r: bool)
        ensures
            r == self.wf(),
    {
        let mut k: usize = 0;
        while k < self.images.len()
            invariant
                k <= self.images@.len(),
                forall|i: int|
                    0 <= i < k ==> self.image_record_wf(#[trigger] self.images@[i]),
            decreases self.images@.len() - k,
        {
            let rec = &self.images[k];
            let ok: bool = match rec.buffer_view {
                Some(i) => rec.uri.is_none() && i < self.views.len() && (match &rec.mime_type {
                    Some(m) => !m.as_str().is_empty(),
                    None => false,
                }),
                None => rec.uri.is_some(),
            };
            if !ok {
                assert(!self.image_record_wf(self.images_spec()[k as int]));
                return false;
            }
            k = k + 1;
        }
        true
    }

    /// Returns the number of images in the document.
    pub fn images_len(&self) -> (r: usize)
        ensures
            r == self.images_spec().len(),
    {
        self.images.len()
    }

    /// Returns the number of buffer views in the document.
    pub fn views_len(&self) -> (r: usize)
        ensures
            r == self.views_spec().len(),
    {
        self.views.len()
    }

    /// Returns the image handle at the given position, or nothing exactly
    /// when the position is out of range.
    pub fn image<'a>(&'a self, index: usize) -> (r: Option<Image<'a>>)
        ensures
            r is Some <==> index < self.images_spec().len(),
            r matches Some(img) ==> {
                &&& img.wf()
                &&& img.doc_spec() == *self
                &&& img.index_spec() == index
            },
    {
        if index < self.images.len() {
            Some(Image::new(self, index, &self.images[index]))
        } else {
            None
        }
    }

    /// Returns the buffer-view handle at the given position, or nothing
    /// exactly when the position is out of range.
    pub fn view<'a>(&'a self, index: usize) -> (r: Option<buffer::BufferView<'a>>)
        ensures
            r is Some <==> index < self.views_spec().len(),
            r matches Some(v) ==> {
                &&& v.wf()
                &&& v.doc_spec() == *self
                &&& v.index_spec() == index
            },
    {
        if index < self.views.len() {
            Some(buffer::BufferView::new(self, index, &self.views[index]))
        } else {
            None
        }
    }

    /// Returns handles to all images, in storage order: the handle at each
    /// position carries that position as its index.
    pub fn images<'a>(&'a self) -> (r: Vec<Image<'a>>)
        ensures
            r@.len() == self.images_spec().len(),
            forall|i: int| 0 <= i < r@.len() ==> {
                &&& (#[trigger] r@[i]).wf()
                &&& r@[i].doc_spec() == *self
                &&& r@[i].index_spec() == i
            },
    {
        let mut out: Vec<Image<'a>> = Vec::new();
        let mut k: usize = 0;
        while k < self.images.len()
            invariant
                k <= self.images@.len(),
                out@.len() == k,
                forall|i: int| 0 <= i < k ==> {
                    &&& (#[trigger] out@[i]).wf()
                    &&& out@[i].doc_spec() == *self
                    &&& out@[i].index_spec() == i
                },
            decreases self.images@.len() - k,
        {
            out.push(Image::new(self, k, &self.images[k]));
            k = k + 1;
        }
        out
    }

    /// Returns handles to all buffer views, in storage order: the handle at
    /// each position carries that position as its index.
    pub fn views<'a>(&'a self) -> (r: Vec<buffer::BufferView<'a>>)
        ensures
            r@.len() == self.views_spec().len(),
            forall|i: int| 0 <= i < r@.len() ==> {
                &&& (#[trigger] r@[i]).wf()
                &&& r@[i].doc_spec() == *self
                &&& r@[i].index_spec() == i
            },
    {
        let mut out: Vec<buffer::BufferView<'a>> = Vec::new();
        let mut k: usize = 0;
        while k < self.views.len()
            invariant
                k <= self.views@.len(),
                out@.len() == k,
                forall|i: int| 0 <= i < k ==> {
                    &&& (#[trigger] out@[i]).wf()
                    &&& out@[i].doc_spec() == *self
                    &&& out@[i].index_spec() == i
                },
            decreases self.views@.len() - k,
        {
            out.push(buffer::BufferView::new(self, k, &self.views[k]));
            k = k + 1;
        }
        out
    }
}

} // verus!
