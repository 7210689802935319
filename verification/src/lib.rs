//! Read-only, lazily-resolved accessors over a parsed scene-description
//! document.
//!
//! A [`Document`] owns immutable arrays of entity records that reference one
//! another by integer index. Entity handles such as [`Image`] borrow from the
//! document and resolve those indices on demand into handles to sibling
//! entities, without copying or re-parsing anything. The [`Source`] union
//! tells downstream code where an image's encoded bytes live: in a buffer
//! view inside the document, or behind an external URI.
//!
//! The optional record fields (names, extension blocks, extras) are kept
//! and exposed uniformly: an accessor reports their genuine absence rather
//! than being compiled out.

pub mod buffer;
pub mod document;
pub mod ext;
pub mod image;
pub mod record;

pub use buffer::BufferView;
pub use document::Document;
pub use image::Image;
pub use image::Source;
pub use record::Extras;
pub use record::ImageRecord;
pub use record::ViewRecord;
