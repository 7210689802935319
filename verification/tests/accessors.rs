use gltf::{Document, ImageRecord, Source, ViewRecord};

fn image_with_uri(uri: &str, mime_type: Option<&str>) -> ImageRecord {
    ImageRecord {
        uri: Some(uri.to_string()),
        mime_type: mime_type.map(|m| m.to_string()),
        ..Default::default()
    }
}

fn image_with_view(index: usize, mime_type: &str) -> ImageRecord {
    ImageRecord {
        buffer_view: Some(index),
        mime_type: Some(mime_type.to_string()),
        ..Default::default()
    }
}

fn view_record(buffer: usize, byte_length: usize, byte_offset: Option<usize>) -> ViewRecord {
    ViewRecord {
        buffer,
        byte_length,
        byte_offset,
        ..Default::default()
    }
}

#[test]
fn source_resolves_buffer_view() {
    let views = vec![view_record(0, 16, None), view_record(0, 256, Some(16))];
    let images = vec![image_with_view(1, "image/png")];
    let doc = Document::new(images, views);
    assert!(doc.is_valid());

    let img = doc.image(0).unwrap();
    match img.source() {
        Source::View { view, mime_type } => {
            assert_eq!(view.index(), 1);
            assert_eq!(view.length(), 256);
            assert_eq!(view.offset(), 16);
            assert_eq!(mime_type, "image/png");
        }
        Source::Uri { .. } => panic!("embedded image must resolve to a buffer view"),
    }
}

#[test]
fn source_uri_without_mime_type() {
    let doc = Document::new(vec![image_with_uri("texture.jpg", None)], Vec::new());
    assert!(doc.is_valid());

    let img = doc.image(0).unwrap();
    match img.source() {
        Source::Uri { uri, mime_type } => {
            assert_eq!(uri, "texture.jpg");
            assert_eq!(mime_type, None);
        }
        Source::View { .. } => panic!("external image must resolve to a URI"),
    }
}

#[test]
fn source_uri_with_mime_type() {
    let doc = Document::new(
        vec![image_with_uri("data/skybox.jpeg", Some("image/jpeg"))],
        Vec::new(),
    );
    assert!(doc.is_valid());

    let img = doc.image(0).unwrap();
    match img.source() {
        Source::Uri { uri, mime_type } => {
            assert_eq!(uri, "data/skybox.jpeg");
            assert_eq!(mime_type, Some("image/jpeg"));
        }
        Source::View { .. } => panic!("external image must resolve to a URI"),
    }
}

#[test]
fn index_matches_iteration_order() {
    let mut a = image_with_uri("a.png", None);
    a.name = Some("a".to_string());
    let mut b = image_with_uri("b.png", None);
    b.name = Some("b".to_string());
    let mut c = image_with_uri("c.png", None);
    c.name = Some("c".to_string());
    let doc = Document::new(vec![a, b, c], Vec::new());

    assert_eq!(doc.images_len(), 3);
    let nth = doc.image(1).unwrap();
    assert_eq!(nth.index(), 1);
    assert_eq!(nth.name(), Some("b"));

    let all = doc.images();
    assert_eq!(all.len(), 3);
    let expected = ["a", "b", "c"];
    for (i, img) in all.iter().enumerate() {
        assert_eq!(img.index(), i);
        assert_eq!(img.name(), Some(expected[i]));
    }

    assert!(doc.image(3).is_none());
}

#[test]
fn views_iteration_and_nth() {
    let views = vec![view_record(0, 4, None), view_record(1, 8, Some(4))];
    let doc = Document::new(Vec::new(), views);

    assert_eq!(doc.views_len(), 2);
    let all = doc.views();
    assert_eq!(all.len(), 2);
    for (i, view) in all.iter().enumerate() {
        assert_eq!(view.index(), i);
    }
    let nth = doc.view(1).unwrap();
    assert_eq!(nth.index(), 1);
    assert_eq!(nth.buffer_index(), 1);
    assert!(doc.view(2).is_none());
}

#[test]
fn buffer_view_accessors() {
    let mut named = view_record(3, 64, Some(128));
    named.name = Some("palette".to_string());
    let doc = Document::new(Vec::new(), vec![view_record(0, 16, None), named]);

    let bare = doc.view(0).unwrap();
    assert_eq!(bare.buffer_index(), 0);
    assert_eq!(bare.length(), 16);
    assert_eq!(bare.offset(), 0);
    assert_eq!(bare.name(), None);

    let full = doc.view(1).unwrap();
    assert_eq!(full.buffer_index(), 3);
    assert_eq!(full.length(), 64);
    assert_eq!(full.offset(), 128);
    assert_eq!(full.name(), Some("palette"));
}

#[test]
fn document_validity() {
    let empty = Document::new(Vec::new(), Vec::new());
    assert!(empty.is_valid());

    let good = Document::new(
        vec![image_with_view(0, "image/png"), image_with_uri("x.png", None)],
        vec![view_record(0, 4, None)],
    );
    assert!(good.is_valid());

    // Both cross-reference fields present.
    let mut both = image_with_uri("x.png", None);
    both.buffer_view = Some(0);
    both.mime_type = Some("image/png".to_string());
    let doc = Document::new(vec![both], vec![view_record(0, 4, None)]);
    assert!(!doc.is_valid());

    // Neither field present.
    let doc = Document::new(vec![ImageRecord::default()], Vec::new());
    assert!(!doc.is_valid());

    // Buffer-view index out of range.
    let doc = Document::new(vec![image_with_view(1, "image/png")], vec![view_record(0, 4, None)]);
    assert!(!doc.is_valid());

    // Embedded data without a MIME type.
    let mut no_mime = ImageRecord::default();
    no_mime.buffer_view = Some(0);
    let doc = Document::new(vec![no_mime], vec![view_record(0, 4, None)]);
    assert!(!doc.is_valid());

    // Embedded data with an empty MIME type.
    let doc = Document::new(vec![image_with_view(0, "")], vec![view_record(0, 4, None)]);
    assert!(!doc.is_valid());
}

#[test]
fn name_absent_when_record_has_none() {
    let doc = Document::new(vec![image_with_uri("x.png", None)], Vec::new());
    assert_eq!(doc.image(0).unwrap().name(), None);
}
