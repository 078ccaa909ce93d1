use base64::Engine;
use zsclip::item::{ClipItem, ClipKind};
use zsclip::lan::{
    encode_rgba_png_bytes, lan_envelope_from_item, lan_envelope_signature, lan_files_clip_from_envelope,
    lan_files_content_signature, lan_image_clip, lan_image_content_signature, lan_image_payload_from_envelope,
    lan_image_png_bytes, lan_latest_origin, lan_origin_metadata_from_row, lan_message_key_from_envelope, lan_preview, lan_source_app,
    lan_text_clip_from_envelope, lan_text_content_signature, png_dimensions_from_bytes, png_frame_to_rgba,
    LanClipEnvelope, LanFileMeta, LanOriginMetadata, PNG_GRAYSCALE, PNG_GRAYSCALE_ALPHA, PNG_INDEXED, PNG_RGB,
    PNG_RGBA,
};
use zsclip::signature::{image_content_signature, text_content_signature};

fn envelope(kind: &str) -> LanClipEnvelope {
    LanClipEnvelope {
        message_id: "dev-7".to_string(),
        origin_device_id: "dev".to_string(),
        origin_seq: 7,
        kind: kind.to_string(),
        hash: "h1".to_string(),
        created_at_ms: 123,
        preview: String::new(),
        text: None,
        image_png_base64: None,
        file_meta: Vec::new(),
    }
}

fn item(kind: ClipKind) -> ClipItem {
    ClipItem {
        id: 0,
        kind,
        preview: "p".to_string(),
        text: None,
        rich_text_html: None,
        source_app: String::new(),
        file_paths: None,
        image_bytes: None,
        image_path: None,
        image_width: 0,
        image_height: 0,
        pinned: false,
        group_id: 0,
        created_at: String::new(),
    }
}

#[test]
fn message_keys_name_device_sequence_and_hash() {
    assert_eq!(lan_message_key_from_envelope(&envelope("text")), "lan:dev:7:h1");
    let mut e = envelope("text");
    e.origin_seq = 18446744073709551615;
    assert_eq!(lan_message_key_from_envelope(&e), "lan:dev:18446744073709551615:h1");
}

#[test]
fn envelope_signatures_are_used_when_well_formed() {
    assert_eq!(lan_envelope_signature(" crc:0a1B2c3D "), Some("crc:0a1B2c3D".to_string()));
    assert_eq!(lan_envelope_signature("crc:0a1b2c3"), None);
    assert_eq!(lan_envelope_signature("crc:0a1b2c3g"), None);
    assert_eq!(lan_files_content_signature("crc:00000000", "lan:k"), "crc:00000000");
    assert_eq!(lan_files_content_signature("other", "lan:k"), "lan:k");
    assert_eq!(lan_text_content_signature(" hi "), text_content_signature("hi"));
}

#[test]
fn previews_and_sources() {
    let long = "字".repeat(200);
    assert_eq!(lan_preview(&long).chars().count(), 160);
    assert_eq!(lan_preview("short"), "short");
    assert_eq!(lan_source_app("laptop"), "LAN: laptop");
}

#[test]
fn received_text_becomes_a_text_item() {
    let mut e = envelope("text");
    e.text = Some("hello there".to_string());
    let d = lan_text_clip_from_envelope("laptop", e, "2026-01-01 00:00:00".to_string()).unwrap();
    assert_eq!(d.item.kind, ClipKind::Text);
    assert_eq!(d.item.text.as_deref(), Some("hello there"));
    assert_eq!(d.item.preview, "hello there");
    assert_eq!(d.item.source_app, "LAN: laptop");
    assert_eq!(d.item.created_at, "2026-01-01 00:00:00");
    assert_eq!(d.content_signature, text_content_signature("hello there"));
    assert_eq!(d.latest_envelope.message_id, "dev-7");

    let mut with_preview = envelope("text");
    with_preview.text = Some("body".to_string());
    with_preview.preview = "given".to_string();
    assert_eq!(lan_text_clip_from_envelope("x", with_preview, String::new()).unwrap().item.preview, "given");
    assert!(lan_text_clip_from_envelope("x", envelope("text"), String::new()).is_none());
    assert!(lan_text_clip_from_envelope("x", envelope("image"), String::new()).is_none());
}

#[test]
fn received_files_become_a_files_item() {
    let mut e = envelope("files");
    e.file_meta = vec![LanFileMeta { name: "a.txt".to_string(), size: 3, relative_path: "lan/a.txt".to_string() }];
    let paths = vec!["C:\\data\\lan\\a.txt".to_string()];
    let d = lan_files_clip_from_envelope("pc", e, paths.clone(), String::new()).unwrap();
    assert_eq!(d.item.kind, ClipKind::Files);
    assert_eq!(d.item.file_paths, Some(paths));
    assert_eq!(d.item.preview, "a.txt");
    assert_eq!(d.content_signature, "lan:dev:7:h1");
    assert!(lan_files_clip_from_envelope("pc", envelope("files"), Vec::new(), String::new()).is_none());
    assert!(lan_files_clip_from_envelope("pc", envelope("text"), vec!["x".to_string()], String::new()).is_none());
}

#[test]
fn the_latest_origin_falls_back_field_by_field() {
    let none = lan_latest_origin(&None, "me", 42, "crc:11111111");
    assert_eq!(
        (none.message_id.as_str(), none.origin_device_id.as_str(), none.origin_seq, none.hash.as_str()),
        ("me-db-42", "me", 42, "crc:11111111")
    );
    let partial = Some(LanOriginMetadata {
        message_id: "  m1 ".to_string(),
        origin_device_id: "   ".to_string(),
        origin_seq: 0,
        hash: "h".to_string(),
    });
    let o = lan_latest_origin(&partial, "me", -3, "sig");
    assert_eq!(
        (o.message_id.as_str(), o.origin_device_id.as_str(), o.origin_seq, o.hash.as_str()),
        ("m1", "me", 0, "h")
    );
}

#[test]
fn png_frames_become_rgba() {
    assert_eq!(png_frame_to_rgba(PNG_RGBA, &[1, 2, 3, 4]), Some(vec![1, 2, 3, 4]));
    assert_eq!(png_frame_to_rgba(PNG_RGB, &[1, 2, 3, 4, 5, 6, 7]), Some(vec![1, 2, 3, 255, 4, 5, 6, 255]));
    assert_eq!(png_frame_to_rgba(PNG_GRAYSCALE_ALPHA, &[9, 8]), Some(vec![9, 9, 9, 8]));
    assert_eq!(png_frame_to_rgba(PNG_GRAYSCALE, &[7]), Some(vec![7, 7, 7, 255]));
    assert_eq!(png_frame_to_rgba(PNG_INDEXED, &[0]), None);
}

#[test]
fn images_travel_as_png() {
    let px = vec![10u8, 20, 30, 255, 40, 50, 60, 255];
    let png = encode_rgba_png_bytes(&px, 2, 1).unwrap();
    assert_eq!(png_dimensions_from_bytes(&png), Some((2, 1)));
    assert_eq!(png_dimensions_from_bytes(&[1, 2, 3]), None);
    // the decoded pixels sign the image when the message brings no signature
    assert_eq!(lan_image_content_signature("no", &png), image_content_signature(&px, 2, 1));
    assert_eq!(lan_image_content_signature("crc:abcdef01", &png), "crc:abcdef01");
    assert_eq!(lan_image_content_signature("no", &[0, 1, 2]), "");

    let mut e = envelope("image");
    e.image_png_base64 = Some(base64::engine::general_purpose::STANDARD.encode(&png));
    let (bytes, w, h, sig) = lan_image_payload_from_envelope(&e, 1 << 20).unwrap();
    assert_eq!(bytes, png);
    assert_eq!((w, h), (2, 1));
    assert_eq!(sig, image_content_signature(&px, 2, 1));
    // too large, not base64, or no image
    assert!(lan_image_payload_from_envelope(&e, 10).is_none());
    e.image_png_base64 = Some("***".to_string());
    assert!(lan_image_payload_from_envelope(&e, 1 << 20).is_none());
    assert!(lan_image_payload_from_envelope(&envelope("text"), 1 << 20).is_none());

    let d = lan_image_clip("pc", envelope("image"), "C:\\img.png".to_string(), 2, 1, sig.clone(), "LAN image", String::new());
    assert_eq!(d.item.preview, "LAN image 2x1");
    assert_eq!(d.item.image_path.as_deref(), Some("C:\\img.png"));
    assert_eq!((d.item.image_width, d.item.image_height), (2, 1));
    assert_eq!(d.content_signature, sig);
}

#[test]
fn items_are_shared_as_envelopes() {
    let mut t = item(ClipKind::Text);
    t.text = Some("hello".to_string());
    let e = lan_envelope_from_item("me", &t, "", &None, 5, 999, None, 1 << 20).unwrap();
    assert_eq!(e.message_id, "me-5");
    assert_eq!(e.kind, "text");
    assert_eq!(e.hash, text_content_signature("hello"));
    assert_eq!(e.created_at_ms, 999);
    assert_eq!(e.text.as_deref(), Some("hello"));
    let e2 = lan_envelope_from_item("me", &t, "given", &None, 6, 0, None, 1 << 20).unwrap();
    assert_eq!(e2.hash, "given");
    let mut blank = item(ClipKind::Text);
    blank.text = Some("  ".to_string());
    assert!(lan_envelope_from_item("me", &blank, "", &None, 1, 0, None, 1 << 20).is_none());
    assert!(lan_envelope_from_item("me", &item(ClipKind::Files), "s", &None, 1, 0, None, 1 << 20).is_none());

    let mut img = item(ClipKind::Image);
    img.image_bytes = Some(vec![1, 2, 3, 255]);
    img.image_width = 1;
    img.image_height = 1;
    let png = lan_image_png_bytes(&img, None, 1 << 20).unwrap();
    assert_eq!(png_dimensions_from_bytes(&png), Some((1, 1)));
    let e = lan_envelope_from_item("me", &img, "s", &None, 2, 0, Some(png.clone()), 1 << 20).unwrap();
    assert_eq!(e.kind, "image");
    assert_eq!(e.image_png_base64, Some(base64::engine::general_purpose::STANDARD.encode(&png)));
    assert!(lan_envelope_from_item("me", &img, "s", &None, 2, 0, Some(png.clone()), 3).is_none());

    // an image file that is a readable PNG within the limit is shared as it is
    let mut stored = item(ClipKind::Image);
    stored.image_path = Some("x.png".to_string());
    assert_eq!(lan_image_png_bytes(&stored, Some(png.clone()), 1 << 20), Some(png.clone()));
    assert_eq!(lan_image_png_bytes(&stored, None, 1 << 20), None);
    assert_eq!(lan_image_png_bytes(&stored, Some(vec![0, 1]), 1 << 20), None);
}

#[test]
fn png_encoding_refuses_a_wrong_byte_count() {
    assert_eq!(encode_rgba_png_bytes(&[1, 2, 3, 4, 5], 1, 1), None);
    assert_eq!(encode_rgba_png_bytes(&[1, 2, 3, 4], 2, 1), None);
    assert_eq!(encode_rgba_png_bytes(&[], 0, 5), None);
    assert_eq!(encode_rgba_png_bytes(&[], 4_000_000_000, 4_000_000_000), None);
    assert!(encode_rgba_png_bytes(&[1, 2, 3, 4], 1, 1).is_some());
}

#[test]
fn origin_rows_count_only_when_complete() {
    let s = |v: &str| v.to_string();
    let meta = lan_origin_metadata_from_row(5, s("m-1"), s("dev"), 12, s("h")).unwrap();
    assert_eq!(meta.message_id, "m-1");
    assert_eq!(meta.origin_device_id, "dev");
    assert_eq!(meta.origin_seq, 12);
    assert_eq!(meta.hash, "h");
    assert!(lan_origin_metadata_from_row(0, s("m-1"), s("dev"), 12, s("h")).is_none());
    assert!(lan_origin_metadata_from_row(5, s("m-1"), s("dev"), -3, s("h")).is_none());
    assert!(lan_origin_metadata_from_row(5, s("m-1"), s("dev"), 0, s("h")).is_none());
    assert!(lan_origin_metadata_from_row(5, s("  "), s("dev"), 12, s("h")).is_none());
    assert!(lan_origin_metadata_from_row(5, s("m-1"), s(""), 12, s("h")).is_none());
    assert!(lan_origin_metadata_from_row(5, s("m-1"), s("dev"), 12, s(" \t")).is_none());
}
