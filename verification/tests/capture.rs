use zsclip::capture::{
    begin_clipboard_sequence_capture, bitmap_dimension_pair, clipboard_bitmap_dimensions,
    clipboard_helper_result_from_wire, clipboard_helper_result_len_acceptable,
    clipboard_helper_result_size_check, clipboard_helper_side_file_len,
    clipboard_helper_wire_from_result, empty_clipboard_capture_result, normalize_captured_image_rgba,
    normalize_clipboard_rgba_alpha, resample_rgba_nearest, rgba_byte_count, CapturedImagePlan,
    ClipboardCaptureReadPayload, ClipboardCaptureReadResult, ClipboardCaptureWirePayload,
    ClipboardCaptureWireResult, MAX_CLIPBOARD_HELPER_RESULT_BYTES,
};

fn round_trip(result: ClipboardCaptureReadResult) -> ClipboardCaptureReadResult {
    let (wire, side) = clipboard_helper_wire_from_result(result).unwrap();
    clipboard_helper_result_from_wire(wire, side).unwrap()
}

#[test]
fn clipboard_helper_wire_round_trips_text() {
    let result = ClipboardCaptureReadResult {
        sequence: 42,
        source_app: "source.exe".to_string(),
        payload: ClipboardCaptureReadPayload::Text {
            normalized: "clipboard text".to_string(),
            rich_text_html: Some("<b>clipboard text</b>".to_string()),
        },
    };

    let decoded = round_trip(result);

    assert_eq!(decoded.sequence, 42);
    assert_eq!(decoded.source_app, "source.exe");
    match decoded.payload {
        ClipboardCaptureReadPayload::Text { normalized, rich_text_html } => {
            assert_eq!(normalized, "clipboard text");
            assert_eq!(rich_text_html.as_deref(), Some("<b>clipboard text</b>"));
        }
        _ => panic!("expected text clipboard payload"),
    }
}

#[test]
fn clipboard_helper_wire_round_trips_image_sidecar() {
    let image_bytes = vec![1, 2, 3, 4, 5, 6, 7, 8];
    let result = ClipboardCaptureReadResult {
        sequence: 43,
        source_app: "source.exe".to_string(),
        payload: ClipboardCaptureReadPayload::Image { bytes: image_bytes.clone(), width: 2, height: 1 },
    };

    let decoded = round_trip(result);

    match decoded.payload {
        ClipboardCaptureReadPayload::Image { bytes, width, height } => {
            assert_eq!(bytes, image_bytes);
            assert_eq!((width, height), (2, 1));
        }
        _ => panic!("expected image clipboard payload"),
    }
}

#[test]
fn helper_report_keeps_image_pixels_apart() {
    let result = ClipboardCaptureReadResult {
        sequence: 7,
        source_app: "x.exe".to_string(),
        payload: ClipboardCaptureReadPayload::Image { bytes: vec![9; 8], width: 2, height: 1 },
    };
    let (wire, side) = clipboard_helper_wire_from_result(result).unwrap();
    assert_eq!(side, Some(vec![9; 8]));
    assert!(matches!(wire.payload, ClipboardCaptureWirePayload::Image { width: 2, height: 1 }));
    assert_eq!(clipboard_helper_side_file_len(&wire), Some(8));
}

#[test]
fn helper_report_rejects_mismatched_image() {
    let result = ClipboardCaptureReadResult {
        sequence: 7,
        source_app: String::new(),
        payload: ClipboardCaptureReadPayload::Image { bytes: vec![0; 7], width: 2, height: 1 },
    };
    match clipboard_helper_wire_from_result(result) {
        Err(e) => assert_eq!(e, "clipboard image payload length mismatch"),
        Ok(_) => panic!("a short image must be refused"),
    }
}

#[test]
fn helper_report_rejects_overflowing_image() {
    let result = ClipboardCaptureReadResult {
        sequence: 7,
        source_app: String::new(),
        payload: ClipboardCaptureReadPayload::Image { bytes: vec![], width: usize::MAX, height: 2 },
    };
    match clipboard_helper_wire_from_result(result) {
        Err(e) => assert_eq!(e, "clipboard image dimensions overflow"),
        Ok(_) => panic!("an overflowing image must be refused"),
    }
}

#[test]
fn helper_read_back_needs_the_side_file() {
    let wire = ClipboardCaptureWireResult {
        sequence: 1,
        source_app: String::new(),
        payload: ClipboardCaptureWirePayload::Image { width: 2, height: 1 },
    };
    assert!(clipboard_helper_result_from_wire(wire, None).is_none());
    let wire = ClipboardCaptureWireResult {
        sequence: 1,
        source_app: String::new(),
        payload: ClipboardCaptureWirePayload::Image { width: 2, height: 1 },
    };
    assert!(clipboard_helper_result_from_wire(wire, Some(vec![0; 9])).is_none());
}

#[test]
fn helper_round_trips_files_and_nothing() {
    let files = ClipboardCaptureReadResult {
        sequence: 3,
        source_app: "explorer.exe".to_string(),
        payload: ClipboardCaptureReadPayload::Files { paths: vec!["C:\\a.txt".to_string()] },
    };
    match round_trip(files).payload {
        ClipboardCaptureReadPayload::Files { paths } => assert_eq!(paths, vec!["C:\\a.txt".to_string()]),
        _ => panic!("expected files"),
    }
    let empty = empty_clipboard_capture_result(5, "a.exe".to_string());
    let back = round_trip(empty);
    assert_eq!(back.sequence, 5);
    assert!(matches!(back.payload, ClipboardCaptureReadPayload::Nothing));
}

#[test]
fn helper_result_size_limits() {
    assert!(!clipboard_helper_result_len_acceptable(0));
    assert!(clipboard_helper_result_len_acceptable(1));
    assert!(clipboard_helper_result_len_acceptable(MAX_CLIPBOARD_HELPER_RESULT_BYTES));
    assert!(!clipboard_helper_result_len_acceptable(MAX_CLIPBOARD_HELPER_RESULT_BYTES + 1));
    assert!(clipboard_helper_result_size_check(MAX_CLIPBOARD_HELPER_RESULT_BYTES).is_ok());
    assert_eq!(
        clipboard_helper_result_size_check(MAX_CLIPBOARD_HELPER_RESULT_BYTES + 1),
        Err("clipboard helper result is too large".to_string())
    );
    assert_eq!(rgba_byte_count(3, 5), Some(60));
    assert_eq!(rgba_byte_count(usize::MAX, 2), None);
}

#[test]
fn sequence_capture_takes_each_sequence_once() {
    let mut last = 0u32;
    assert!(begin_clipboard_sequence_capture(&mut last, 10));
    assert_eq!(last, 10);
    assert!(!begin_clipboard_sequence_capture(&mut last, 10));
    assert!(begin_clipboard_sequence_capture(&mut last, 0));
    assert_eq!(last, 10);
    assert!(begin_clipboard_sequence_capture(&mut last, 11));
    assert_eq!(last, 11);
}

#[test]
fn bitmap_dimensions_take_absolute_values() {
    assert_eq!(bitmap_dimension_pair(4, -3), Some((4, 3)));
    assert_eq!(bitmap_dimension_pair(0, 3), None);
    let mut header = vec![0u8; 40];
    header[0..4].copy_from_slice(&40u32.to_le_bytes());
    header[4..8].copy_from_slice(&5i32.to_le_bytes());
    header[8..12].copy_from_slice(&(-7i32).to_le_bytes());
    assert_eq!(clipboard_bitmap_dimensions(&header), Some((5, 7)));
    assert_eq!(clipboard_bitmap_dimensions(&header[..10]), None);
}

#[test]
fn fully_transparent_pixels_become_opaque() {
    let mut px = vec![1, 2, 3, 0, 4, 5, 6, 0];
    normalize_clipboard_rgba_alpha(&mut px);
    assert_eq!(px, vec![1, 2, 3, 255, 4, 5, 6, 255]);
    let mut mixed = vec![1, 2, 3, 0, 4, 5, 6, 9];
    normalize_clipboard_rgba_alpha(&mut mixed);
    assert_eq!(mixed, vec![1, 2, 3, 0, 4, 5, 6, 9]);
}

#[test]
fn captured_images_are_checked_for_size() {
    assert!(matches!(normalize_captured_image_rgba(vec![0; 8], 2, 1), CapturedImagePlan::Ready { .. }));
    assert!(matches!(normalize_captured_image_rgba(vec![0; 7], 2, 1), CapturedImagePlan::Rejected));
    assert!(matches!(normalize_captured_image_rgba(vec![], 0, 0), CapturedImagePlan::Rejected));
}

#[test]
fn nearest_resample_halves_an_image() {
    // 2x2 image, each pixel's first channel is its index
    let src = vec![0, 0, 0, 255, 1, 0, 0, 255, 2, 0, 0, 255, 3, 0, 0, 255];
    let out = resample_rgba_nearest(&src, 2, 2, 1, 1);
    assert_eq!(out, vec![0, 0, 0, 255]);
    let up = resample_rgba_nearest(&src, 2, 2, 4, 2);
    assert_eq!(up.len(), 4 * 2 * 4);
    assert_eq!(up[4 * 4], 2);
    assert_eq!(up[7 * 4], 3);
}
