use zsclip::capture::CapturedImagePlan;
use zsclip::intake::{
    captured_files_item, captured_image_item, captured_plain_text_item, combined_rows_text, export_file_name,
    image_paths_for_delete, join_lines, quick_search_text,
    normalized_image_payload_from_paths, orphan_image_files, stored_image_paths_for_removal,
    uninserted_item_cleanup, UninsertedCleanup,
};
use zsclip::item::{ClipItem, ClipKind};
use zsclip::lan::{lan_files_clip_from_envelope, LanClipEnvelope};
use zsclip::paths::build_files_preview;
use zsclip::signature::{file_paths_signature, text_content_signature};

fn strings(v: &[&str]) -> Vec<String> {
    v.iter().map(|s| s.to_string()).collect()
}

fn item(kind: ClipKind) -> ClipItem {
    ClipItem {
        id: 0,
        kind,
        preview: String::new(),
        text: None,
        rich_text_html: None,
        source_app: String::new(),
        file_paths: None,
        image_bytes: None,
        image_path: None,
        image_width: 0,
        image_height: 0,
        pinned: false,
        group_id: 0,
        created_at: String::new(),
    }
}

#[test]
fn join_lines_puts_one_line_feed_between_parts() {
    assert_eq!(join_lines(&strings(&["a", "b", "c"])), "a\nb\nc");
    assert_eq!(join_lines(&strings(&["only"])), "only");
    assert_eq!(join_lines(&[]), "");
}

#[test]
fn captured_files_item_lists_paths_one_per_line() {
    let paths = strings(&["C:\\docs\\a.txt", "C:\\docs\\b.png"]);
    let (item, signature) = captured_files_item(paths.clone(), "explorer.exe".to_string());
    assert_eq!(item.id, 0);
    assert_eq!(item.kind, ClipKind::Files);
    assert_eq!(item.text.as_deref(), Some("C:\\docs\\a.txt\nC:\\docs\\b.png"));
    assert_eq!(item.preview, build_files_preview(&paths));
    assert_eq!(item.file_paths, Some(paths.clone()));
    assert_eq!(item.source_app, "explorer.exe");
    assert!(item.image_bytes.is_none() && item.image_path.is_none());
    assert_eq!(signature, file_paths_signature(&paths));
    assert!(signature.starts_with("crc:"));
}

#[test]
fn captured_plain_text_item_is_previewed_and_signed() {
    let (item, signature) = captured_plain_text_item("hello world".to_string(), "notepad.exe".to_string());
    assert_eq!(item.kind, ClipKind::Text);
    assert_eq!(item.preview, "hello world");
    assert_eq!(item.text.as_deref(), Some("hello world"));
    assert!(item.rich_text_html.is_none());
    assert_eq!(signature, text_content_signature("hello world"));
}

#[test]
fn captured_image_item_holds_pixels_only_without_a_file() {
    let with_file = captured_image_item(vec![1, 2, 3, 4], 1, 1, "mspaint.exe".to_string(), Some("C:\\i.png".to_string()), "12:00".to_string());
    assert_eq!(with_file.kind, ClipKind::Image);
    assert!(with_file.image_bytes.is_none());
    assert_eq!(with_file.image_path.as_deref(), Some("C:\\i.png"));
    assert_eq!((with_file.image_width, with_file.image_height), (1, 1));
    assert_eq!(with_file.preview, "12:00");
    let without = captured_image_item(vec![1, 2, 3, 4], 1, 1, "mspaint.exe".to_string(), None, "12:00".to_string());
    assert_eq!(without.image_bytes, Some(vec![1, 2, 3, 4]));
    assert!(without.image_path.is_none());
}

#[test]
fn image_payload_comes_from_first_usable_image_file() {
    let paths = strings(&["notes.txt", "broken.png", "empty.jpg", "shot.png", "later.png"]);
    let loaded = vec![
        Some((vec![9, 9, 9, 9], 1, 1)),
        None,
        Some((vec![], 0, 0)),
        Some((vec![10, 20, 30, 0, 40, 50, 60, 0, 7], 2, 1)),
        Some((vec![1, 1, 1, 1], 1, 1)),
    ];
    match normalized_image_payload_from_paths(&paths, loaded) {
        Some(CapturedImagePlan::Ready { bytes, width, height }) => {
            assert_eq!((width, height), (2, 1));
            assert_eq!(bytes, vec![10, 20, 30, 255, 40, 50, 60, 255]);
        }
        other => panic!("unexpected {:?}", other),
    }
}

#[test]
fn image_payload_is_none_without_usable_image_file() {
    let paths = strings(&["a.txt", "b.png"]);
    let loaded = vec![Some((vec![1, 2, 3, 4], 1, 1)), Some((vec![1, 2, 3], 1, 1))];
    assert!(normalized_image_payload_from_paths(&paths, loaded).is_none());
    assert!(normalized_image_payload_from_paths(&[], Vec::new()).is_none());
}

#[test]
fn image_payload_beyond_limits_is_to_be_scaled() {
    let paths = strings(&["wide.bmp"]);
    let width = 8193;
    let loaded = vec![Some((vec![0u8; width * 4], width, 1))];
    match normalized_image_payload_from_paths(&paths, loaded) {
        Some(CapturedImagePlan::Downscale { bytes, width: w, height: h }) => {
            assert_eq!((w, h), (width, 1));
            assert_eq!(bytes.len(), width * 4);
            assert!(bytes.chunks(4).all(|p| p[3] == 255));
        }
        other => panic!("unexpected {:?}", other),
    }
}

#[test]
fn unstored_items_leave_their_files_to_remove() {
    let mut image = item(ClipKind::Image);
    assert!(matches!(uninserted_item_cleanup(&image), UninsertedCleanup::Nothing));
    image.image_path = Some("C:\\data\\images\\x.png".to_string());
    match uninserted_item_cleanup(&image) {
        UninsertedCleanup::ImageFile { path } => assert_eq!(path, "C:\\data\\images\\x.png"),
        other => panic!("unexpected {:?}", other),
    }

    let mut files = item(ClipKind::Files);
    files.file_paths = Some(strings(&["C:\\recv\\a.txt"]));
    files.source_app = "explorer.exe".to_string();
    assert!(matches!(uninserted_item_cleanup(&files), UninsertedCleanup::Nothing));
    files.source_app = "LAN: office".to_string();
    match uninserted_item_cleanup(&files) {
        UninsertedCleanup::ReceivedFiles { paths } => assert_eq!(paths, strings(&["C:\\recv\\a.txt"])),
        other => panic!("unexpected {:?}", other),
    }

    let mut text = item(ClipKind::Text);
    text.source_app = "LAN: office".to_string();
    text.image_path = Some("x.png".to_string());
    assert!(matches!(uninserted_item_cleanup(&text), UninsertedCleanup::Nothing));
}

#[test]
fn received_files_not_stored_are_removed() {
    let envelope = LanClipEnvelope {
        message_id: "dev-1".to_string(),
        origin_device_id: "dev".to_string(),
        origin_seq: 1,
        kind: "files".to_string(),
        hash: "h".to_string(),
        created_at_ms: 0,
        preview: String::new(),
        text: None,
        image_png_base64: None,
        file_meta: Vec::new(),
    };
    let paths = strings(&["C:\\recv\\one.txt", "C:\\recv\\two.txt"]);
    let clip = lan_files_clip_from_envelope("laptop", envelope, paths.clone(), String::new()).unwrap();
    match uninserted_item_cleanup(&clip.item) {
        UninsertedCleanup::ReceivedFiles { paths: removed } => assert_eq!(removed, paths),
        other => panic!("unexpected {:?}", other),
    }
}

#[test]
fn stored_image_paths_are_trimmed_and_blank_ones_dropped() {
    let paths = strings(&[" C:\\i\\a.png ", "   ", "", "\tC:\\i\\b.png"]);
    assert_eq!(stored_image_paths_for_removal(&paths), strings(&["C:\\i\\a.png", "C:\\i\\b.png"]));
    assert!(stored_image_paths_for_removal(&[]).is_empty());
}

#[test]
fn image_paths_for_delete_keep_present_nonblank_values() {
    let column = vec![Some(" a.png ".to_string()), None, Some("  ".to_string()), Some("b.png".to_string())];
    assert_eq!(image_paths_for_delete(column), strings(&[" a.png ", "b.png"]));
}

#[test]
fn orphan_images_are_files_nobody_refers_to() {
    let files = strings(&["/d/images/a.png", "/d/images/b.png", "/d/images/c.png"]);
    let referenced = strings(&["/d/images/b.png", "/d/other.png"]);
    assert_eq!(orphan_image_files(&files, &referenced), strings(&["/d/images/a.png", "/d/images/c.png"]));
    assert_eq!(orphan_image_files(&files, &files), Vec::<String>::new());
    assert_eq!(orphan_image_files(&files, &[]), files);
}

#[test]
fn rows_copied_together_give_one_line_per_part() {
    let mut text = item(ClipKind::Text);
    text.text = Some("  hi there \n".to_string());
    let mut image = item(ClipKind::Image);
    image.preview = "Image 1x1".to_string();
    let mut files = item(ClipKind::Files);
    files.file_paths = Some(strings(&[" C:\\a.txt ", "  ", "C:\\b.txt"]));
    let mut blank_phrase = item(ClipKind::Phrase);
    blank_phrase.text = Some("   ".to_string());
    let items = vec![text, image, files, blank_phrase];
    assert_eq!(combined_rows_text(&items), Some("hi there\nImage 1x1\nC:\\a.txt\nC:\\b.txt".to_string()));
}

#[test]
fn rows_copied_together_give_nothing_when_blank() {
    let mut blank = item(ClipKind::Text);
    blank.text = Some(" \t ".to_string());
    let mut no_files = item(ClipKind::Files);
    no_files.file_paths = Some(strings(&["  "]));
    assert_eq!(combined_rows_text(&[blank, no_files, item(ClipKind::Phrase)]), None);
    assert_eq!(combined_rows_text(&[]), None);
}

#[test]
fn export_file_names_carry_name_time_and_id() {
    let mut text = item(ClipKind::Text);
    text.id = 5;
    text.preview = " notes: a/b ".to_string();
    assert_eq!(export_file_name(&text, 1700), Some("notes_ a_b_1700_5.txt".to_string()));
    let mut image = item(ClipKind::Image);
    image.preview = "  ".to_string();
    assert_eq!(export_file_name(&image, 42), Some("image_42_42.png".to_string()));
    let mut phrase = item(ClipKind::Phrase);
    phrase.id = 9;
    assert_eq!(export_file_name(&phrase, 0), Some("text_0_9.txt".to_string()));
    assert_eq!(export_file_name(&item(ClipKind::Files), 1), None);
}

#[test]
fn quick_search_text_depends_on_the_kind() {
    let mut text = item(ClipKind::Text);
    text.preview = "prev".to_string();
    assert_eq!(quick_search_text(&text), "prev");
    text.text = Some("full text".to_string());
    assert_eq!(quick_search_text(&text), "full text");
    let mut files = item(ClipKind::Files);
    files.preview = "2 files".to_string();
    assert_eq!(quick_search_text(&files), "2 files");
    files.file_paths = Some(strings(&["a.txt", "b.txt"]));
    assert_eq!(quick_search_text(&files), "a.txt b.txt");
    let mut image = item(ClipKind::Image);
    image.preview = "Image 3x3".to_string();
    image.text = Some("ignored".to_string());
    assert_eq!(quick_search_text(&image), "Image 3x3");
}
