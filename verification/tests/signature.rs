use zsclip::item::{ClipItem, ClipKind};
use zsclip::signature::{
    crc32_signature, dedupe_signature_for_item, dedupe_signature_needs_image_load,
    file_paths_signature, image_content_signature, normalized_file_paths_for_signature,
    text_content_signature,
};

fn framed_crc(parts: &[&[u8]]) -> String {
    let mut hasher = crc32fast::Hasher::new();
    for part in parts {
        hasher.update(&(part.len() as u64).to_le_bytes());
        hasher.update(part);
    }
    format!("crc:{:08x}", hasher.finalize())
}

fn item(kind: ClipKind) -> ClipItem {
    ClipItem {
        id: 0,
        kind,
        preview: String::new(),
        text: None,
        rich_text_html: None,
        source_app: String::new(),
        file_paths: None,
        image_bytes: None,
        image_path: None,
        image_width: 0,
        image_height: 0,
        pinned: false,
        group_id: 0,
        created_at: String::new(),
    }
}

#[test]
fn crc_signature_frames_each_part_with_its_length() {
    let parts: [&[u8]; 2] = [b"ab", b"c"];
    assert_eq!(crc32_signature(&parts), framed_crc(&parts));
    // the framing tells "ab"+"c" from "a"+"bc"
    let other: [&[u8]; 2] = [b"a", b"bc"];
    assert_ne!(crc32_signature(&parts), crc32_signature(&other));
    let sig = crc32_signature(&parts);
    assert_eq!(sig.len(), 12);
    assert!(sig.starts_with("crc:"));
}

#[test]
fn text_signature_covers_the_normalized_text() {
    assert_eq!(text_content_signature(" hi \r\n"), framed_crc(&[b"text", b"hi"]));
    assert_eq!(text_content_signature("hi"), text_content_signature("  hi\n"));
    assert_eq!(text_content_signature("   "), "");
}

#[test]
fn image_signature_covers_size_and_pixels() {
    let px = [1u8, 2, 3, 4];
    assert_eq!(
        image_content_signature(&px, 1, 1),
        framed_crc(&[b"image", &1u64.to_le_bytes(), &1u64.to_le_bytes(), &px])
    );
    assert_eq!(image_content_signature(&[], 1, 1), "");
    assert_eq!(image_content_signature(&px, 0, 1), "");
}

#[test]
fn file_paths_are_normalized_sorted_and_deduplicated() {
    let paths = vec![
        " C:/Data/B.txt ".to_string(),
        "c:\\data\\a.txt".to_string(),
        "C:\\DATA\\B.TXT".to_string(),
        "".to_string(),
        "D:\\dir\\\\".to_string(),
        "C:\\".to_string(),
    ];
    assert_eq!(
        normalized_file_paths_for_signature(&paths),
        vec![
            "c:\\".to_string(),
            "c:\\data\\a.txt".to_string(),
            "c:\\data\\b.txt".to_string(),
            "d:\\dir".to_string(),
        ]
    );
}

#[test]
fn files_signature_ignores_order_and_case() {
    let a = vec!["C:\\x\\One.txt".to_string(), "C:\\x\\two.txt".to_string()];
    let b = vec!["c:/x/two.txt".to_string(), "c:\\X\\ONE.TXT".to_string()];
    assert_eq!(file_paths_signature(&a), file_paths_signature(&b));
    assert_eq!(
        file_paths_signature(&a),
        framed_crc(&[b"files", b"c:\\x\\one.txt\nc:\\x\\two.txt"])
    );
    assert_eq!(file_paths_signature(&["  ".to_string()]), "");
}

#[test]
fn lowercase_follows_unicode() {
    let a = vec!["C:\\ÄÖÜ".to_string()];
    assert_eq!(normalized_file_paths_for_signature(&a), vec!["c:\\äöü".to_string()]);
}

#[test]
fn dedupe_signature_by_kind() {
    let mut t = item(ClipKind::Text);
    t.text = Some("hello".to_string());
    assert_eq!(dedupe_signature_for_item(&t, "fallback", &None), text_content_signature("hello"));

    let mut empty = item(ClipKind::Text);
    empty.text = Some("   ".to_string());
    assert_eq!(dedupe_signature_for_item(&empty, "  keep  ", &None), "keep");

    let mut img = item(ClipKind::Image);
    img.image_bytes = Some(vec![1, 2, 3, 4]);
    img.image_width = 1;
    img.image_height = 1;
    assert_eq!(dedupe_signature_for_item(&img, "", &None), image_content_signature(&[1, 2, 3, 4], 1, 1));

    let mut stored = item(ClipKind::Image);
    stored.image_path = Some("p.png".to_string());
    assert!(dedupe_signature_needs_image_load(&stored));
    assert_eq!(
        dedupe_signature_for_item(&stored, "", &Some((vec![5, 6, 7, 8], 1, 1))),
        image_content_signature(&[5, 6, 7, 8], 1, 1)
    );
    assert_eq!(dedupe_signature_for_item(&stored, " old ", &None), "old");
}

#[test]
fn lan_files_keep_the_senders_signature() {
    let mut f = item(ClipKind::Files);
    f.file_paths = Some(vec!["C:\\a.txt".to_string()]);
    f.source_app = "LAN: laptop".to_string();
    assert_eq!(dedupe_signature_for_item(&f, " crc:0123abcd ", &None), "crc:0123abcd");
    f.source_app = "explorer.exe".to_string();
    assert_eq!(
        dedupe_signature_for_item(&f, "crc:0123abcd", &None),
        file_paths_signature(&["C:\\a.txt".to_string()])
    );
}
