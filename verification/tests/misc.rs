use zsclip::capture::{
    clipboard_capture_allowed, parse_clipboard_helper_args, parse_u32_decimal, ClipboardHelperArgs, ClipboardSettings,
};
use zsclip::hotkey::{
    hotkey_key_label_from_vk, hotkey_mod_label, hotkey_mods_from_label, hotkey_vk_from_label, MOD_ALT, MOD_CONTROL,
    MOD_SHIFT, MOD_WIN,
};
use zsclip::item::{ClipItem, ClipKind};
use zsclip::lan::{encode_rgba_png_bytes, lan_origin_metadata_complete, LanOriginMetadata};
use zsclip::pixels::{ensure_item_image_bytes, load_image_bytes_from_contents, windows_clipboard_bitmap_rgba};
use zsclip::qr::{build_qr_clip_item, qr_raster};
use zsclip::signature::image_content_signature;

#[test]
fn qr_items_draw_the_code_with_a_quiet_zone() {
    let (item, sig) = build_qr_clip_item("  hello qr  ", "QR", "t".to_string()).unwrap();
    assert_eq!(item.kind, ClipKind::Image);
    assert_eq!(item.preview, "QR hello qr");
    // version 1 is 21 modules: (21 + 8) modules of 512 / 29 = 17 -> 16 pixels
    assert_eq!((item.image_width, item.image_height), (29 * 16, 29 * 16));
    let bytes = item.image_bytes.clone().unwrap();
    assert_eq!(bytes.len(), 29 * 16 * 29 * 16 * 4);
    // the quiet zone is white, the finder pattern's corner black
    assert_eq!(&bytes[0..4], &[255, 255, 255, 255]);
    let corner = ((4 * 16) * (29 * 16) + 4 * 16) * 4;
    assert_eq!(&bytes[corner..corner + 4], &[0, 0, 0, 255]);
    assert_eq!(sig, image_content_signature(&bytes, 29 * 16, 29 * 16));
    assert_eq!(item.created_at, "t");
    assert!(build_qr_clip_item("   ", "QR", String::new()).is_none());
    let long = "字".repeat(40);
    let (long_item, _) = build_qr_clip_item(&long, "QR", String::new()).unwrap();
    assert_eq!(long_item.preview.chars().count(), 3 + 32);
}

#[test]
fn qr_raster_of_a_plain_pattern() {
    let mut modules = vec![false; 21 * 21];
    modules[0] = true;
    let (bytes, side) = qr_raster(&modules, 21);
    assert_eq!(side, 29 * 16);
    let dark = ((4 * 16) * side + 4 * 16) * 4;
    assert_eq!(&bytes[dark..dark + 4], &[0, 0, 0, 255]);
    let light = ((4 * 16) * side + 5 * 16) * 4;
    assert_eq!(&bytes[light..light + 4], &[255, 255, 255, 255]);
}

#[test]
fn hotkey_labels() {
    assert_eq!(hotkey_mod_label(true, false, true, true), Some("Ctrl+Shift".to_string()));
    assert_eq!(hotkey_mod_label(false, false, false, true), Some("Win".to_string()));
    assert_eq!(hotkey_mod_label(true, true, true, false), Some("Ctrl+Alt+Shift".to_string()));
    assert_eq!(hotkey_mod_label(false, false, false, false), None);
    assert_eq!(hotkey_mods_from_label("Ctrl+Alt"), MOD_CONTROL | MOD_ALT);
    assert_eq!(hotkey_mods_from_label("Shift"), MOD_SHIFT);
    assert_eq!(hotkey_mods_from_label("Win"), MOD_WIN);
    assert_eq!(hotkey_vk_from_label("a"), 'A' as u32);
    assert_eq!(hotkey_vk_from_label("Z"), 'Z' as u32);
    assert_eq!(hotkey_vk_from_label("7"), '7' as u32);
    assert_eq!(hotkey_vk_from_label("Space"), 0x20);
    assert_eq!(hotkey_vk_from_label("PageDown"), 0x22);
    assert_eq!(hotkey_vk_from_label("F13"), 'V' as u32);
}

#[test]
fn decimal_numbers_parse_like_std() {
    for s in ["0", "42", "+7", "4294967295", "", "+", "-1", "4294967296", " 1", "1a", "007"] {
        assert_eq!(parse_u32_decimal(s), s.parse::<u32>().ok(), "{s}");
    }
}

fn args(v: &[&str]) -> Vec<String> {
    v.iter().map(|s| s.to_string()).collect()
}

#[test]
fn helper_command_lines() {
    assert!(matches!(parse_clipboard_helper_args(&args(&[])), ClipboardHelperArgs::NotHelper));
    assert!(matches!(parse_clipboard_helper_args(&args(&["--other"])), ClipboardHelperArgs::NotHelper));
    let flag = "--zsclip-read-clipboard-helper";
    assert!(matches!(parse_clipboard_helper_args(&args(&[flag])), ClipboardHelperArgs::Invalid));
    assert!(matches!(parse_clipboard_helper_args(&args(&[flag, "x", "1", "a", "b"])), ClipboardHelperArgs::Invalid));
    assert!(matches!(parse_clipboard_helper_args(&args(&[flag, "5", "2", "a", "b"])), ClipboardHelperArgs::Invalid));
    assert!(matches!(parse_clipboard_helper_args(&args(&[flag, "5", "1", "a"])), ClipboardHelperArgs::Invalid));
    match parse_clipboard_helper_args(&args(&[flag, "5", "1", "r.json", "p.rgba", "extra"])) {
        ClipboardHelperArgs::Run { sequence, rich_text_enabled, result_path, rgba_path } => {
            assert_eq!((sequence, rich_text_enabled), (5, true));
            assert_eq!((result_path.as_str(), rgba_path.as_str()), ("r.json", "p.rgba"));
        }
        other => panic!("expected a run, got {other:?}"),
    }
}

fn image_item() -> ClipItem {
    ClipItem {
        id: 4,
        kind: ClipKind::Image,
        preview: String::new(),
        text: None,
        rich_text_html: None,
        source_app: String::new(),
        file_paths: None,
        image_bytes: None,
        image_path: None,
        image_width: 0,
        image_height: 0,
        pinned: false,
        group_id: 0,
        created_at: String::new(),
    }
}

#[test]
fn image_pixels_are_found_in_order() {
    let mut own = image_item();
    own.image_bytes = Some(vec![1, 2, 3, 4]);
    own.image_width = 1;
    own.image_height = 1;
    assert_eq!(ensure_item_image_bytes(&own, None, None, None), Some((vec![1, 2, 3, 4], 1, 1)));
    let mut on_disk = image_item();
    on_disk.image_path = Some("a.png".to_string());
    assert_eq!(
        ensure_item_image_bytes(&on_disk, Some((vec![5; 4], 1, 1)), None, None),
        Some((vec![5; 4], 1, 1))
    );
    let mut full = image_item();
    full.image_path = Some("b.png".to_string());
    assert_eq!(
        ensure_item_image_bytes(&on_disk, None, Some(full), Some((vec![6; 4], 1, 1))),
        Some((vec![6; 4], 1, 1))
    );
    let mut unstored = image_item();
    unstored.id = 0;
    assert_eq!(ensure_item_image_bytes(&unstored, None, None, None), None);
}

#[test]
fn image_files_and_clipboard_bitmaps_decode() {
    let px = vec![1u8, 2, 3, 255, 4, 5, 6, 128];
    let png = encode_rgba_png_bytes(&px, 2, 1).unwrap();
    assert_eq!(load_image_bytes_from_contents(&png), Some((px.clone(), 2, 1)));
    assert_eq!(load_image_bytes_from_contents(&[1, 2, 3]), None);
    // a 1x1 24-bit BMP, bottom-up, blue-green-red
    let mut bmp = vec![0x42u8, 0x4d];
    bmp.extend_from_slice(&58u32.to_le_bytes());
    bmp.extend_from_slice(&[0, 0, 0, 0]);
    bmp.extend_from_slice(&54u32.to_le_bytes());
    bmp.extend_from_slice(&40u32.to_le_bytes());
    bmp.extend_from_slice(&1i32.to_le_bytes());
    bmp.extend_from_slice(&1i32.to_le_bytes());
    bmp.extend_from_slice(&1u16.to_le_bytes());
    bmp.extend_from_slice(&24u16.to_le_bytes());
    bmp.extend_from_slice(&[0u8; 24]);
    bmp.extend_from_slice(&[30, 20, 10, 0]);
    assert_eq!(windows_clipboard_bitmap_rgba(&bmp), Some((vec![10, 20, 30, 255], 1, 1)));
    let mut huge = bmp.clone();
    huge[18..22].copy_from_slice(&9000i32.to_le_bytes());
    assert_eq!(windows_clipboard_bitmap_rgba(&huge), None);
}

#[test]
fn hotkey_key_labels_of_virtual_keys() {
    assert_eq!(hotkey_key_label_from_vk(0x41), Some("A".to_string()));
    assert_eq!(hotkey_key_label_from_vk(0x56), Some("V".to_string()));
    assert_eq!(hotkey_key_label_from_vk(0x5A), Some("Z".to_string()));
    assert_eq!(hotkey_key_label_from_vk(0x30), Some("0".to_string()));
    assert_eq!(hotkey_key_label_from_vk(0x39), Some("9".to_string()));
    assert_eq!(hotkey_key_label_from_vk(0x20), Some("Space".to_string()));
    assert_eq!(hotkey_key_label_from_vk(0x1B), Some("Esc".to_string()));
    assert_eq!(hotkey_key_label_from_vk(0x22), Some("PageDown".to_string()));
    assert_eq!(hotkey_key_label_from_vk(0x70), None);
    assert_eq!(hotkey_key_label_from_vk(0x61), None);
}

#[test]
fn recorded_hotkeys_read_back_as_the_same_keys() {
    for vk in 0u32..0x100 {
        if let Some(label) = hotkey_key_label_from_vk(vk) {
            assert_eq!(hotkey_vk_from_label(&label), vk);
        }
    }
    for bits in 1u32..16 {
        let (ctrl, alt, shift, win) = (bits & 1 != 0, bits & 2 != 0, bits & 4 != 0, bits & 8 != 0);
        let label = hotkey_mod_label(ctrl, alt, shift, win).unwrap();
        let expected = if !ctrl && !alt && !shift {
            MOD_WIN
        } else {
            (if ctrl { MOD_CONTROL } else { 0 }) | (if alt { MOD_ALT } else { 0 }) | (if shift { MOD_SHIFT } else { 0 })
        };
        assert_eq!(hotkey_mods_from_label(&label), expected);
    }
}

#[test]
fn capture_follows_its_setting() {
    let mut settings = ClipboardSettings {
        clipboard_capture_enabled: true,
        rich_text_clipboard_enabled: false,
        dedupe_filter_enabled: true,
        max_items: 0,
    };
    assert!(clipboard_capture_allowed(&settings));
    settings.clipboard_capture_enabled = false;
    assert!(!clipboard_capture_allowed(&settings));
}

#[test]
fn lan_origin_metadata_is_complete_only_with_every_field() {
    let full = || LanOriginMetadata {
        message_id: "dev-1".to_string(),
        origin_device_id: "dev".to_string(),
        origin_seq: 1,
        hash: "crc:00000000".to_string(),
    };
    assert!(lan_origin_metadata_complete(&full()));
    let mut m = full();
    m.message_id = "  ".to_string();
    assert!(!lan_origin_metadata_complete(&m));
    let mut m = full();
    m.origin_device_id = String::new();
    assert!(!lan_origin_metadata_complete(&m));
    let mut m = full();
    m.origin_seq = 0;
    assert!(!lan_origin_metadata_complete(&m));
    let mut m = full();
    m.hash = "\t".to_string();
    assert!(!lan_origin_metadata_complete(&m));
}
