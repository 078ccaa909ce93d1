use zsclip::text::{
    ai_clean_text, build_preview, maybe_ai_clean_text, normalize_captured_text,
    normalize_plain_text_for_paste, quick_search_url, sanitize_export_name, text_edit_preview,
    text_line_is_url, url_encode_component,
};

#[test]
fn captured_text_is_trimmed_and_line_ends_unified() {
    assert_eq!(normalize_captured_text("  a  \r\nb\t\r\n\r\n"), "a\nb");
    assert_eq!(normalize_captured_text("x\ry"), "x\ny");
    assert_eq!(normalize_captured_text(""), "");
    assert_eq!(normalize_captured_text("   \n  "), "");
}

#[test]
fn captured_text_loses_zero_width_characters() {
    assert_eq!(normalize_captured_text("a\u{200B}b\u{FEFF}c\u{200C}\u{200D}"), "abc");
}

#[test]
fn captured_single_line_url_keeps_its_first_word() {
    assert_eq!(normalize_captured_text("https://example.com/x  see this"), "https://example.com/x");
    assert_eq!(normalize_captured_text("www.example.com trailing"), "www.example.com");
    assert_eq!(normalize_captured_text("plain words stay"), "plain words stay");
    // a multi-line text keeps its URL lines whole
    assert_eq!(normalize_captured_text("https://a.b c\nnext"), "https://a.b c\nnext");
}

#[test]
fn paste_text_unifies_line_ends() {
    assert_eq!(normalize_plain_text_for_paste("a\r\nb\rc\n"), "a\nb\nc\n");
}

#[test]
fn preview_is_one_trimmed_line_of_at_most_72_characters() {
    assert_eq!(build_preview("  hello\r\nworld  "), "hello  world");
    let long: String = std::iter::repeat('x').take(80).collect();
    let expected = format!("{} ...", "x".repeat(72));
    assert_eq!(build_preview(&long), expected);
    let exact: String = "y".repeat(72);
    assert_eq!(build_preview(&exact), exact);
}

#[test]
fn edit_preview_keeps_120_characters() {
    let s = "é".repeat(130);
    assert_eq!(text_edit_preview(&s).chars().count(), 120);
    assert_eq!(text_edit_preview("short"), "short");
}

#[test]
fn ai_clean_collapses_blank_runs_and_trims() {
    assert_eq!(ai_clean_text("a  \r\n\r\n\r\n\r\n\r\nb \n"), "a\n\n\nb");
    assert_eq!(ai_clean_text("\n\n x\n"), "x");
    assert_eq!(ai_clean_text(""), "");
}

#[test]
fn ai_clean_applies_only_to_long_texts_when_enabled() {
    let many_lines = "l\n".repeat(8);
    assert_eq!(maybe_ai_clean_text(true, false, &many_lines), ai_clean_text(&many_lines));
    assert_eq!(maybe_ai_clean_text(false, false, &many_lines), many_lines);
    assert_eq!(maybe_ai_clean_text(true, true, &many_lines), many_lines);
    assert_eq!(maybe_ai_clean_text(true, false, "a  \n\n\n\nb"), "a  \n\n\n\nb");
    assert_eq!(maybe_ai_clean_text(true, false, "```\ncode  \n```"), "```\ncode\n```");
    let long = "z".repeat(600);
    assert_eq!(maybe_ai_clean_text(true, false, &format!("  {long}  ")), long);
}

#[test]
fn url_lines_are_recognised_after_trimming() {
    assert!(text_line_is_url("  https://a.b  "));
    assert!(text_line_is_url("ftp://x"));
    assert!(text_line_is_url("file://c/d"));
    assert!(!text_line_is_url("www.example.com"));
    assert!(!text_line_is_url("see http://a"));
}

#[test]
fn url_encoding_keeps_unreserved_bytes() {
    assert_eq!(url_encode_component("a b-c_d.e~f"), "a+b-c_d.e~f");
    assert_eq!(url_encode_component("/?&"), "%2F%3F%26");
    assert_eq!(url_encode_component("é"), "%C3%A9");
}

#[test]
fn quick_search_fills_the_template() {
    assert_eq!(
        quick_search_url("https://s.example/?q={q}&k={key}&r={raw}", "  a b\nc  "),
        Some("https://s.example/?q=a+b+c&k=a+b+c&r=a b c".to_string())
    );
    assert_eq!(quick_search_url("x{q}", "   "), None);
    let long = "w".repeat(250);
    assert_eq!(quick_search_url("{raw}", &long), Some("w".repeat(200)));
}

#[test]
fn export_names_lose_reserved_characters() {
    assert_eq!(sanitize_export_name(" a/b:c*? ", "item"), "a_b_c__");
    assert_eq!(sanitize_export_name("   ", "item"), "item");
    let long = "n".repeat(50);
    assert_eq!(sanitize_export_name(&long, "x"), "n".repeat(40));
}

#[test]
fn normalized_text_is_a_fixed_point() {
    for raw in [
        "  hello  world  ",
        "a \r\n b\u{200B}  \r\n\r\n  c\t",
        "https://example.com/x  and more",
        "  www.site.org\u{FEFF} tail\r",
        "line one  \n  https://x.y z\n",
        "\u{200B}\u{200C}\u{200D}",
        "",
        " \n\t \r ",
        "http://",
    ] {
        let once = normalize_captured_text(raw);
        assert_eq!(normalize_captured_text(&once), once, "{raw:?}");
        assert!(!once.contains('\r'));
        assert_eq!(once.trim(), once);
        assert!(!once.chars().any(|c| matches!(c, '\u{200B}' | '\u{200C}' | '\u{200D}' | '\u{FEFF}')));
        assert!(once.lines().all(|l| l.trim_end() == l));
    }
}
