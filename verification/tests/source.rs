use zsclip::source::{
    browser_download_selection_should_skip, capture_file_paths_plan, capture_gives_up_without_image,
    capture_rich_text_html, capture_sequence_for_snapshot, capture_skipped_for_source,
    capture_wants_url_payloads, clipboard_file_paths_should_yield_to_image, is_self_clipboard_source_app,
    source_app_is_browser, source_app_is_clipboard_proxy, source_app_is_windows_screenshot_tool,
    source_app_uses_fragile_delayed_clipboard_rendering,
};

#[test]
fn browsers_proxies_and_tools_are_recognised_by_name() {
    assert!(source_app_is_browser("  Chrome.exe "));
    assert!(source_app_is_browser("MSEDGE.EXE"));
    assert!(source_app_is_browser("360chrome.exe"));
    assert!(!source_app_is_browser("notepad.exe"));
    assert!(source_app_is_clipboard_proxy("Doubao.exe"));
    assert!(source_app_is_clipboard_proxy("豆包.exe"));
    assert!(!source_app_is_clipboard_proxy("word.exe"));
    assert!(source_app_uses_fragile_delayed_clipboard_rendering("CATIA.exe"));
    assert!(source_app_uses_fragile_delayed_clipboard_rendering("3DEXPERIENCE launcher"));
    assert!(!source_app_uses_fragile_delayed_clipboard_rendering("excel.exe"));
    assert!(source_app_is_windows_screenshot_tool("SnippingTool.exe"));
    assert!(source_app_is_windows_screenshot_tool("ScreenClippingHost.exe"));
    assert!(!source_app_is_windows_screenshot_tool("paint.exe"));
}

#[test]
fn the_program_itself_is_recognised() {
    assert!(is_self_clipboard_source_app(" ZsClip.exe ", None));
    assert!(is_self_clipboard_source_app("剪贴板.exe", None));
    assert!(is_self_clipboard_source_app("Portable.EXE", Some("portable.exe")));
    assert!(!is_self_clipboard_source_app("other.exe", Some("portable.exe")));
    assert!(!is_self_clipboard_source_app("  ", Some("")));
}

fn urls(v: &[&str]) -> Vec<String> {
    v.iter().map(|s| s.to_string()).collect()
}

#[test]
fn download_selections_in_browsers_are_skipped() {
    let text = "https://example.com/file.zip\nreport.pdf";
    assert!(browser_download_selection_should_skip("chrome.exe", "", text, &[]));
    // not a browser
    assert!(!browser_download_selection_should_skip("notepad.exe", "explorer.exe", text, &[]));
    // the browser in front counts too
    assert!(browser_download_selection_should_skip("other.exe", "firefox.exe", text, &[]));
    // a single non-URL line needs a URL payload
    assert!(!browser_download_selection_should_skip("chrome.exe", "", "report.pdf", &[]));
    assert!(browser_download_selection_should_skip(
        "chrome.exe",
        "",
        "report.pdf",
        &urls(&["  https://example.com/report.pdf  "])
    ));
    // only URLs are kept
    assert!(!browser_download_selection_should_skip("chrome.exe", "", "https://a.b\nhttp://c.d", &[]));
    // a line with a slash is no file name
    assert!(!browser_download_selection_should_skip("chrome.exe", "", "https://a.b\nsome/path", &[]));
    // blank or too long texts are kept
    assert!(!browser_download_selection_should_skip("chrome.exe", "", "   ", &urls(&["https://x"])));
    let long = "x".repeat(4097);
    assert!(!browser_download_selection_should_skip("chrome.exe", "", &long, &urls(&["https://x"])));
}

#[test]
fn file_paths_yield_to_images_when_they_stand_for_one() {
    let pngs = urls(&["C:\\a.png", "C:\\b.jpg"]);
    let mixed = urls(&["C:\\a.png", "C:\\b.txt"]);
    assert!(clipboard_file_paths_should_yield_to_image(&pngs, true, false));
    assert!(!clipboard_file_paths_should_yield_to_image(&mixed, true, false));
    assert!(clipboard_file_paths_should_yield_to_image(&mixed, true, true));
    assert!(clipboard_file_paths_should_yield_to_image(&pngs, false, true));
    assert!(!clipboard_file_paths_should_yield_to_image(&pngs, false, false));
    assert!(!clipboard_file_paths_should_yield_to_image(&[], true, true));
}

#[test]
fn capture_decisions() {
    assert_eq!(capture_sequence_for_snapshot(5, 5), Some(5));
    assert_eq!(capture_sequence_for_snapshot(5, 6), None);
    assert_eq!(capture_sequence_for_snapshot(0, 6), Some(6));
    assert_eq!(capture_sequence_for_snapshot(5, 0), Some(5));

    assert!(capture_skipped_for_source("catia.exe", "", false, false, false, None));
    assert!(capture_skipped_for_source("a.exe", "", true, false, false, None));
    assert!(capture_skipped_for_source("zsclip.exe", "", false, false, false, None));
    assert!(!capture_skipped_for_source("a.exe", "b.exe", false, false, false, None));

    let shot = urls(&["C:\\pics\\a.png"]);
    assert_eq!(capture_file_paths_plan(&shot, "SnippingTool.exe", false, false), (true, true));
    assert_eq!(capture_file_paths_plan(&shot, "explorer.exe", false, false), (false, false));
    assert_eq!(capture_file_paths_plan(&shot, "explorer.exe", false, true), (false, true));

    assert!(capture_gives_up_without_image(true, "x.exe", false));
    assert!(!capture_gives_up_without_image(true, "x.exe", true));
    assert!(capture_gives_up_without_image(false, "snippingtool.exe", false));
    assert!(!capture_gives_up_without_image(false, "x.exe", false));

    assert!(capture_wants_url_payloads("x.exe", "brave.exe"));
    assert!(!capture_wants_url_payloads("x.exe", "y.exe"));

    assert_eq!(capture_rich_text_html(true, Some("<b>x</b>".to_string())), Some("<b>x</b>".to_string()));
    assert_eq!(capture_rich_text_html(true, Some("  ".to_string())), None);
    assert_eq!(capture_rich_text_html(false, Some("<b>x</b>".to_string())), None);
}

use zsclip::hosts::{set_window_host, WindowHosts, WindowRole};
use zsclip::source::{clipboard_source_app_name, foreground_source_app_name};

#[test]
fn the_copying_application_is_the_owner_or_the_one_in_front() {
    let mut hosts = WindowHosts::default();
    set_window_host(&mut hosts, WindowRole::Main, 5);
    let h = Some(&hosts);
    assert_eq!(clipboard_source_app_name(h, 9, "word.exe".to_string(), 8, "edge.exe".to_string()), "word.exe");
    assert_eq!(clipboard_source_app_name(h, 9, String::new(), 8, "edge.exe".to_string()), "edge.exe");
    assert_eq!(clipboard_source_app_name(h, 5, "zsclip.exe".to_string(), 8, "edge.exe".to_string()), "edge.exe");
    assert_eq!(clipboard_source_app_name(h, 0, "x".to_string(), 5, "zsclip.exe".to_string()), "");
    assert_eq!(foreground_source_app_name(h, 0, "x".to_string()), "");
    assert_eq!(foreground_source_app_name(None, 5, "x.exe".to_string()), "x.exe");
}
