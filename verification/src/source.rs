//! Rules on the application that put something on the clipboard: which
//! applications are browsers, proxies, screenshot tools or this program
//! itself, and when a copy is not worth keeping.

use vstd::prelude::*;
use vstd::utf8::encode_utf8;
use crate::chars::{
    ascii_lower_seq, chars_eq, chars_of, contains_char, contains_seq, contains_str, is_blank, lines,
    lines_chars, trim, trim_chars, trimmed_lower, utf8_longer_than,
};
use crate::paths::{all_image_paths, all_paths_have_image_extension, views};
use crate::text::{is_url_line, line_chars_is_url};

verus! {

broadcast use vstd::string::group_string_axioms;

/// An application name as it is compared: trimmed and in ASCII lowercase.
pub open spec fn app_key(s: Seq<char>) -> Seq<char> {
    ascii_lower_seq(trim(s))
}

/// Whether an application is a web browser: its name holds the name of
/// one of the known browsers.
pub open spec fn is_browser_app(s: Seq<char>) -> bool {
    let k = app_key(s);
    ||| contains_seq(k, "chrome"@)
    ||| contains_seq(k, "msedge"@)
    ||| contains_seq(k, "firefox"@)
    ||| contains_seq(k, "brave"@)
    ||| contains_seq(k, "vivaldi"@)
    ||| contains_seq(k, "opera"@)
    ||| contains_seq(k, "iexplore"@)
    ||| contains_seq(k, "qqbrowser"@)
    ||| contains_seq(k, "catsxp"@)
    ||| contains_seq(k, "360se"@)
    ||| contains_seq(k, "360chrome"@)
}

/// Whether an application is a web browser (see `is_browser_app`).
pub fn source_app_is_browser(source_app: &str) -> (r: bool)
    ensures
        r == is_browser_app(source_app@),
{
    let k = trimmed_lower(source_app);
    contains_str(&k, "chrome") || contains_str(&k, "msedge") || contains_str(&k, "firefox")
        || contains_str(&k, "brave") || contains_str(&k, "vivaldi") || contains_str(&k, "opera")
        || contains_str(&k, "iexplore") || contains_str(&k, "qqbrowser") || contains_str(
        &k,
        "catsxp",
    ) || contains_str(&k, "360se") || contains_str(&k, "360chrome")
}

/// Whether an application relays the clipboard of a browser: its name
/// holds `doubao` or `豆包`.
pub open spec fn is_clipboard_proxy(s: Seq<char>) -> bool {
    contains_seq(app_key(s), "doubao"@) || contains_seq(app_key(s), "豆包"@)
}

/// Whether an application relays the clipboard of a browser (see
/// `is_clipboard_proxy`).
pub fn source_app_is_clipboard_proxy(source_app: &str) -> (r: bool)
    ensures
        r == is_clipboard_proxy(source_app@),
{
    let k = trimmed_lower(source_app);
    contains_str(&k, "doubao") || contains_str(&k, "豆包")
}

/// Whether an application renders the clipboard late and breaks when it
/// is read early: its name holds that of one of the CAD suites known to.
pub open spec fn uses_fragile_delayed_rendering(s: Seq<char>) -> bool {
    let k = app_key(s);
    ||| contains_seq(k, "cnext"@)
    ||| contains_seq(k, "catia"@)
    ||| contains_seq(k, "3dexperience"@)
    ||| contains_seq(k, "3dexperience launcher"@)
    ||| contains_seq(k, "3dswym"@)
    ||| contains_seq(k, "enovia"@)
    ||| contains_seq(k, "delmia"@)
    ||| contains_seq(k, "simulia"@)
    ||| contains_seq(k, "netvibes"@)
}

/// Whether an application renders the clipboard late and fragilely (see
/// `uses_fragile_delayed_rendering`).
pub fn source_app_uses_fragile_delayed_clipboard_rendering(source_app: &str) -> (r: bool)
    ensures
        r == uses_fragile_delayed_rendering(source_app@),
{
    let k = trimmed_lower(source_app);
    contains_str(&k, "cnext") || contains_str(&k, "catia") || contains_str(&k, "3dexperience")
        || contains_str(&k, "3dexperience launcher") || contains_str(&k, "3dswym") || contains_str(
        &k,
        "enovia",
    ) || contains_str(&k, "delmia") || contains_str(&k, "simulia") || contains_str(&k, "netvibes")
}

/// Whether an application is the screenshot tool of Windows.
pub open spec fn is_windows_screenshot_tool(s: Seq<char>) -> bool {
    let k = app_key(s);
    ||| contains_seq(k, "snippingtool"@)
    ||| contains_seq(k, "screenclippinghost"@)
    ||| contains_seq(k, "snipandsketch"@)
    ||| contains_seq(k, "screenclip"@)
}

/// Whether an application is the screenshot tool of Windows (see
/// `is_windows_screenshot_tool`).
pub fn source_app_is_windows_screenshot_tool(source_app: &str) -> (r: bool)
    ensures
        r == is_windows_screenshot_tool(source_app@),
{
    let k = trimmed_lower(source_app);
    contains_str(&k, "snippingtool") || contains_str(&k, "screenclippinghost") || contains_str(
        &k,
        "snipandsketch",
    ) || contains_str(&k, "screenclip")
}

/// Whether a copy comes from this program itself: the application's name
/// is the program's (`zsclip.exe`, `剪贴板.exe`) or that of the running
/// executable, when known.
pub open spec fn is_self_app(s: Seq<char>, exe_name: Option<Seq<char>>) -> bool {
    let k = app_key(s);
    &&& k.len() > 0
    &&& (k == "zsclip.exe"@ || k == "剪贴板.exe"@ || (exe_name matches Some(e) && app_key(e) == k))
}

/// Whether a copy comes from this program (see `is_self_app`);
/// `exe_name` is the file name of the running executable, when it can be
/// read.
pub fn is_self_clipboard_source_app(source_app: &str, exe_name: Option<&str>) -> (r: bool)
    ensures
        r == is_self_app(
            source_app@,
            match exe_name {
                Some(e) => Some(e@),
                None => None,
            },
        ),
{
    let k = trimmed_lower(source_app);
    if k.len() == 0 {
        return false;
    }
    let own = chars_of("zsclip.exe");
    let own_cn = chars_of("剪贴板.exe");
    if chars_eq(&k, &own) || chars_eq(&k, &own_cn) {
        return true;
    }
    match exe_name {
        Some(e) => {
            let ek = trimmed_lower(e);
            chars_eq(&ek, &k)
        },
        None => false,
    }
}

// ───────────────────────── browser download selections ─────────────────────────

/// Whether a line holds more than blanks.
pub open spec fn nonblank(l: Seq<char>) -> bool {
    trim(l).len() > 0
}

/// Whether a line looks like a file name: no URL, at most 260 UTF-8 bytes
/// once trimmed, and neither `\` nor `/`.
pub open spec fn plain_name_line(l: Seq<char>) -> bool {
    let t = trim(l);
    !is_url_line(t) && encode_utf8(t).len() <= 260 && !t.contains('\\') && !t.contains('/')
}

/// Whether one of the URL payloads of the clipboard holds a URL line.
pub open spec fn url_payload_present(urls: Seq<Seq<char>>) -> bool {
    exists|u: int, k: int|
        0 <= u < urls.len() && 0 <= k < lines(urls[u]).len() && #[trigger] is_url_line(
            lines(urls[u])[k],
        )
}

/// Whether a text copied in a browser (or through a proxy of one) is the
/// selection a download leaves behind and not worth keeping: the trimmed
/// text is not empty, at most 4096 UTF-8 bytes, and has a non-blank line
/// that is no URL; and either the clipboard carries a URL payload with a
/// URL line, or the text has two or more non-blank lines, one a URL and
/// one a plain file name (see `plain_name_line`).
pub open spec fn download_selection_skipped(
    source: Seq<char>,
    foreground: Seq<char>,
    text: Seq<char>,
    urls: Seq<Seq<char>>,
) -> bool {
    let t = trim(text);
    let ls = lines(t);
    &&& is_browser_app(source) || is_browser_app(foreground) || is_clipboard_proxy(source)
    &&& t.len() > 0
    &&& encode_utf8(t).len() <= 4096
    &&& exists|i: int| 0 <= i < ls.len() && nonblank(ls[i]) && !is_url_line(#[trigger] ls[i])
    &&& url_payload_present(urls) || ((exists|a: int, b: int|
        0 <= a < b < ls.len() && nonblank(#[trigger] ls[a]) && nonblank(#[trigger] ls[b])) && (
    exists|i: int| 0 <= i < ls.len() && nonblank(ls[i]) && is_url_line(#[trigger] ls[i])) && (
    exists|i: int| 0 <= i < ls.len() && nonblank(ls[i]) && plain_name_line(#[trigger] ls[i])))
}

/// Whether some line of a payload is a URL.
fn payload_has_url_line(payload: &String) -> (r: bool)
    ensures
        r == exists|k: int|
            0 <= k < lines(payload@).len() && #[trigger] is_url_line(lines(payload@)[k]),
{
    let v = chars_of(payload.as_str());
    let ls = lines_chars(&v);
    let n = ls.len();
    for k in 0..n
        invariant
            n == ls@.len() == lines(v@).len(),
            v@ == payload@,
            forall|j: int| 0 <= j < n ==> #[trigger] ls@[j]@ == lines(v@)[j],
            forall|j: int| 0 <= j < k ==> !is_url_line(#[trigger] lines(payload@)[j]),
    {
        if line_chars_is_url(&ls[k]) {
            assert(is_url_line(lines(payload@)[k as int]));
            return true;
        }
    }
    false
}

/// Whether a text copied in a browser is a download's leftover selection
/// (see `download_selection_skipped`).
pub fn browser_download_selection_should_skip(
    source_app: &str,
    foreground_app: &str,
    text: &str,
    url_payloads: &[String],
) -> (r: bool)
    ensures
        r == download_selection_skipped(source_app@, foreground_app@, text@, views(url_payloads@)),
{
    if !source_app_is_browser(source_app) && !source_app_is_browser(foreground_app)
        && !source_app_is_clipboard_proxy(source_app) {
        return false;
    }
    let tv = trim_chars(&chars_of(text));
    if tv.len() == 0 || utf8_longer_than(&tv, 4096) {
        return false;
    }
    let ghost t = trim(text@);
    let ls = lines_chars(&tv);
    let n = ls.len();
    let mut first: Option<usize> = None;
    let mut two = false;
    let mut any_url = false;
    let mut any_other = false;
    let mut any_plain = false;
    for i in 0..n
        invariant
            n == ls@.len() == lines(t).len(),
            tv@ == t,
            forall|j: int| 0 <= j < n ==> #[trigger] ls@[j]@ == lines(t)[j],
            first is None <==> forall|j: int| 0 <= j < i ==> !nonblank(#[trigger] lines(t)[j]),
            first matches Some(f) ==> f < i && nonblank(lines(t)[f as int]),
            two <==> exists|a: int, b: int|
                0 <= a < b < i && nonblank(#[trigger] lines(t)[a]) && nonblank(
                    #[trigger] lines(t)[b],
                ),
            any_url <==> exists|j: int|
                0 <= j < i && nonblank(lines(t)[j]) && is_url_line(#[trigger] lines(t)[j]),
            any_other <==> exists|j: int|
                0 <= j < i && nonblank(lines(t)[j]) && !is_url_line(#[trigger] lines(t)[j]),
            any_plain <==> exists|j: int|
                0 <= j < i && nonblank(lines(t)[j]) && plain_name_line(#[trigger] lines(t)[j]),
    {
        let line = trim_chars(&ls[i]);
        let ghost l = lines(t)[i as int];
        if line.len() > 0 {
            match first {
                Some(f) => {
                    two = true;
                    assert(nonblank(lines(t)[f as int]) && nonblank(lines(t)[i as int]));
                },
                None => {
                    first = Some(i);
                },
            }
            if line_chars_is_url(&line) {
                any_url = true;
                assert(is_url_line(l)) by {
                    crate::chars::lemma_trim_idempotent(l);
                }
            } else {
                assert(!is_url_line(l)) by {
                    crate::chars::lemma_trim_idempotent(l);
                }
                any_other = true;
                if !utf8_longer_than(&line, 260) && !contains_char(&line, '\\') && !contains_char(
                    &line,
                    '/',
                ) {
                    any_plain = true;
                    assert(plain_name_line(l));
                } else {
                    assert(!plain_name_line(l));
                }
            }
        } else {
            assert(!plain_name_line(l) || !nonblank(l));
        }
    }
    if !any_other {
        return false;
    }
    let m = url_payloads.len();
    let ghost urls = views(url_payloads@);
    for u in 0..m
        invariant
            m == url_payloads@.len(),
            urls == views(url_payloads@),
            is_browser_app(source_app@) || is_browser_app(foreground_app@) || is_clipboard_proxy(
                source_app@,
            ),
            t == trim(text@),
            t.len() > 0,
            encode_utf8(t).len() <= 4096,
            exists|j: int|
                0 <= j < lines(t).len() && nonblank(lines(t)[j]) && !is_url_line(
                    #[trigger] lines(t)[j],
                ),
            forall|a: int, k: int|
                0 <= a < u && 0 <= k < lines(urls[a]).len() ==> !#[trigger] is_url_line(
                    lines(urls[a])[k],
                ),
    {
        if payload_has_url_line(&url_payloads[u]) {
            proof {
                let pv = url_payloads@[u as int]@;
                let k = choose|k: int| 0 <= k < lines(pv).len() && #[trigger] is_url_line(lines(pv)[k]);
                assert(urls[u as int] == pv);
                assert(is_url_line(lines(urls[u as int])[k]));
            }
            return true;
        }
    }
    two && any_url && any_plain
}

// ───────────────────────── file paths and images ─────────────────────────

/// Whether files on the clipboard stand for an image that should be taken
/// instead: there are files, and either the PixPin format is present and
/// all are images, or the clipboard also carries an image and the PixPin
/// format is present or all are images.
pub open spec fn paths_yield_to_image(paths: Seq<Seq<char>>, pixpin_format: bool, has_image: bool) -> bool {
    paths.len() > 0 && ((pixpin_format && all_image_paths(paths)) || (has_image && (pixpin_format
        || all_image_paths(paths))))
}

/// Whether files on the clipboard yield to an image (see
/// `paths_yield_to_image`); `has_image_payload_format` says whether the
/// clipboard carries an image format.
pub fn clipboard_file_paths_should_yield_to_image(
    paths: &[String],
    pixpin_format: bool,
    has_image_payload_format: bool,
) -> (r: bool)
    ensures
        r == paths_yield_to_image(views(paths@), pixpin_format, has_image_payload_format),
{
    if paths.len() == 0 {
        return false;
    }
    let all_images = all_paths_have_image_extension(paths);
    if pixpin_format && all_images {
        return true;
    }
    has_image_payload_format && (pixpin_format || all_images)
}

// ───────────────────────── reading the clipboard ─────────────────────────

/// The sequence number a read goes on with, given the one asked for and
/// the one the clipboard reports (0 when unknown): none when both are known
/// and differ (the clipboard changed again); else the one asked for, or the
/// reported one when none was asked for.
pub open spec fn capture_sequence(sequence: u32, snapshot_sequence: u32) -> Option<u32> {
    if sequence != 0 && snapshot_sequence != 0 && snapshot_sequence != sequence {
        None
    } else if sequence == 0 && snapshot_sequence != 0 {
        Some(snapshot_sequence)
    } else {
        Some(sequence)
    }
}

/// The sequence number a read goes on with (see `capture_sequence`).
pub fn capture_sequence_for_snapshot(sequence: u32, snapshot_sequence: u32) -> (r: Option<u32>)
    ensures
        r == capture_sequence(sequence, snapshot_sequence),
{
    if sequence != 0 && snapshot_sequence != 0 && snapshot_sequence != sequence {
        return None;
    }
    if sequence == 0 && snapshot_sequence != 0 {
        Some(snapshot_sequence)
    } else {
        Some(sequence)
    }
}

/// Whether a clipboard change is left alone: the owning or the foreground
/// application renders fragilely (see `uses_fragile_delayed_rendering`),
/// the clipboard carries a format asking not to be captured, only custom
/// formats, or is otherwise ignored by its formats, or the change comes
/// from this program (see `is_self_app`).
pub open spec fn capture_skipped(
    source: Seq<char>,
    foreground: Seq<char>,
    has_ignore_capture_format: bool,
    has_only_custom_formats: bool,
    ignored_by_formats: bool,
    exe_name: Option<Seq<char>>,
) -> bool {
    uses_fragile_delayed_rendering(source) || uses_fragile_delayed_rendering(foreground)
        || has_ignore_capture_format || has_only_custom_formats || ignored_by_formats || is_self_app(
        source,
        exe_name,
    )
}

/// Whether a clipboard change is left alone (see `capture_skipped`).
pub fn capture_skipped_for_source(
    source_app: &str,
    foreground_app: &str,
    has_ignore_capture_format: bool,
    has_only_custom_formats: bool,
    ignored_by_formats: bool,
    exe_name: Option<&str>,
) -> (r: bool)
    ensures
        r == capture_skipped(
            source_app@,
            foreground_app@,
            has_ignore_capture_format,
            has_only_custom_formats,
            ignored_by_formats,
            match exe_name {
                Some(e) => Some(e@),
                None => None,
            },
        ),
{
    source_app_uses_fragile_delayed_clipboard_rendering(source_app)
        || source_app_uses_fragile_delayed_clipboard_rendering(foreground_app)
        || has_ignore_capture_format || has_only_custom_formats || ignored_by_formats
        || is_self_clipboard_source_app(source_app, exe_name)
}

/// How files on the clipboard are taken: whether they are the captures of
/// the screenshot tool (a screen-clip list, or all images copied from the
/// tool), and whether they yield to the image they stand for (screenshot
/// captures always; else see `paths_yield_to_image`).
pub open spec fn file_paths_plan(
    paths: Seq<Seq<char>>,
    source: Seq<char>,
    pixpin_format: bool,
    has_image: bool,
) -> (bool, bool) {
    let screenshot = crate::paths::is_windows_screen_clip_list(paths) || (is_windows_screenshot_tool(
        source,
    ) && paths.len() > 0 && all_image_paths(paths));
    (screenshot, screenshot || paths_yield_to_image(paths, pixpin_format, has_image))
}

/// How files on the clipboard are taken (see `file_paths_plan`).
pub fn capture_file_paths_plan(
    paths: &[String],
    source_app: &str,
    pixpin_format: bool,
    has_image_payload_format: bool,
) -> (r: (bool, bool))
    ensures
        r == file_paths_plan(views(paths@), source_app@, pixpin_format, has_image_payload_format),
{
    let screenshot = crate::paths::paths_look_like_windows_screen_clip(paths) || (
    source_app_is_windows_screenshot_tool(source_app) && paths.len() > 0
        && all_paths_have_image_extension(paths));
    let yields = screenshot || clipboard_file_paths_should_yield_to_image(
        paths,
        pixpin_format,
        has_image_payload_format,
    );
    (screenshot, yields)
}

/// Whether a read gives up when the files that yield to an image gave none:
/// when they are screenshot captures or come from the screenshot tool and
/// the clipboard carries no image either.
pub fn capture_gives_up_without_image(
    screenshot_paths: bool,
    source_app: &str,
    has_image_payload_format: bool,
) -> (r: bool)
    ensures
        r == ((screenshot_paths || is_windows_screenshot_tool(source_app@))
            && !has_image_payload_format),
{
    (screenshot_paths || source_app_is_windows_screenshot_tool(source_app)) && !has_image_payload_format
}

/// Whether a read looks at the URL payloads of the clipboard: when a browser
/// owns the clipboard or is in front, or a proxy of one owns it.
pub fn capture_wants_url_payloads(source_app: &str, foreground_app: &str) -> (r: bool)
    ensures
        r == (is_browser_app(source_app@) || is_browser_app(foreground_app@) || is_clipboard_proxy(
            source_app@,
        )),
{
    source_app_is_browser(source_app) || source_app_is_browser(foreground_app)
        || source_app_is_clipboard_proxy(source_app)
}

/// The HTML kept with a copied text: the clipboard's HTML payload when rich
/// text is on and the payload is not blank; else none.
pub fn capture_rich_text_html(rich_text_enabled: bool, html: Option<String>) -> (r: Option<String>)
    ensures
        match r {
            Some(h) => rich_text_enabled && (html matches Some(x) && x@ == h@) && trim(h@).len() > 0,
            None => !rich_text_enabled || html is None || trim(html->0@).len() == 0,
        },
{
    if !rich_text_enabled {
        return None;
    }
    match html {
        Some(h) => if is_blank(&chars_of(h.as_str())) {
            None
        } else {
            Some(h)
        },
        None => None,
    }
}

// ───────────────────────── which application copied ─────────────────────────

/// The application in front: the process name of the foreground window,
/// none (empty) when there is no foreground window or it is one of this
/// program's.
pub open spec fn foreground_app(
    hosts: Option<crate::hosts::WindowHosts>,
    foreground: isize,
    foreground_name: Seq<char>,
) -> Seq<char> {
    if foreground == 0 || crate::hosts::is_app_host(hosts, foreground) {
        Seq::empty()
    } else {
        foreground_name
    }
}

/// The application that owns the clipboard: the process name of the
/// owner's top-level window when there is one, it is not this program's,
/// and the name is known (not empty); else the application in front (see
/// `foreground_app`).
pub open spec fn clipboard_owner_app(
    hosts: Option<crate::hosts::WindowHosts>,
    owner_root: isize,
    owner_name: Seq<char>,
    foreground: isize,
    foreground_name: Seq<char>,
) -> Seq<char> {
    if owner_root != 0 && !crate::hosts::is_app_host(hosts, owner_root) && owner_name.len() > 0 {
        owner_name
    } else {
        foreground_app(hosts, foreground, foreground_name)
    }
}

/// The application in front (see `foreground_app`); the caller reads the
/// foreground window and its process name.
pub fn foreground_source_app_name(
    hosts: Option<&crate::hosts::WindowHosts>,
    foreground: isize,
    foreground_name: String,
) -> (r: String)
    ensures
        r@ == foreground_app(
            match hosts {
                Some(h) => Some(*h),
                None => None,
            },
            foreground,
            foreground_name@,
        ),
{
    if foreground == 0 || crate::hosts::is_app_window(hosts, foreground) {
        return String::new();
    }
    foreground_name
}

/// The application that owns the clipboard (see `clipboard_owner_app`);
/// the caller reads the owner's top-level window, the foreground window
/// and their process names.
pub fn clipboard_source_app_name(
    hosts: Option<&crate::hosts::WindowHosts>,
    owner_root: isize,
    owner_name: String,
    foreground: isize,
    foreground_name: String,
) -> (r: String)
    ensures
        r@ == clipboard_owner_app(
            match hosts {
                Some(h) => Some(*h),
                None => None,
            },
            owner_root,
            owner_name@,
            foreground,
            foreground_name@,
        ),
{
    if owner_root != 0 && !crate::hosts::is_app_window(hosts, owner_root) && !owner_name.as_str().is_empty() {
        return owner_name;
    }
    foreground_source_app_name(hosts, foreground, foreground_name)
}

} // verus!
