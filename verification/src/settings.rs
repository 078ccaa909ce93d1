//! The settings window's "save": the new settings made from what its
//! controls hold, and what the change asks of the rest of the program.

use vstd::prelude::*;
use crate::capture::{parse_u32, parse_u32_decimal};
use crate::chars::{
    append_chars, chars_eq, chars_of, is_blank, starts_with, starts_with_exec, string_from_chars, sub_chars, trim,
    trim_chars,
};
use crate::vv::{vv_popup_resolved_group_id, vv_resolved_group};

verus! {

broadcast use vstd::string::group_string_axioms;

// ───────────────────────── numbers typed in ─────────────────────────

/// `i32::from_str`: a `-` followed by a `u32` without sign (see
/// `parse_u32`) of at most 2^31, negated; or a `u32` of at most
/// `i32::MAX`; none for anything else.
pub open spec fn parse_i32(s: Seq<char>) -> Option<i32> {
    if s.len() > 0 && s[0] == '-' {
        let d = s.drop_first();
        if d.len() > 0 && d[0] == '+' {
            None
        } else {
            match parse_u32(d) {
                Some(m) => if m <= 0x8000_0000 {
                    Some((-m) as i32)
                } else {
                    None
                },
                None => None,
            }
        }
    } else {
        match parse_u32(s) {
            Some(v) => if v <= i32::MAX {
                Some(v as i32)
            } else {
                None
            },
            None => None,
        }
    }
}

/// Parses a decimal `i32` (see `parse_i32`).
pub fn parse_i32_decimal(s: &str) -> (r: Option<i32>)
    ensures
        r == parse_i32(s@),
{
    let v = chars_of(s);
    if v.len() > 0 && v[0] == '-' {
        let rest = sub_chars(&v, 1, v.len());
        assert(rest@ =~= s@.drop_first());
        if rest.len() > 0 && rest[0] == '+' {
            return None;
        }
        let text = string_from_chars(&rest);
        match parse_u32_decimal(text.as_str()) {
            Some(m) => {
                if m <= 0x8000_0000 {
                    if m == 0x8000_0000 {
                        Some(i32::MIN)
                    } else {
                        Some(-(m as i32))
                    }
                } else {
                    None
                }
            },
            None => None,
        }
    } else {
        match parse_u32_decimal(s) {
            Some(u) => {
                if u <= 0x7fff_ffff {
                    Some(u as i32)
                } else {
                    None
                }
            },
            None => None,
        }
    }
}

/// A number typed in, or `default` when the text is no `i32`.
pub open spec fn number_or(text: Seq<char>, default: i32) -> i32 {
    match parse_i32(text) {
        Some(v) => v,
        None => default,
    }
}

fn parse_or(text: &str, default: i32) -> (r: i32)
    ensures
        r == number_or(text@, default),
{
    match parse_i32_decimal(text) {
        Some(v) => v,
        None => default,
    }
}

// ───────────────────────── settings and form ─────────────────────────

/// The settings that saving the settings window reads and compares.
#[derive(Debug)]
pub struct AppSettings {
    pub max_items: usize,
    pub show_mouse_dx: i32,
    pub show_mouse_dy: i32,
    pub show_fixed_x: i32,
    pub show_fixed_y: i32,
    /// The key of the position mode.
    pub show_pos_mode: String,
    pub paste_success_sound_kind: String,
    pub hotkey_enabled: bool,
    pub hotkey_mod: String,
    pub hotkey_key: String,
    pub plain_paste_hotkey_enabled: bool,
    pub plain_paste_hotkey_mod: String,
    pub plain_paste_hotkey_key: String,
    pub search_engine: String,
    pub search_template: String,
    pub image_ocr_provider: String,
    pub image_ocr_wechat_dir: String,
    pub image_ocr_cloud_url: String,
    pub image_ocr_cloud_token: String,
    pub text_translate_provider: String,
    pub text_translate_app_id: String,
    pub text_translate_secret: String,
    pub text_translate_target_lang: String,
    pub vv_source_tab: usize,
    pub vv_group_id: i64,
    pub cloud_sync_interval: String,
    pub cloud_webdav_url: String,
    pub cloud_webdav_user: String,
    pub cloud_webdav_pass: String,
    pub cloud_remote_dir: String,
    pub grouping_enabled: bool,
    pub auto_start: bool,
    pub tray_icon_enabled: bool,
    pub edge_auto_hide: bool,
    pub vv_mode_enabled: bool,
    pub persistent_search_box: bool,
    pub last_window_x: i32,
    pub last_window_y: i32,
}

/// What the hotkey page's controls hold, in their normal form.
#[derive(Debug)]
pub struct HotkeyForm {
    pub hotkey_mod: String,
    pub hotkey_key: String,
    /// The plain-paste hotkey's modifier and key, when those controls exist.
    pub plain: Option<(String, String)>,
}

/// What the plugin page's controls hold: the keys the drop-downs stand
/// for, and the texts of the edit boxes as typed.
#[derive(Debug)]
pub struct PluginForm {
    pub search_engine: String,
    /// The template of the chosen search engine.
    pub engine_template: String,
    pub template_text: String,
    pub ocr_provider: String,
    /// The text of the box that holds the WeChat folder or the cloud URL.
    pub ocr_url_text: String,
    pub ocr_token_text: String,
    pub translate_provider: String,
    pub translate_app_id_text: String,
    pub translate_secret_text: String,
    pub translate_target: String,
}

/// What the settings window's controls hold when it saves. A page that
/// was never built, or a control that does not exist, gives none.
#[derive(Debug)]
pub struct SettingsForm {
    /// The maximum item count the drop-down stands for.
    pub max_items: usize,
    pub dx_text: String,
    pub dy_text: String,
    pub fx_text: String,
    pub fy_text: String,
    /// The key of the position mode the drop-down stands for.
    pub pos_mode: String,
    /// The key of the paste sound the drop-down stands for.
    pub paste_sound_kind: Option<String>,
    pub hotkey: Option<HotkeyForm>,
    pub plugin: Option<PluginForm>,
    pub vv_source_tab: usize,
    pub vv_group_selected: i64,
    /// The ids of the groups of the chosen source tab.
    pub vv_group_ids: Vec<i64>,
    pub cloud_interval: Option<String>,
    pub cloud_url: Option<String>,
    pub cloud_user: Option<String>,
    pub cloud_pass: Option<String>,
    pub cloud_dir: Option<String>,
    /// The main window's top-left corner, when it could be read.
    pub window_origin: Option<(i32, i32)>,
    /// Whether the main window is visible.
    pub window_visible: bool,
}

/// A text, or `fallback` when it is blank.
pub open spec fn or_if_blank(text: Seq<char>, fallback: Seq<char>) -> Seq<char> {
    if trim(text).len() == 0 {
        fallback
    } else {
        text
    }
}

/// The characters of a present value, else of the value kept.
pub open spec fn given_or(v: Option<String>, kept: String) -> Seq<char> {
    match v {
        Some(s) => s@,
        None => kept@,
    }
}

/// Whether `r` holds what the form gives for the general controls: the
/// maximum item count and position mode as chosen, the offsets and fixed
/// position as typed (12, 12, 120 and 120 when not numbers), the paste
/// sound when its page was built.
pub open spec fn general_collected(r: AppSettings, draft: AppSettings, f: SettingsForm) -> bool {
    &&& r.max_items == f.max_items
    &&& r.show_mouse_dx == number_or(f.dx_text@, 12)
    &&& r.show_mouse_dy == number_or(f.dy_text@, 12)
    &&& r.show_fixed_x == number_or(f.fx_text@, 120)
    &&& r.show_fixed_y == number_or(f.fy_text@, 120)
    &&& r.show_pos_mode@ == f.pos_mode@
    &&& r.paste_success_sound_kind@ == given_or(f.paste_sound_kind, draft.paste_success_sound_kind)
}

/// Whether `r` holds the hotkeys of the hotkey page when it was built (the
/// plain-paste hotkey when its controls exist), else those of the draft.
pub open spec fn hotkeys_collected(r: AppSettings, draft: AppSettings, f: SettingsForm) -> bool {
    match f.hotkey {
        Some(h) => {
            &&& r.hotkey_mod@ == h.hotkey_mod@
            &&& r.hotkey_key@ == h.hotkey_key@
            &&& match h.plain {
                Some((m, k)) => r.plain_paste_hotkey_mod@ == m@ && r.plain_paste_hotkey_key@ == k@,
                None => r.plain_paste_hotkey_mod@ == draft.plain_paste_hotkey_mod@
                    && r.plain_paste_hotkey_key@ == draft.plain_paste_hotkey_key@,
            }
        },
        None => {
            &&& r.hotkey_mod@ == draft.hotkey_mod@
            &&& r.hotkey_key@ == draft.hotkey_key@
            &&& r.plain_paste_hotkey_mod@ == draft.plain_paste_hotkey_mod@
            &&& r.plain_paste_hotkey_key@ == draft.plain_paste_hotkey_key@
        },
    }
}

/// Whether `r` holds what the plugin page gives when it was built: the
/// search engine, its template unless another one is typed; the OCR
/// provider, with the WeChat folder for `winocr` and the cloud URL and
/// token otherwise; the translation provider, with its app id, secret and
/// target language for `baidu`. Everything else is the draft's.
pub open spec fn plugin_collected(r: AppSettings, draft: AppSettings, f: SettingsForm) -> bool {
    match f.plugin {
        Some(p) => {
            &&& r.search_engine@ == p.search_engine@
            &&& r.search_template@ == or_if_blank(p.template_text@, p.engine_template@)
            &&& r.image_ocr_provider@ == p.ocr_provider@
            &&& if p.ocr_provider@ == "winocr"@ {
                &&& r.image_ocr_wechat_dir@ == p.ocr_url_text@
                &&& r.image_ocr_cloud_url@ == draft.image_ocr_cloud_url@
                &&& r.image_ocr_cloud_token@ == draft.image_ocr_cloud_token@
            } else {
                &&& r.image_ocr_wechat_dir@ == draft.image_ocr_wechat_dir@
                &&& r.image_ocr_cloud_url@ == p.ocr_url_text@
                &&& r.image_ocr_cloud_token@ == p.ocr_token_text@
            }
            &&& r.text_translate_provider@ == p.translate_provider@
            &&& if p.translate_provider@ == "baidu"@ {
                &&& r.text_translate_app_id@ == p.translate_app_id_text@
                &&& r.text_translate_secret@ == p.translate_secret_text@
                &&& r.text_translate_target_lang@ == p.translate_target@
            } else {
                &&& r.text_translate_app_id@ == draft.text_translate_app_id@
                &&& r.text_translate_secret@ == draft.text_translate_secret@
                &&& r.text_translate_target_lang@ == draft.text_translate_target_lang@
            }
        },
        None => {
            &&& r.search_engine@ == draft.search_engine@
            &&& r.search_template@ == draft.search_template@
            &&& r.image_ocr_provider@ == draft.image_ocr_provider@
            &&& r.image_ocr_wechat_dir@ == draft.image_ocr_wechat_dir@
            &&& r.image_ocr_cloud_url@ == draft.image_ocr_cloud_url@
            &&& r.image_ocr_cloud_token@ == draft.image_ocr_cloud_token@
            &&& r.text_translate_provider@ == draft.text_translate_provider@
            &&& r.text_translate_app_id@ == draft.text_translate_app_id@
            &&& r.text_translate_secret@ == draft.text_translate_secret@
            &&& r.text_translate_target_lang@ == draft.text_translate_target_lang@
        },
    }
}

/// Whether `r` holds the popup's source and group (the chosen group only
/// when it is one of the tab's groups, see `vv_resolved_group`) and what
/// the cloud page gives: the interval (`1小时` when blank), the WebDAV
/// address, user and password, and the remote folder (`ZSClip` when
/// blank); the draft's for what the page does not give.
pub open spec fn sync_collected(r: AppSettings, draft: AppSettings, f: SettingsForm) -> bool {
    &&& r.vv_source_tab == f.vv_source_tab
    &&& r.vv_group_id == vv_resolved_group(f.vv_group_selected, f.vv_group_ids@)
    &&& r.cloud_sync_interval@ == match f.cloud_interval {
        Some(l) => or_if_blank(l@, "1小时"@),
        None => draft.cloud_sync_interval@,
    }
    &&& r.cloud_webdav_url@ == given_or(f.cloud_url, draft.cloud_webdav_url)
    &&& r.cloud_webdav_user@ == given_or(f.cloud_user, draft.cloud_webdav_user)
    &&& r.cloud_webdav_pass@ == given_or(f.cloud_pass, draft.cloud_webdav_pass)
    &&& r.cloud_remote_dir@ == match f.cloud_dir {
        Some(d) => or_if_blank(d@, "ZSClip"@),
        None => draft.cloud_remote_dir@,
    }
}

/// Whether `r` keeps the draft's switches, and records the window's
/// position when edge hiding is on and the position could be read.
pub open spec fn switches_collected(r: AppSettings, draft: AppSettings, f: SettingsForm) -> bool {
    &&& r.hotkey_enabled == draft.hotkey_enabled
    &&& r.plain_paste_hotkey_enabled == draft.plain_paste_hotkey_enabled
    &&& r.grouping_enabled == draft.grouping_enabled
    &&& r.auto_start == draft.auto_start
    &&& r.tray_icon_enabled == draft.tray_icon_enabled
    &&& r.edge_auto_hide == draft.edge_auto_hide
    &&& r.vv_mode_enabled == draft.vv_mode_enabled
    &&& r.persistent_search_box == draft.persistent_search_box
    &&& match f.window_origin {
        Some((x, y)) if draft.edge_auto_hide => r.last_window_x == x && r.last_window_y == y,
        _ => r.last_window_x == draft.last_window_x && r.last_window_y == draft.last_window_y,
    }
}

/// The settings that saving makes of the draft and the controls.
pub open spec fn collected(r: AppSettings, draft: AppSettings, f: SettingsForm) -> bool {
    &&& general_collected(r, draft, f)
    &&& hotkeys_collected(r, draft, f)
    &&& plugin_collected(r, draft, f)
    &&& sync_collected(r, draft, f)
    &&& switches_collected(r, draft, f)
}

// ───────────────────────── effects ─────────────────────────

/// What happens to a window hidden at an edge when edge hiding is switched.
#[derive(Clone, Copy, Debug, PartialEq, Eq, Structural)]
pub enum EdgeSettingChange {
    /// Nothing.
    Keep,
    /// Edge hiding went off: bring the hidden window back.
    RestoreHidden,
    /// Edge hiding came on for a visible window: forget the old docking and
    /// start watching where it stands.
    StartTracking,
}

/// What a change of settings asks of the rest of the program, besides
/// saving the settings and refreshing the windows, hooks and list.
#[derive(Clone, Copy, Debug, PartialEq, Eq, Structural)]
pub struct SettingsEffects {
    /// Grouping is off: clear the group filters of both tabs.
    pub clear_group_filters: bool,
    /// Apply the new start-with-Windows choice.
    pub apply_autostart: bool,
    /// Show or remove the tray icon.
    pub sync_tray_icon: bool,
    /// Grouping was switched: clear the selection.
    pub clear_selection: bool,
    /// Register the main hotkey again.
    pub register_hotkey: bool,
    /// Register the plain-paste hotkey again.
    pub register_plain_paste_hotkey: bool,
    /// Install or remove the V V keyboard hook.
    pub update_vv_hook: bool,
    /// Close the V V popup.
    pub hide_vv_popup: bool,
    /// Prune the history to `max_items` and reload it.
    pub prune_items: bool,
    pub edge: EdgeSettingChange,
    /// Prepare the search box anew.
    pub prepare_search_box: bool,
}

/// A boolean as `format!` writes it.
pub open spec fn bool_text(b: bool) -> Seq<char> {
    if b {
        "true"@
    } else {
        "false"@
    }
}

/// A hotkey as it is compared: `enabled+modifier+key`.
pub open spec fn hotkey_text(enabled: bool, m: Seq<char>, k: Seq<char>) -> Seq<char> {
    bool_text(enabled) + "+"@ + m + "+"@ + k
}

/// What changing the settings from `old` to `new` asks for; `visible`
/// tells whether the main window is visible.
pub open spec fn effects_of_change(old: AppSettings, new: AppSettings, visible: bool) -> SettingsEffects {
    SettingsEffects {
        clear_group_filters: !new.grouping_enabled,
        apply_autostart: old.auto_start != new.auto_start,
        sync_tray_icon: old.tray_icon_enabled != new.tray_icon_enabled,
        clear_selection: old.grouping_enabled != new.grouping_enabled,
        register_hotkey: hotkey_text(old.hotkey_enabled, old.hotkey_mod@, old.hotkey_key@)
            != hotkey_text(new.hotkey_enabled, new.hotkey_mod@, new.hotkey_key@),
        register_plain_paste_hotkey: hotkey_text(
            old.plain_paste_hotkey_enabled,
            old.plain_paste_hotkey_mod@,
            old.plain_paste_hotkey_key@,
        ) != hotkey_text(
            new.plain_paste_hotkey_enabled,
            new.plain_paste_hotkey_mod@,
            new.plain_paste_hotkey_key@,
        ),
        update_vv_hook: old.vv_mode_enabled != new.vv_mode_enabled,
        hide_vv_popup: old.vv_mode_enabled != new.vv_mode_enabled && !new.vv_mode_enabled,
        prune_items: new.max_items > 0,
        edge: if old.edge_auto_hide && !new.edge_auto_hide {
            EdgeSettingChange::RestoreHidden
        } else if !old.edge_auto_hide && new.edge_auto_hide && visible {
            EdgeSettingChange::StartTracking
        } else {
            EdgeSettingChange::Keep
        },
        prepare_search_box: old.persistent_search_box != new.persistent_search_box,
    }
}

/// A hotkey as it is compared (see `hotkey_text`).
fn hotkey_chars(enabled: bool, m: &str, k: &str) -> (r: Vec<char>)
    ensures
        r@ == hotkey_text(enabled, m@, k@),
{
    let mut v = if enabled {
        chars_of("true")
    } else {
        chars_of("false")
    };
    let plus = chars_of("+");
    append_chars(&mut v, &plus);
    append_chars(&mut v, &chars_of(m));
    append_chars(&mut v, &plus);
    append_chars(&mut v, &chars_of(k));
    v
}

/// What changing the settings asks for (see `effects_of_change`).
fn settings_effects(old: &AppSettings, new: &AppSettings, visible: bool) -> (r: SettingsEffects)
    ensures
        r == effects_of_change(*old, *new, visible),
{
    let hotkey_old = hotkey_chars(old.hotkey_enabled, old.hotkey_mod.as_str(), old.hotkey_key.as_str());
    let hotkey_new = hotkey_chars(new.hotkey_enabled, new.hotkey_mod.as_str(), new.hotkey_key.as_str());
    let plain_old = hotkey_chars(
        old.plain_paste_hotkey_enabled,
        old.plain_paste_hotkey_mod.as_str(),
        old.plain_paste_hotkey_key.as_str(),
    );
    let plain_new = hotkey_chars(
        new.plain_paste_hotkey_enabled,
        new.plain_paste_hotkey_mod.as_str(),
        new.plain_paste_hotkey_key.as_str(),
    );
    let vv_changed = old.vv_mode_enabled != new.vv_mode_enabled;
    let edge = if old.edge_auto_hide && !new.edge_auto_hide {
        EdgeSettingChange::RestoreHidden
    } else if !old.edge_auto_hide && new.edge_auto_hide && visible {
        EdgeSettingChange::StartTracking
    } else {
        EdgeSettingChange::Keep
    };
    SettingsEffects {
        clear_group_filters: !new.grouping_enabled,
        apply_autostart: old.auto_start != new.auto_start,
        sync_tray_icon: old.tray_icon_enabled != new.tray_icon_enabled,
        clear_selection: old.grouping_enabled != new.grouping_enabled,
        register_hotkey: !chars_eq(&hotkey_old, &hotkey_new),
        register_plain_paste_hotkey: !chars_eq(&plain_old, &plain_new),
        update_vv_hook: vv_changed,
        hide_vv_popup: vv_changed && !new.vv_mode_enabled,
        prune_items: new.max_items > 0,
        edge,
        prepare_search_box: old.persistent_search_box != new.persistent_search_box,
    }
}

/// A text, or `fallback` when it is blank (see `or_if_blank`).
fn text_or_if_blank(text: String, fallback: &str) -> (r: String)
    ensures
        r@ == or_if_blank(text@, fallback@),
{
    if is_blank(&chars_of(text.as_str())) {
        fallback.to_string()
    } else {
        text
    }
}

fn copy_string(s: &String) -> (r: String)
    ensures
        r@ == s@,
{
    s.clone()
}

/// Reads the general controls into the settings (see
/// `general_collected`); the other settings stay.
fn collect_general(s: &mut AppSettings, form: &SettingsForm)
    ensures
        general_collected(*final(s), *old(s), *form),
        *final(s) == (AppSettings {
            max_items: final(s).max_items,
            show_mouse_dx: final(s).show_mouse_dx,
            show_mouse_dy: final(s).show_mouse_dy,
            show_fixed_x: final(s).show_fixed_x,
            show_fixed_y: final(s).show_fixed_y,
            show_pos_mode: final(s).show_pos_mode,
            paste_success_sound_kind: final(s).paste_success_sound_kind,
            ..*old(s)
        }),
{
    s.max_items = form.max_items;
    s.show_mouse_dx = parse_or(form.dx_text.as_str(), 12);
    s.show_mouse_dy = parse_or(form.dy_text.as_str(), 12);
    s.show_fixed_x = parse_or(form.fx_text.as_str(), 120);
    s.show_fixed_y = parse_or(form.fy_text.as_str(), 120);
    s.show_pos_mode = copy_string(&form.pos_mode);
    if let Some(kind) = &form.paste_sound_kind {
        s.paste_success_sound_kind = copy_string(kind);
    }
}

/// Reads the hotkey page into the settings (see `hotkeys_collected`); the
/// other settings stay.
fn collect_hotkeys(s: &mut AppSettings, form: &SettingsForm)
    ensures
        hotkeys_collected(*final(s), *old(s), *form),
        *final(s) == (AppSettings {
            hotkey_mod: final(s).hotkey_mod,
            hotkey_key: final(s).hotkey_key,
            plain_paste_hotkey_mod: final(s).plain_paste_hotkey_mod,
            plain_paste_hotkey_key: final(s).plain_paste_hotkey_key,
            ..*old(s)
        }),
{
    if let Some(h) = &form.hotkey {
        s.hotkey_mod = copy_string(&h.hotkey_mod);
        s.hotkey_key = copy_string(&h.hotkey_key);
        if let Some((m, k)) = &h.plain {
            s.plain_paste_hotkey_mod = copy_string(m);
            s.plain_paste_hotkey_key = copy_string(k);
        }
    }
}

/// Reads the plugin page into the settings (see `plugin_collected`); the
/// other settings stay.
fn collect_plugin(s: &mut AppSettings, form: &SettingsForm)
    ensures
        plugin_collected(*final(s), *old(s), *form),
        *final(s) == (AppSettings {
            search_engine: final(s).search_engine,
            search_template: final(s).search_template,
            image_ocr_provider: final(s).image_ocr_provider,
            image_ocr_wechat_dir: final(s).image_ocr_wechat_dir,
            image_ocr_cloud_url: final(s).image_ocr_cloud_url,
            image_ocr_cloud_token: final(s).image_ocr_cloud_token,
            text_translate_provider: final(s).text_translate_provider,
            text_translate_app_id: final(s).text_translate_app_id,
            text_translate_secret: final(s).text_translate_secret,
            text_translate_target_lang: final(s).text_translate_target_lang,
            ..*old(s)
        }),
{
    if let Some(p) = &form.plugin {
        s.search_engine = copy_string(&p.search_engine);
        s.search_template = text_or_if_blank(copy_string(&p.template_text), p.engine_template.as_str());
        s.image_ocr_provider = copy_string(&p.ocr_provider);
        if chars_eq(&chars_of(p.ocr_provider.as_str()), &chars_of("winocr")) {
            s.image_ocr_wechat_dir = copy_string(&p.ocr_url_text);
        } else {
            s.image_ocr_cloud_url = copy_string(&p.ocr_url_text);
            s.image_ocr_cloud_token = copy_string(&p.ocr_token_text);
        }
        s.text_translate_provider = copy_string(&p.translate_provider);
        if chars_eq(&chars_of(p.translate_provider.as_str()), &chars_of("baidu")) {
            s.text_translate_app_id = copy_string(&p.translate_app_id_text);
            s.text_translate_secret = copy_string(&p.translate_secret_text);
            s.text_translate_target_lang = copy_string(&p.translate_target);
        }
    }
}

/// Reads the popup's source and group and the cloud page into the settings
/// (see `sync_collected`); the other settings stay.
fn collect_sync(s: &mut AppSettings, form: &SettingsForm)
    ensures
        sync_collected(*final(s), *old(s), *form),
        *final(s) == (AppSettings {
            vv_source_tab: final(s).vv_source_tab,
            vv_group_id: final(s).vv_group_id,
            cloud_sync_interval: final(s).cloud_sync_interval,
            cloud_webdav_url: final(s).cloud_webdav_url,
            cloud_webdav_user: final(s).cloud_webdav_user,
            cloud_webdav_pass: final(s).cloud_webdav_pass,
            cloud_remote_dir: final(s).cloud_remote_dir,
            ..*old(s)
        }),
{
    s.vv_source_tab = form.vv_source_tab;
    s.vv_group_id = vv_popup_resolved_group_id(form.vv_group_selected, form.vv_group_ids.as_slice());
    if let Some(label) = &form.cloud_interval {
        s.cloud_sync_interval = text_or_if_blank(copy_string(label), "1小时");
    }
    if let Some(url) = &form.cloud_url {
        s.cloud_webdav_url = copy_string(url);
    }
    if let Some(user) = &form.cloud_user {
        s.cloud_webdav_user = copy_string(user);
    }
    if let Some(pass) = &form.cloud_pass {
        s.cloud_webdav_pass = copy_string(pass);
    }
    if let Some(dir) = &form.cloud_dir {
        s.cloud_remote_dir = text_or_if_blank(copy_string(dir), "ZSClip");
    }
}

/// Saves the settings window: the new settings made of the draft and the
/// controls (see `collected`), and what the change from `old` asks of the
/// program (see `effects_of_change`). The caller reads the controls,
/// stores the settings, and does what the effects ask.
#[verifier::rlimit(50)]
pub fn settings_collect_to_app(old: &AppSettings, draft: AppSettings, form: &SettingsForm) -> (r: (
    AppSettings,
    SettingsEffects,
))
    ensures
        collected(r.0, draft, *form),
        r.1 == effects_of_change(*old, r.0, form.window_visible),
{
    let mut s = draft;
    collect_general(&mut s, form);
    collect_hotkeys(&mut s, form);
    collect_plugin(&mut s, form);
    collect_sync(&mut s, form);
    if s.edge_auto_hide {
        if let Some((x, y)) = form.window_origin {
            s.last_window_x = x;
            s.last_window_y = y;
        }
    }
    let effects = settings_effects(old, &s, form.window_visible);
    (s, effects)
}

// ───────────────────────── cloud status ─────────────────────────

/// The text shown for the cloud sync status.
#[derive(Debug)]
pub enum CloudStatusText {
    /// Shown as it is.
    Text(String),
    /// A status phrase, shown through the caller's translation table.
    Translate(String),
}

/// A label in the interface language: `en` in English, `zh` otherwise.
pub open spec fn label_of(english: bool, zh: Seq<char>, en: Seq<char>) -> Seq<char> {
    if english {
        en
    } else {
        zh
    }
}

/// The text shown for a cloud sync status: "not synced" for a blank status
/// or `未同步`; for a status `失败：…` the word "failed" in the interface
/// language followed by the rest; any other status, trimmed, goes through
/// the translation table.
pub open spec fn cloud_status_text_of(status: Seq<char>, english: bool) -> (bool, Seq<char>) {
    let t = trim(status);
    if t.len() == 0 || t == "未同步"@ {
        (true, label_of(english, "未同步"@, "Not synced"@))
    } else if starts_with(t, "失败："@) {
        (true, label_of(english, "失败："@, "Failed: "@) + t.skip("失败："@.len() as int))
    } else {
        (false, t)
    }
}

/// The view of a status text: whether it is shown as it is, and its
/// characters.
pub open spec fn cloud_status_view(r: CloudStatusText) -> (bool, Seq<char>) {
    match r {
        CloudStatusText::Text(s) => (true, s@),
        CloudStatusText::Translate(s) => (false, s@),
    }
}

/// The text shown for a cloud sync status (see `cloud_status_text_of`).
pub fn localized_cloud_status_text(status: &str, english: bool) -> (r: CloudStatusText)
    ensures
        cloud_status_view(r) == cloud_status_text_of(status@, english),
{
    let t = trim_chars(&chars_of(status));
    if t.len() == 0 || chars_eq(&t, &chars_of("未同步")) {
        let label = if english {
            "Not synced"
        } else {
            "未同步"
        };
        return CloudStatusText::Text(label.to_string());
    }
    let prefix = chars_of("失败：");
    if starts_with_exec(&t, &prefix) {
        let mut v = if english {
            chars_of("Failed: ")
        } else {
            chars_of("失败：")
        };
        let rest = sub_chars(&t, prefix.len(), t.len());
        assert(rest@ =~= t@.skip(prefix@.len() as int));
        append_chars(&mut v, &rest);
        return CloudStatusText::Text(string_from_chars(&v));
    }
    CloudStatusText::Translate(string_from_chars(&t))
}

// ───────────────────────── where the data lives ─────────────────────────

/// Where settings and history are kept.
#[derive(Clone, Copy, Debug, PartialEq, Eq, Structural)]
pub enum DataDirChoice {
    /// `data` beside the program.
    BesideProgram,
    /// `ZsClip/data` under the user's local application data.
    LocalAppData,
    /// `data` beside the program, or in the working folder when the
    /// program's folder is unknown: there is no local application data.
    Fallback,
}

/// Where settings and history are kept: beside the program when it runs
/// portable (a `portable.mode` file beside it) or an older install left
/// `data/settings.json` or `data/clipboard.db` there; else under the local
/// application data, when the system names it.
pub open spec fn data_dir_choice_of(
    portable_marker: bool,
    legacy_settings: bool,
    legacy_history: bool,
    local_app_data: bool,
) -> DataDirChoice {
    if portable_marker || legacy_settings || legacy_history {
        DataDirChoice::BesideProgram
    } else if local_app_data {
        DataDirChoice::LocalAppData
    } else {
        DataDirChoice::Fallback
    }
}

/// Where settings and history are kept (see `data_dir_choice_of`); the
/// caller looks for the files beside the program and for the local
/// application data folder.
pub fn data_dir_choice(portable_marker: bool, legacy_settings: bool, legacy_history: bool, local_app_data: bool) -> (r:
    DataDirChoice)
    ensures
        r == data_dir_choice_of(portable_marker, legacy_settings, legacy_history, local_app_data),
{
    if portable_marker || legacy_settings || legacy_history {
        DataDirChoice::BesideProgram
    } else if local_app_data {
        DataDirChoice::LocalAppData
    } else {
        DataDirChoice::Fallback
    }
}

} // verus!
