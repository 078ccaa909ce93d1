use zsclip::settings::{
    data_dir_choice, localized_cloud_status_text, DataDirChoice, parse_i32_decimal, CloudStatusText, settings_collect_to_app, AppSettings, EdgeSettingChange, HotkeyForm, PluginForm, SettingsEffects,
    SettingsForm,
};

fn settings() -> AppSettings {
    AppSettings {
        max_items: 200,
        show_mouse_dx: 5,
        show_mouse_dy: 6,
        show_fixed_x: 7,
        show_fixed_y: 8,
        show_pos_mode: "mouse".to_string(),
        paste_success_sound_kind: "none".to_string(),
        hotkey_enabled: true,
        hotkey_mod: "Win".to_string(),
        hotkey_key: "V".to_string(),
        plain_paste_hotkey_enabled: false,
        plain_paste_hotkey_mod: "Ctrl+Shift".to_string(),
        plain_paste_hotkey_key: "V".to_string(),
        search_engine: "bing".to_string(),
        search_template: "https://bing.com/?q={q}".to_string(),
        image_ocr_provider: "winocr".to_string(),
        image_ocr_wechat_dir: "D:\\wx".to_string(),
        image_ocr_cloud_url: "https://ocr".to_string(),
        image_ocr_cloud_token: "tok".to_string(),
        text_translate_provider: "none".to_string(),
        text_translate_app_id: "id".to_string(),
        text_translate_secret: "sec".to_string(),
        text_translate_target_lang: "en".to_string(),
        vv_source_tab: 0,
        vv_group_id: 0,
        cloud_sync_interval: "30分钟".to_string(),
        cloud_webdav_url: "https://dav".to_string(),
        cloud_webdav_user: "u".to_string(),
        cloud_webdav_pass: "p".to_string(),
        cloud_remote_dir: "Clips".to_string(),
        grouping_enabled: true,
        auto_start: false,
        tray_icon_enabled: true,
        edge_auto_hide: false,
        vv_mode_enabled: true,
        persistent_search_box: false,
        last_window_x: 1,
        last_window_y: 2,
    }
}

fn bare_form() -> SettingsForm {
    SettingsForm {
        max_items: 200,
        dx_text: "5".to_string(),
        dy_text: "6".to_string(),
        fx_text: "7".to_string(),
        fy_text: "8".to_string(),
        pos_mode: "mouse".to_string(),
        paste_sound_kind: None,
        hotkey: None,
        plugin: None,
        vv_source_tab: 0,
        vv_group_selected: 0,
        vv_group_ids: Vec::new(),
        cloud_interval: None,
        cloud_url: None,
        cloud_user: None,
        cloud_pass: None,
        cloud_dir: None,
        window_origin: Some((300, 400)),
        window_visible: true,
    }
}

fn no_effects() -> SettingsEffects {
    SettingsEffects {
        clear_group_filters: false,
        apply_autostart: false,
        sync_tray_icon: false,
        clear_selection: false,
        register_hotkey: false,
        register_plain_paste_hotkey: false,
        update_vv_hook: false,
        hide_vv_popup: false,
        prune_items: true,
        edge: EdgeSettingChange::Keep,
        prepare_search_box: false,
    }
}

#[test]
fn typed_numbers_parse_as_std_does() {
    for text in [
        "12", "+12", "-12", "0", "-0", "", "-", "+", "+-1", "-+1", " 1", "1 ", "2147483647", "2147483648",
        "-2147483648", "-2147483649", "4294967296", "-99999999999", "007", "1e3", "١",
    ] {
        assert_eq!(parse_i32_decimal(text), text.parse::<i32>().ok(), "{text:?}");
    }
}

#[test]
fn unchanged_form_keeps_settings_and_asks_only_for_pruning() {
    let (s, effects) = settings_collect_to_app(&settings(), settings(), &bare_form());
    assert_eq!(effects, no_effects());
    assert_eq!((s.show_mouse_dx, s.show_mouse_dy, s.show_fixed_x, s.show_fixed_y), (5, 6, 7, 8));
    assert_eq!(s.hotkey_mod, "Win");
    assert_eq!(s.cloud_remote_dir, "Clips");
    assert_eq!((s.last_window_x, s.last_window_y), (1, 2));
}

#[test]
fn bad_numbers_fall_back_to_defaults() {
    let mut form = bare_form();
    form.dx_text = "abc".to_string();
    form.dy_text = String::new();
    form.fx_text = "-40".to_string();
    form.fy_text = "99999999999".to_string();
    let (s, _) = settings_collect_to_app(&settings(), settings(), &form);
    assert_eq!((s.show_mouse_dx, s.show_mouse_dy, s.show_fixed_x, s.show_fixed_y), (12, 12, -40, 120));
}

#[test]
fn pages_give_their_values_with_fallbacks() {
    let mut form = bare_form();
    form.paste_sound_kind = Some("ding".to_string());
    form.hotkey = Some(HotkeyForm {
        hotkey_mod: "Alt".to_string(),
        hotkey_key: "C".to_string(),
        plain: Some(("Ctrl".to_string(), "B".to_string())),
    });
    form.plugin = Some(PluginForm {
        search_engine: "google".to_string(),
        engine_template: "https://google.com/?q={q}".to_string(),
        template_text: "   ".to_string(),
        ocr_provider: "cloud".to_string(),
        ocr_url_text: "https://new-ocr".to_string(),
        ocr_token_text: "new-tok".to_string(),
        translate_provider: "baidu".to_string(),
        translate_app_id_text: "app".to_string(),
        translate_secret_text: "secret".to_string(),
        translate_target: "zh".to_string(),
    });
    form.vv_source_tab = 1;
    form.vv_group_selected = 4;
    form.vv_group_ids = vec![3, 4];
    form.cloud_interval = Some(" ".to_string());
    form.cloud_dir = Some(String::new());
    form.cloud_user = Some("me".to_string());
    let (s, effects) = settings_collect_to_app(&settings(), settings(), &form);
    assert_eq!(s.paste_success_sound_kind, "ding");
    assert_eq!((s.hotkey_mod.as_str(), s.hotkey_key.as_str()), ("Alt", "C"));
    assert_eq!((s.plain_paste_hotkey_mod.as_str(), s.plain_paste_hotkey_key.as_str()), ("Ctrl", "B"));
    assert_eq!(s.search_engine, "google");
    assert_eq!(s.search_template, "https://google.com/?q={q}");
    assert_eq!(s.image_ocr_wechat_dir, "D:\\wx");
    assert_eq!((s.image_ocr_cloud_url.as_str(), s.image_ocr_cloud_token.as_str()), ("https://new-ocr", "new-tok"));
    assert_eq!((s.text_translate_app_id.as_str(), s.text_translate_secret.as_str()), ("app", "secret"));
    assert_eq!(s.text_translate_target_lang, "zh");
    assert_eq!((s.vv_source_tab, s.vv_group_id), (1, 4));
    assert_eq!(s.cloud_sync_interval, "1小时");
    assert_eq!(s.cloud_remote_dir, "ZSClip");
    assert_eq!(s.cloud_webdav_user, "me");
    assert_eq!(s.cloud_webdav_url, "https://dav");
    assert!(effects.register_hotkey);
    assert!(effects.register_plain_paste_hotkey);
}

#[test]
fn winocr_keeps_cloud_fields_and_unknown_groups_fall_back() {
    let mut form = bare_form();
    form.plugin = Some(PluginForm {
        search_engine: "bing".to_string(),
        engine_template: "https://bing.com/?q={q}".to_string(),
        template_text: "https://mine/?q={q}".to_string(),
        ocr_provider: "winocr".to_string(),
        ocr_url_text: "E:\\wechat".to_string(),
        ocr_token_text: "ignored".to_string(),
        translate_provider: "none".to_string(),
        translate_app_id_text: "ignored".to_string(),
        translate_secret_text: "ignored".to_string(),
        translate_target: "fr".to_string(),
    });
    form.vv_group_selected = 9;
    form.vv_group_ids = vec![1, 2];
    let (s, _) = settings_collect_to_app(&settings(), settings(), &form);
    assert_eq!(s.search_template, "https://mine/?q={q}");
    assert_eq!(s.image_ocr_wechat_dir, "E:\\wechat");
    assert_eq!((s.image_ocr_cloud_url.as_str(), s.image_ocr_cloud_token.as_str()), ("https://ocr", "tok"));
    assert_eq!(s.text_translate_app_id, "id");
    assert_eq!(s.text_translate_target_lang, "en");
    assert_eq!(s.vv_group_id, 0);
}

#[test]
fn switched_settings_ask_for_their_effects() {
    let mut draft = settings();
    draft.grouping_enabled = false;
    draft.auto_start = true;
    draft.tray_icon_enabled = false;
    draft.hotkey_enabled = false;
    draft.vv_mode_enabled = false;
    draft.persistent_search_box = true;
    draft.edge_auto_hide = true;
    let mut form = bare_form();
    form.max_items = 0;
    let (s, effects) = settings_collect_to_app(&settings(), draft, &form);
    assert_eq!((s.last_window_x, s.last_window_y), (300, 400));
    assert_eq!(
        effects,
        SettingsEffects {
            clear_group_filters: true,
            apply_autostart: true,
            sync_tray_icon: true,
            clear_selection: true,
            register_hotkey: true,
            register_plain_paste_hotkey: false,
            update_vv_hook: true,
            hide_vv_popup: true,
            prune_items: false,
            edge: EdgeSettingChange::StartTracking,
            prepare_search_box: true,
        }
    );

    let mut hidden_form = bare_form();
    hidden_form.window_visible = false;
    let mut edge_on = settings();
    edge_on.edge_auto_hide = true;
    let (_, effects) = settings_collect_to_app(&settings(), edge_on, &hidden_form);
    assert_eq!(effects.edge, EdgeSettingChange::Keep);
    let (s, effects) = settings_collect_to_app(&{
        let mut s = settings();
        s.edge_auto_hide = true;
        s
    }, settings(), &hidden_form);
    assert_eq!(effects.edge, EdgeSettingChange::RestoreHidden);
    assert_eq!((s.last_window_x, s.last_window_y), (1, 2));
}

fn shown(r: CloudStatusText) -> (bool, String) {
    match r {
        CloudStatusText::Text(s) => (true, s),
        CloudStatusText::Translate(s) => (false, s),
    }
}

#[test]
fn cloud_status_texts_follow_the_language() {
    assert_eq!(shown(localized_cloud_status_text("  ", true)), (true, "Not synced".to_string()));
    assert_eq!(shown(localized_cloud_status_text(" 未同步 ", false)), (true, "未同步".to_string()));
    assert_eq!(shown(localized_cloud_status_text("失败：网络错误", true)), (true, "Failed: 网络错误".to_string()));
    assert_eq!(shown(localized_cloud_status_text(" 失败：timeout ", false)), (true, "失败：timeout".to_string()));
    assert_eq!(shown(localized_cloud_status_text(" 已同步 ", true)), (false, "已同步".to_string()));
}

#[test]
fn data_stays_beside_a_portable_or_older_install() {
    assert_eq!(data_dir_choice(true, false, false, true), DataDirChoice::BesideProgram);
    assert_eq!(data_dir_choice(false, true, false, true), DataDirChoice::BesideProgram);
    assert_eq!(data_dir_choice(false, false, true, false), DataDirChoice::BesideProgram);
    assert_eq!(data_dir_choice(false, false, false, true), DataDirChoice::LocalAppData);
    assert_eq!(data_dir_choice(false, false, false, false), DataDirChoice::Fallback);
}
