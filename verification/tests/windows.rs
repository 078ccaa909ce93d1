use zsclip::geometry::{hiword, hit_test_row, inflate_rect, loword, pt_in_rect, pt_in_rect_screen, ListLayout, Point, Rect};
use zsclip::hosts::{
    clear_window_host, is_app_window, main_window_hwnd, quick_window_hwnd, set_window_host,
    window_host_hwnds, window_host_hwnds_try, WindowHosts, WindowRole,
};
use zsclip::vv::{
    vv_accessible_caret_anchor, vv_anchor_within, vv_caret_bottom, vv_choose_anchor, vv_choose_overlay_edge,
    vv_cursor_anchor, vv_digit_index_from_vk, vv_focus_rect_anchor, vv_imm_point_anchor_is_plausible,
    vv_is_modifier_vk, vv_popup_group_rect, vv_popup_height, vv_popup_position, vv_popup_row_rect,
    vv_popup_resolved_group_id, vv_rect_has_area, vv_rect_has_point, vv_target_is_ignored, vv_thread_caret_anchor,
    VvOverlayAnchor, VV_POPUP_W,
};

#[test]
fn points_in_rectangles_exclude_the_far_edges() {
    let rc = Rect { left: 0, top: 0, right: 10, bottom: 5 };
    assert!(pt_in_rect(0, 0, &rc));
    assert!(pt_in_rect(9, 4, &rc));
    assert!(!pt_in_rect(10, 4, &rc));
    assert!(!pt_in_rect(9, 5, &rc));
    assert!(pt_in_rect_screen(&Point { x: 3, y: 3 }, &rc));
    assert_eq!(inflate_rect(&rc, 2, 1), Rect { left: -2, top: -1, right: 12, bottom: 6 });
    assert_eq!(loword(0x1234_5678), 0x5678);
    assert_eq!(hiword(0x1234_5678), 0x1234);
}

#[test]
fn rows_are_hit_by_their_offset() {
    let layout = ListLayout { list_x: 0, list_y: 100, list_w: 300, list_h: 400, list_pad: 4, row_h: 40 };
    assert_eq!(hit_test_row(&layout, 0, 10, 50, 104), 0);
    assert_eq!(hit_test_row(&layout, 0, 10, 50, 143), 0);
    assert_eq!(hit_test_row(&layout, 0, 10, 50, 144), 1);
    assert_eq!(hit_test_row(&layout, 80, 10, 50, 104), 2);
    // beyond the last row, or outside the list
    assert_eq!(hit_test_row(&layout, 0, 2, 50, 250), -1);
    assert_eq!(hit_test_row(&layout, 0, 10, 2, 150), -1);
    // a negative scroll near the top truncates toward zero
    assert_eq!(hit_test_row(&layout, -20, 10, 50, 104), 0);
    assert_eq!(hit_test_row(&layout, -60, 10, 50, 104), -1);
}

#[test]
fn window_hosts_register_and_clear() {
    let mut hosts = WindowHosts::default();
    assert_eq!(window_host_hwnds(Some(&hosts)), [0, 0]);
    set_window_host(&mut hosts, WindowRole::Main, 11);
    set_window_host(&mut hosts, WindowRole::Quick, 22);
    assert_eq!(window_host_hwnds(Some(&hosts)), [11, 22]);
    assert_eq!(window_host_hwnds_try(Some(&hosts)), [11, 22]);
    assert_eq!(window_host_hwnds(None), [0, 0]);
    assert!(is_app_window(Some(&hosts), 22));
    assert!(!is_app_window(Some(&hosts), 33));
    assert!(!is_app_window(Some(&hosts), 0));
    assert!(!is_app_window(None, 11));
    assert_eq!(main_window_hwnd(Some(&hosts)), 11);
    assert_eq!(quick_window_hwnd(Some(&hosts)), 22);
    // clearing another handle leaves a newer window registered
    clear_window_host(&mut hosts, WindowRole::Main, 99);
    assert_eq!(main_window_hwnd(Some(&hosts)), 11);
    clear_window_host(&mut hosts, WindowRole::Main, 11);
    assert_eq!(main_window_hwnd(Some(&hosts)), 0);
    assert_eq!(quick_window_hwnd(Some(&hosts)), 22);
    assert_eq!(main_window_hwnd(None), 0);
}

#[test]
fn window_roles_round_trip_their_creation_parameter() {
    for role in [WindowRole::Main, WindowRole::Quick] {
        assert_eq!(WindowRole::from_create_param(role.create_param()), role);
    }
    assert_eq!(WindowRole::from_create_param(7), WindowRole::Main);
    assert_eq!(WindowRole::Main.class_name(), "ZsClipMain");
    assert_eq!(WindowRole::Quick.class_name(), "ZsClipQuick");
}

const WA: Rect = Rect { left: 0, top: 0, right: 1920, bottom: 1040 };

fn anchor(left: i32, edge_y: i32, exact: bool) -> VvOverlayAnchor {
    VvOverlayAnchor { left, edge_y, align_bottom: false, exact_rect: exact }
}

#[test]
fn popup_goes_above_only_when_below_is_short_and_above_is_longer() {
    assert_eq!(vv_choose_overlay_edge(100, 120, 300, &WA), (120, false));
    assert_eq!(vv_choose_overlay_edge(900, 920, 300, &WA), (900, true));
    // little room below but even less above
    assert_eq!(vv_choose_overlay_edge(30, 1000, 300, &WA), (1000, false));
}

#[test]
fn popup_rows_and_height() {
    assert_eq!(vv_popup_height(0), 58 + 20 + 30);
    assert_eq!(vv_popup_height(9), 58 + 20 + 270);
    assert_eq!(vv_popup_row_rect(2), Rect { left: 12, top: 128, right: 348, bottom: 156 });
    assert_eq!(vv_popup_group_rect(), Rect { left: 210, top: 10, right: 346, bottom: 34 });
    assert!(vv_rect_has_area(&Rect { left: 0, top: 0, right: 1, bottom: 1 }));
    assert!(!vv_rect_has_area(&Rect { left: 0, top: 0, right: 0, bottom: 1 }));
    assert!(vv_rect_has_point(&Rect { left: 0, top: 0, right: 0, bottom: 1 }));
    assert!(!vv_rect_has_point(&Rect { left: 0, top: 0, right: 0, bottom: 0 }));
}

#[test]
fn digit_and_modifier_keys() {
    assert_eq!(vv_digit_index_from_vk(0x31), Some(0));
    assert_eq!(vv_digit_index_from_vk(0x39), Some(8));
    assert_eq!(vv_digit_index_from_vk(0x30), None);
    assert_eq!(vv_digit_index_from_vk(0x61), Some(0));
    assert_eq!(vv_digit_index_from_vk(0x69), Some(8));
    assert_eq!(vv_digit_index_from_vk(0x60), None);
    assert!(vv_is_modifier_vk(0x10));
    assert!(vv_is_modifier_vk(0x5C));
    assert!(!vv_is_modifier_vk(0x41));
}

#[test]
fn input_method_points_must_lie_near_the_caret() {
    let caret = anchor(500, 300, true);
    let focus = anchor(480, 290, true);
    assert!(vv_anchor_within(&anchor(600, 400, false), &caret, 120, 180));
    assert!(!vv_anchor_within(&anchor(621, 300, false), &caret, 120, 180));
    assert!(vv_imm_point_anchor_is_plausible(&anchor(5000, 5000, true), Some(&caret), Some(&focus)));
    assert!(vv_imm_point_anchor_is_plausible(&anchor(620, 480, false), Some(&caret), None));
    // too far from the caret, but within the wider reach of the focused control
    assert!(vv_imm_point_anchor_is_plausible(&anchor(650, 500, false), Some(&caret), Some(&focus)));
    assert!(!vv_imm_point_anchor_is_plausible(&anchor(650, 500, false), Some(&caret), None));
    assert!(!vv_imm_point_anchor_is_plausible(&anchor(900, 900, false), None, Some(&focus)));
    assert!(vv_imm_point_anchor_is_plausible(&anchor(900, 900, false), None, None));
}

#[test]
fn anchors_from_carets_controls_and_the_cursor() {
    let caret = Rect { left: 40, top: 900, right: 42, bottom: 920 };
    assert_eq!(
        vv_accessible_caret_anchor(Some(caret), 300, &WA),
        Some(VvOverlayAnchor { left: 40, edge_y: 900, align_bottom: true, exact_rect: true })
    );
    assert_eq!(vv_accessible_caret_anchor(Some(Rect { left: 1, top: 1, right: 1, bottom: 5 }), 300, &WA), None);
    assert_eq!(vv_caret_bottom(&Rect { left: 0, top: 10, right: 2, bottom: 10 }), 34);
    assert_eq!(vv_caret_bottom(&Rect { left: 0, top: 10, right: 2, bottom: 30 }), 30);
    assert_eq!(
        vv_thread_caret_anchor(&Point { x: 5, y: 100 }, &Point { x: 5, y: 120 }, 300, &WA),
        VvOverlayAnchor { left: 5, edge_y: 120, align_bottom: false, exact_rect: true }
    );
    assert_eq!(vv_focus_rect_anchor(Some(Rect { left: 10, top: 10, right: 200, bottom: 300 }), 300, &WA), None);
    assert_eq!(
        vv_focus_rect_anchor(Some(Rect { left: 10, top: 10, right: 200, bottom: 40 }), 300, &WA),
        Some(VvOverlayAnchor { left: 10, edge_y: 40, align_bottom: false, exact_rect: true })
    );
    assert_eq!(
        vv_cursor_anchor(Some(Point { x: 7, y: 8 }), 300, &WA),
        Some(VvOverlayAnchor { left: 7, edge_y: 8, align_bottom: false, exact_rect: false })
    );
    assert_eq!(vv_cursor_anchor(None, 300, &WA), None);
}

#[test]
fn the_trusted_anchor_is_chosen_and_the_popup_kept_on_screen() {
    let imm = anchor(5000, 5000, false);
    let caret = anchor(500, 300, true);
    let cursor = anchor(1, 1, false);
    assert_eq!(vv_choose_anchor(Some(imm), Some(caret), None, Some(cursor)), Some(caret));
    assert_eq!(vv_choose_anchor(Some(caret), None, None, Some(cursor)), Some(caret));
    assert_eq!(vv_choose_anchor(None, None, None, Some(cursor)), Some(cursor));
    assert_eq!(vv_choose_anchor(None, None, None, None), None);

    assert_eq!(vv_popup_position(&anchor(1800, 1000, false), 300, &WA), (1920 - VV_POPUP_W, 740));
    let above = VvOverlayAnchor { left: -50, edge_y: 200, align_bottom: true, exact_rect: true };
    assert_eq!(vv_popup_position(&above, 300, &WA), (0, 0));
}

use zsclip::geometry::{current_scroll_anchor, restore_scroll_anchor, row_inline_preview_rect, row_shows_delete_button, row_text_right_padding, scroll_to_top_visible};
use zsclip::vv::{
    quick_escape_route, update_vv_mode_state, vv_keyboard_hook_decide, QuickEscapeRoute, VvHookDecision,
    VvHookMessage, VvHookState, VvKeyEvent,
};

fn hook() -> VvHookState {
    VvHookState {
        enabled: true,
        main_hwnd: 1,
        popup_active: false,
        popup_target: 0,
        popup_menu_active: false,
        popup_menu_grace_until: None,
        last_was_v: false,
        last_v_target: 0,
        last_v_at: None,
    }
}

fn key(vk: u32, now: u64) -> VvKeyEvent {
    VvKeyEvent { vk, injected: false, foreground: 50, foreground_ignored: false, has_modifier: false, now }
}

const PASS: VvHookDecision = VvHookDecision { message: None, swallow: false };

#[test]
fn double_v_opens_the_popup_and_a_digit_picks() {
    let mut s = hook();
    assert_eq!(vv_keyboard_hook_decide(&mut s, &key(0x56, 1000)), PASS);
    assert!(s.last_was_v);
    assert_eq!(
        vv_keyboard_hook_decide(&mut s, &key(0x56, 1300)),
        VvHookDecision { message: Some(VvHookMessage::Show(50)), swallow: false }
    );
    // the main window opens the popup for the target
    s.popup_active = true;
    s.popup_target = 50;
    assert_eq!(
        vv_keyboard_hook_decide(&mut s, &key(0x33, 1400)),
        VvHookDecision { message: Some(VvHookMessage::Select(2)), swallow: true }
    );
    assert!(!s.popup_active);
}

#[test]
fn slow_or_interrupted_v_presses_do_not_open_the_popup() {
    let mut s = hook();
    vv_keyboard_hook_decide(&mut s, &key(0x56, 1000));
    assert_eq!(vv_keyboard_hook_decide(&mut s, &key(0x56, 1301)), PASS);
    assert_eq!(s.last_v_at, Some(1301));
    vv_keyboard_hook_decide(&mut s, &key(0x41, 1350));
    assert!(!s.last_was_v);
    assert_eq!(vv_keyboard_hook_decide(&mut s, &key(0x56, 1400)), PASS);
    // a modifier key in between keeps the memory; a held modifier clears it
    vv_keyboard_hook_decide(&mut s, &key(0x10, 1450));
    assert!(s.last_was_v);
    let mut with_ctrl = key(0x56, 1500);
    with_ctrl.has_modifier = true;
    assert_eq!(vv_keyboard_hook_decide(&mut s, &with_ctrl), PASS);
    assert!(!s.last_was_v);
}

#[test]
fn open_popup_closes_on_other_keys_and_windows() {
    let mut s = hook();
    s.popup_active = true;
    s.popup_target = 50;
    assert_eq!(
        vv_keyboard_hook_decide(&mut s, &key(0x1B, 0)),
        VvHookDecision { message: Some(VvHookMessage::Hide), swallow: true }
    );
    s.popup_active = true;
    s.popup_target = 60;
    assert_eq!(
        vv_keyboard_hook_decide(&mut s, &key(0x41, 0)),
        VvHookDecision { message: Some(VvHookMessage::Hide), swallow: false }
    );
    assert!(!s.popup_active);
    // while the popup's menu is open every key passes
    s.popup_active = true;
    s.popup_target = 50;
    s.popup_menu_grace_until = Some(900);
    assert_eq!(vv_keyboard_hook_decide(&mut s, &key(0x1B, 100)), PASS);
    assert!(s.popup_active);
    // injected keys pass untouched
    let before = s;
    let mut injected = key(0x31, 2000);
    injected.injected = true;
    assert_eq!(vv_keyboard_hook_decide(&mut s, &injected), PASS);
    assert_eq!(s, before);
    update_vv_mode_state(&mut s, 7, false);
    assert!(!s.popup_active && !s.enabled && s.main_hwnd == 7 && s.popup_menu_grace_until.is_none());
    assert_eq!(vv_keyboard_hook_decide(&mut s, &key(0x56, 0)), PASS);
}

#[test]
fn escape_and_ctrl_f_reach_the_program_windows() {
    assert_eq!(quick_escape_route(0x1B, false, false, true, true), QuickEscapeRoute::Quick);
    assert_eq!(quick_escape_route(0x1B, false, false, false, true), QuickEscapeRoute::Main);
    assert_eq!(quick_escape_route(0x46, false, true, false, true), QuickEscapeRoute::Main);
    assert_eq!(quick_escape_route(0x46, false, false, true, true), QuickEscapeRoute::Pass);
    assert_eq!(quick_escape_route(0x1B, true, false, true, true), QuickEscapeRoute::Pass);
    assert_eq!(quick_escape_route(0x1B, false, false, false, false), QuickEscapeRoute::Pass);
}

#[test]
fn the_scroll_anchor_keeps_the_top_item_in_place() {
    let ids = vec![11, 12, 13, 14];
    assert_eq!(current_scroll_anchor(40, 95, &ids), Some((13, 15)));
    assert_eq!(restore_scroll_anchor(40, Some((13, 15)), &ids), Some(95));
    // after a new item arrives on top, the anchored item moves down a row
    let grown = vec![10, 11, 12, 13, 14];
    assert_eq!(restore_scroll_anchor(40, Some((13, 15)), &grown), Some(135));
    assert_eq!(restore_scroll_anchor(40, Some((99, 15)), &grown), None);
    assert_eq!(restore_scroll_anchor(40, None, &grown), None);
    assert_eq!(current_scroll_anchor(40, 400, &ids), None);
    assert_eq!(current_scroll_anchor(40, -30, &ids), Some((11, -30)));
    assert_eq!(current_scroll_anchor(0, 2, &ids), Some((13, 0)));
    assert_eq!(current_scroll_anchor(40, 0, &vec![0, 5]), None);
}

#[test]
fn row_decorations() {
    assert!(row_shows_delete_button(true, 3, 3));
    assert!(!row_shows_delete_button(true, 3, 4));
    assert!(!row_shows_delete_button(false, 3, 3));
    assert_eq!(row_text_right_padding(44, true), 42);
    assert_eq!(row_text_right_padding(60, true), 54);
    assert_eq!(row_text_right_padding(44, false), 18);
    assert_eq!(row_text_right_padding(55, false), 22);
    let row = Rect { left: 10, top: 100, right: 300, bottom: 144 };
    assert_eq!(row_inline_preview_rect(&row, true), Some(Rect { left: 12, top: 104, right: 48, bottom: 140 }));
    let thin = Rect { left: 0, top: 0, right: 100, bottom: 20 };
    assert_eq!(row_inline_preview_rect(&thin, true), Some(Rect { left: 2, top: -2, right: 26, bottom: 22 }));
    assert_eq!(row_inline_preview_rect(&row, false), None);
    assert!(scroll_to_top_visible(41, 40));
    assert!(!scroll_to_top_visible(40, 40));
}

#[test]
fn popup_targets_exclude_the_programs_own_windows() {
    assert!(vv_target_is_ignored(0, 10, 20, false));
    assert!(vv_target_is_ignored(10, 10, 20, false));
    assert!(vv_target_is_ignored(20, 10, 20, false));
    assert!(vv_target_is_ignored(30, 10, 20, true));
    assert!(!vv_target_is_ignored(30, 10, 20, false));
}

#[test]
fn popup_group_falls_back_to_all_items() {
    assert_eq!(vv_popup_resolved_group_id(3, &[1, 3, 5]), 3);
    assert_eq!(vv_popup_resolved_group_id(4, &[1, 3, 5]), 0);
    assert_eq!(vv_popup_resolved_group_id(0, &[0, 1]), 0);
    assert_eq!(vv_popup_resolved_group_id(-1, &[-1]), 0);
    assert_eq!(vv_popup_resolved_group_id(7, &[]), 0);
}

#[test]
fn popup_placement_far_out_on_the_virtual_screen() {
    let wa = Rect { left: 1_500_000_000, top: 0, right: 1_500_001_920, bottom: 1040 };
    let a = VvOverlayAnchor { left: 1_500_001_800, edge_y: 1000, align_bottom: false, exact_rect: true };
    assert_eq!(vv_popup_position(&a, 300, &wa), (1_500_001_920 - VV_POPUP_W, 740));
}
