use zsclip::geometry::{Point, Rect};
use zsclip::hosts::WindowRole;
use zsclip::outside::{
    any_visible_window_requires_quick_escape_try, handle_outside_hide_tick, screen_point_hits_window_scope,
    should_ignore_outside_click_for_point, window_needs_edge_auto_hide_timer, window_needs_outside_hide_timer,
    HostWindowState, OutsideHideAction,
};

fn quick() -> HostWindowState {
    HostWindowState {
        exists: true,
        visible: true,
        has_state: true,
        role: WindowRole::Quick,
        noactivate: false,
        auto_hide_on_blur: true,
        edge_auto_hide: true,
        settings_visible: false,
    }
}

fn main_window() -> HostWindowState {
    HostWindowState { role: WindowRole::Main, ..quick() }
}

#[test]
fn outside_hide_timer_runs_for_floating_windows() {
    assert!(window_needs_outside_hide_timer(&quick()));
    assert!(!window_needs_outside_hide_timer(&main_window()));
    assert!(window_needs_outside_hide_timer(&HostWindowState { noactivate: true, ..main_window() }));
    assert!(!window_needs_outside_hide_timer(&HostWindowState { auto_hide_on_blur: false, ..quick() }));
    assert!(!window_needs_outside_hide_timer(&HostWindowState { visible: false, ..quick() }));
    assert!(!window_needs_outside_hide_timer(&HostWindowState { exists: false, ..quick() }));
    assert!(!window_needs_outside_hide_timer(&HostWindowState { has_state: false, ..quick() }));
}

#[test]
fn edge_timer_runs_without_settings_window() {
    assert!(window_needs_edge_auto_hide_timer(&main_window()));
    assert!(!window_needs_edge_auto_hide_timer(&HostWindowState { settings_visible: true, ..main_window() }));
    assert!(!window_needs_edge_auto_hide_timer(&HostWindowState { edge_auto_hide: false, ..main_window() }));
    assert!(!window_needs_edge_auto_hide_timer(&HostWindowState { visible: false, ..main_window() }));
}

#[test]
fn escape_hook_follows_visible_floating_windows() {
    assert!(any_visible_window_requires_quick_escape_try(&[main_window(), quick()]));
    assert!(!any_visible_window_requires_quick_escape_try(&[main_window(), HostWindowState { visible: false, ..quick() }]));
    assert!(any_visible_window_requires_quick_escape_try(&[HostWindowState { noactivate: true, ..main_window() }]));
    assert!(!any_visible_window_requires_quick_escape_try(&[HostWindowState { has_state: false, ..quick() }]));
    assert!(!any_visible_window_requires_quick_escape_try(&[]));
}

#[test]
fn outside_hide_tick_hides_on_clicks_elsewhere() {
    assert_eq!(handle_outside_hide_tick(&quick(), false, false, true), OutsideHideAction::Hide);
    assert_eq!(handle_outside_hide_tick(&quick(), false, false, false), OutsideHideAction::Nothing);
    assert_eq!(handle_outside_hide_tick(&quick(), false, true, true), OutsideHideAction::Nothing);
    assert_eq!(handle_outside_hide_tick(&quick(), true, false, true), OutsideHideAction::Nothing);
    assert_eq!(handle_outside_hide_tick(&main_window(), false, false, true), OutsideHideAction::Nothing);
    assert_eq!(
        handle_outside_hide_tick(&HostWindowState { auto_hide_on_blur: false, ..quick() }, false, false, true),
        OutsideHideAction::StopTimer
    );
    assert_eq!(
        handle_outside_hide_tick(&HostWindowState { visible: false, ..quick() }, false, false, true),
        OutsideHideAction::Nothing
    );
}

#[test]
fn hidden_windows_are_those_with_the_timer() {
    for bits in 0u32..256 {
        let w = HostWindowState {
            exists: true,
            visible: bits & 1 != 0,
            has_state: bits & 2 != 0,
            role: if bits & 4 != 0 { WindowRole::Quick } else { WindowRole::Main },
            noactivate: bits & 8 != 0,
            auto_hide_on_blur: bits & 16 != 0,
            edge_auto_hide: bits & 32 != 0,
            settings_visible: bits & 64 != 0,
        };
        if handle_outside_hide_tick(&w, false, false, bits & 128 != 0) == OutsideHideAction::Hide {
            assert!(window_needs_outside_hide_timer(&w));
            assert!(any_visible_window_requires_quick_escape_try(&[w]));
        }
    }
}

#[test]
fn clicks_on_the_programs_windows_are_not_clicks_elsewhere() {
    let rect = Rect { left: 100, top: 100, right: 400, bottom: 700 };
    let inside = Point { x: 150, y: 200 };
    let outside = Point { x: 50, y: 200 };
    assert!(screen_point_hits_window_scope(true, true, &inside, &rect, false));
    assert!(!screen_point_hits_window_scope(true, true, &outside, &rect, false));
    assert!(screen_point_hits_window_scope(true, true, &outside, &rect, true));
    assert!(!screen_point_hits_window_scope(true, false, &inside, &rect, true));
    assert!(!screen_point_hits_window_scope(false, true, &inside, &rect, true));
    assert!(!screen_point_hits_window_scope(true, true, &Point { x: 400, y: 200 }, &rect, false));

    assert!(should_ignore_outside_click_for_point(true, &[]));
    assert!(should_ignore_outside_click_for_point(false, &[false, true]));
    assert!(!should_ignore_outside_click_for_point(false, &[false, false]));
    assert!(!should_ignore_outside_click_for_point(false, &[]));

    let ignored = should_ignore_outside_click_for_point(
        false,
        &[screen_point_hits_window_scope(true, true, &inside, &rect, false)],
    );
    assert_eq!(handle_outside_hide_tick(&quick(), false, ignored, true), OutsideHideAction::Nothing);
}
