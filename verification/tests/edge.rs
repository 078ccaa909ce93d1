use zsclip::edge::{
    clear_edge_dock_state, edge_auto_hide_peek, edge_auto_hide_timer_interval, edge_detect_margin_h,
    edge_detect_margin_v, edge_choose_dock_side, edge_grace_active,
    edge_hidden_position, edge_hotzone_rect, edge_interaction_grace_ms, edge_side_valid,
    ensure_edge_dock_state, handle_edge_auto_hide_tick, hide_edge_docked_window_with_scope,
    note_window_moved_for_edge_hide, restore_edge_hidden_window, EdgeAnimation, EdgeDockState, EdgeScene,
    EdgeTickAction, EdgeTickInput, EDGE_AUTO_HIDE_ANIM_TIMER_MS, EDGE_AUTO_HIDE_BOTTOM,
    EDGE_AUTO_HIDE_LEFT, EDGE_AUTO_HIDE_NONE, EDGE_AUTO_HIDE_RIGHT, EDGE_AUTO_HIDE_TIMER_MS,
    EDGE_AUTO_HIDE_TOP,
};
use zsclip::geometry::{Point, Rect};

fn rect(left: i32, top: i32, right: i32, bottom: i32) -> Rect {
    Rect { left, top, right, bottom }
}

fn shown() -> EdgeDockState {
    EdgeDockState {
        edge_hidden: false,
        edge_hidden_side: EDGE_AUTO_HIDE_NONE,
        edge_docked_left: 0,
        edge_docked_top: 0,
        edge_docked_right: 0,
        edge_docked_bottom: 0,
        edge_hide_armed: false,
        edge_hide_pending_until: None,
        edge_hide_grace_until: None,
        edge_restore_wait_leave: false,
        edge_anim_until: None,
        edge_restore_x: 0,
        edge_restore_y: 0,
        edge_anim_from_x: 0,
        edge_anim_from_y: 0,
        edge_anim_to_x: 0,
        edge_anim_to_y: 0,
    }
}

const WORK: Rect = Rect { left: 0, top: 0, right: 1920, bottom: 1040 };
const MONITOR: Rect = Rect { left: 0, top: 0, right: 1920, bottom: 1080 };

fn scene(dock_rect: Rect) -> EdgeScene {
    EdgeScene { dock_rect, work: WORK, monitor: MONITOR, margin_v: 12, margin_h: 24, peek: 6 }
}

#[test]
fn sides_and_grace() {
    assert!(edge_side_valid(EDGE_AUTO_HIDE_LEFT));
    assert!(edge_side_valid(EDGE_AUTO_HIDE_BOTTOM));
    assert!(!edge_side_valid(EDGE_AUTO_HIDE_NONE));
    assert!(!edge_side_valid(4));
    assert_eq!(edge_interaction_grace_ms(), 0);
}

#[test]
fn nearest_edge_within_its_margin_is_chosen() {
    // 10 px from the left: docks left in the work area (first on a tie with the monitor)
    assert_eq!(
        edge_choose_dock_side(&rect(10, 300, 410, 800), &WORK, &MONITOR, 12, 24),
        Some((EDGE_AUTO_HIDE_LEFT, WORK))
    );
    // at the top and 20 px from the right: the top is nearer
    assert_eq!(
        edge_choose_dock_side(&rect(1500, 0, 1900, 500), &WORK, &MONITOR, 12, 24),
        Some((EDGE_AUTO_HIDE_TOP, WORK))
    );
    // touching the monitor's bottom, 40 px below the work area: docks at the monitor
    assert_eq!(
        edge_choose_dock_side(&rect(500, 700, 900, 1080), &WORK, &MONITOR, 12, 24),
        Some((EDGE_AUTO_HIDE_BOTTOM, MONITOR))
    );
    // far from every edge
    assert_eq!(edge_choose_dock_side(&rect(500, 300, 900, 700), &WORK, &MONITOR, 12, 24), None);
    // 13 px from the top is beyond the vertical margin, 20 px from the left within the horizontal one
    assert_eq!(
        edge_choose_dock_side(&rect(20, 13, 420, 500), &WORK, &MONITOR, 12, 24),
        Some((EDGE_AUTO_HIDE_LEFT, WORK))
    );
}

#[test]
fn docking_keeps_the_restore_position() {
    let mut s = shown();
    assert!(ensure_edge_dock_state(&mut s, &rect(1510, 100, 1910, 500), &WORK, &MONITOR, 12, 24));
    assert_eq!(s.edge_hidden_side, EDGE_AUTO_HIDE_RIGHT);
    assert_eq!((s.edge_docked_left, s.edge_docked_right), (0, 1920));
    assert_eq!((s.edge_restore_x, s.edge_restore_y), (1510, 100));
    // already docked: nothing changes
    let before = s;
    assert!(ensure_edge_dock_state(&mut s, &rect(800, 400, 900, 500), &WORK, &MONITOR, 12, 24));
    assert_eq!(s, before);
    clear_edge_dock_state(&mut s);
    assert_eq!(s.edge_hidden_side, EDGE_AUTO_HIDE_NONE);
    assert!(!s.edge_hidden);
}

#[test]
fn hot_zone_runs_along_the_docked_edge() {
    let mut s = shown();
    s.edge_hidden_side = EDGE_AUTO_HIDE_LEFT;
    s.edge_docked_right = 1920;
    s.edge_docked_bottom = 1040;
    assert_eq!(edge_hotzone_rect(&s, &MONITOR, 12), Some(rect(0, 0, 12, 1040)));
    s.edge_hidden_side = EDGE_AUTO_HIDE_BOTTOM;
    assert_eq!(edge_hotzone_rect(&s, &MONITOR, 12), Some(rect(0, 1068, 1920, 1080)));
    s.edge_hidden_side = EDGE_AUTO_HIDE_NONE;
    assert_eq!(edge_hotzone_rect(&s, &MONITOR, 12), None);
}

#[test]
fn hidden_window_leaves_a_peek_strip() {
    let mut s = shown();
    s.edge_docked_right = 1920;
    s.edge_docked_bottom = 1040;
    s.edge_restore_x = 5000;
    s.edge_restore_y = 300;
    let rc = rect(0, 300, 400, 800);
    s.edge_hidden_side = EDGE_AUTO_HIDE_LEFT;
    assert_eq!(edge_hidden_position(&s, &rc, &MONITOR, 6), Some((6 - 400, 300)));
    s.edge_hidden_side = EDGE_AUTO_HIDE_RIGHT;
    assert_eq!(edge_hidden_position(&s, &rc, &MONITOR, 6), Some((1914, 300)));
    s.edge_hidden_side = EDGE_AUTO_HIDE_TOP;
    // the restore x is held within the dock area
    assert_eq!(edge_hidden_position(&s, &rc, &MONITOR, 6), Some((1520, 6 - 500)));
    s.edge_hidden_side = EDGE_AUTO_HIDE_BOTTOM;
    assert_eq!(edge_hidden_position(&s, &rc, &MONITOR, 6), Some((1520, 1074)));
}

#[test]
fn hiding_then_restoring_returns_to_the_same_place() {
    let mut s = shown();
    let at = rect(3, 200, 403, 700);
    let cursor = Point { x: 900, y: 500 };
    let hide = hide_edge_docked_window_with_scope(&mut s, true, true, false, &cursor, &scene(at), 1000);
    assert_eq!(hide, Some(EdgeAnimation { from_x: 3, from_y: 200, to_x: 6 - 400, to_y: 200 }));
    assert!(s.edge_hidden);
    assert_eq!(s.edge_anim_until, Some(1180));
    s.edge_anim_until = None;
    let back = restore_edge_hidden_window(&mut s, 2000, &rect(-394, 200, 6, 700));
    assert_eq!(back, Some(EdgeAnimation { from_x: -394, from_y: 200, to_x: 3, to_y: 200 }));
    assert!(!s.edge_hidden);
    assert_eq!(s.edge_hide_grace_until, Some(2450));
    assert!(edge_grace_active(&s, 2449));
    assert!(!edge_grace_active(&s, 2450));
    // a shown window is not restored again
    assert_eq!(restore_edge_hidden_window(&mut s, 3000, &at), None);
}

#[test]
fn hiding_is_refused_when_disabled_or_the_cursor_is_inside() {
    let mut s = shown();
    let at = rect(3, 200, 403, 700);
    let cursor = Point { x: 100, y: 300 };
    assert_eq!(hide_edge_docked_window_with_scope(&mut s, false, true, true, &cursor, &scene(at), 0), None);
    assert_eq!(s, shown());
    assert_eq!(hide_edge_docked_window_with_scope(&mut s, true, true, true, &cursor, &scene(at), 0), None);
    assert!(!s.edge_hidden);
    // far from any edge: nothing to dock at
    let mut t = shown();
    let middle = rect(600, 300, 900, 600);
    assert_eq!(hide_edge_docked_window_with_scope(&mut t, true, false, false, &cursor, &scene(middle), 0), None);
    assert_eq!(t.edge_hidden_side, EDGE_AUTO_HIDE_NONE);
}

fn tick(s: &mut EdgeDockState, now: u64, cursor: Point, inside: bool, at: Rect) -> EdgeTickAction {
    let input = EdgeTickInput { now, enabled: true, cursor, cursor_in_scope: inside, scene: scene(at) };
    handle_edge_auto_hide_tick(s, &input)
}

#[test]
fn ticks_arm_wait_and_hide() {
    let mut s = shown();
    let at = rect(3, 200, 403, 700);
    let away = Point { x: 1000, y: 500 };
    // not armed yet: nothing happens
    assert_eq!(tick(&mut s, 0, away, false, at), EdgeTickAction::Idle);
    assert!(!s.edge_hide_armed);
    // the cursor passes over the window: armed
    assert_eq!(tick(&mut s, 10, Point { x: 100, y: 300 }, true, at), EdgeTickAction::Idle);
    assert!(s.edge_hide_armed);
    // the cursor leaves: a hide is scheduled 650 ms later
    assert_eq!(tick(&mut s, 100, away, false, at), EdgeTickAction::Idle);
    assert_eq!(s.edge_hide_pending_until, Some(750));
    assert_eq!(tick(&mut s, 749, away, false, at), EdgeTickAction::Idle);
    assert!(!s.edge_hidden);
    // time is up: it hides
    match tick(&mut s, 750, away, false, at) {
        EdgeTickAction::Hide { animation: Some(a) } => assert_eq!((a.to_x, a.to_y), (6 - 400, 200)),
        other => panic!("expected a hide, got {other:?}"),
    }
    assert!(s.edge_hidden);
    // while it slides the caller steps the animation
    assert_eq!(tick(&mut s, 800, away, false, at), EdgeTickAction::StepAnimation);
    s.edge_anim_until = None;
    // the cursor in the hot zone brings it back
    match tick(&mut s, 900, Point { x: 2, y: 400 }, false, rect(-394, 200, 6, 700)) {
        EdgeTickAction::Restore { slide, repaint } => {
            assert!(repaint);
            assert_eq!((slide.to_x, slide.to_y), (3, 200));
        }
        other => panic!("expected a restore, got {other:?}"),
    }
    assert!(!s.edge_hidden);
}

#[test]
fn hiding_with_the_cursor_in_the_hot_zone_waits_for_it_to_leave() {
    let mut s = shown();
    let at = rect(3, 200, 403, 700);
    let in_hot = Point { x: 5, y: 400 };
    assert!(hide_edge_docked_window_with_scope(&mut s, true, false, false, &in_hot, &scene(at), 0).is_some());
    assert!(s.edge_restore_wait_leave);
    s.edge_anim_until = None;
    let hidden_at = rect(-394, 200, 6, 700);
    assert_eq!(tick(&mut s, 10, in_hot, false, hidden_at), EdgeTickAction::Idle);
    assert!(s.edge_hidden);
    assert_eq!(tick(&mut s, 20, Point { x: 500, y: 400 }, false, hidden_at), EdgeTickAction::Idle);
    assert!(!s.edge_restore_wait_leave);
    assert!(matches!(tick(&mut s, 30, in_hot, false, hidden_at), EdgeTickAction::Restore { .. }));
}

#[test]
fn turning_edge_hiding_off_shows_and_forgets() {
    let mut s = shown();
    let at = rect(3, 200, 403, 700);
    hide_edge_docked_window_with_scope(&mut s, true, false, false, &Point { x: 900, y: 0 }, &scene(at), 0);
    s.edge_anim_until = None;
    let input = EdgeTickInput {
        now: 50,
        enabled: false,
        cursor: Point { x: 0, y: 0 },
        cursor_in_scope: false,
        scene: scene(rect(-394, 200, 6, 700)),
    };
    match handle_edge_auto_hide_tick(&mut s, &input) {
        EdgeTickAction::Disable { animation: Some(a) } => assert_eq!((a.to_x, a.to_y), (3, 200)),
        other => panic!("expected a disable, got {other:?}"),
    }
    assert!(!s.edge_hidden);
    assert_eq!(s.edge_hidden_side, EDGE_AUTO_HIDE_NONE);
    assert_eq!(s.edge_anim_until, None);
}

#[test]
fn moving_the_window_docks_it_anew() {
    let mut s = shown();
    s.edge_hide_armed = true;
    s.edge_hide_pending_until = Some(5);
    note_window_moved_for_edge_hide(&mut s, true, true, &scene(rect(0, 0, 400, 300)), 77);
    assert_eq!(s.edge_hidden_side, EDGE_AUTO_HIDE_LEFT);
    assert!(!s.edge_hide_armed);
    assert_eq!(s.edge_hide_pending_until, None);
    assert_eq!(s.edge_hide_grace_until, Some(77));
    note_window_moved_for_edge_hide(&mut s, true, true, &scene(rect(600, 300, 900, 600)), 80);
    assert_eq!(s.edge_hidden_side, EDGE_AUTO_HIDE_NONE);
    let before = s;
    note_window_moved_for_edge_hide(&mut s, false, true, &scene(rect(0, 0, 400, 300)), 90);
    assert_eq!(s, before);
}

#[test]
fn timer_runs_faster_while_sliding() {
    let mut s = shown();
    assert_eq!(edge_auto_hide_timer_interval(Some(&s), 0), EDGE_AUTO_HIDE_TIMER_MS);
    s.edge_anim_until = Some(100);
    assert_eq!(edge_auto_hide_timer_interval(Some(&s), 50), EDGE_AUTO_HIDE_ANIM_TIMER_MS);
    assert_eq!(edge_auto_hide_timer_interval(Some(&s), 100), EDGE_AUTO_HIDE_TIMER_MS);
    assert_eq!(edge_auto_hide_timer_interval(None, 0), EDGE_AUTO_HIDE_TIMER_MS);
}

#[test]
fn edge_peek_and_margins_have_floors() {
    assert_eq!(edge_auto_hide_peek(2), 6);
    assert_eq!(edge_auto_hide_peek(9), 9);
    assert_eq!(edge_detect_margin_v(8), 12);
    assert_eq!(edge_detect_margin_v(16), 16);
    assert_eq!(edge_detect_margin_h(8, 24), 24);
    assert_eq!(edge_detect_margin_h(30, 24), 30);
    assert_eq!(edge_detect_margin_h(8, 10), 12);
}

#[test]
fn docking_works_far_out_on_the_virtual_screen() {
    let work = rect(1_500_000_000, 0, 1_500_001_920, 1040);
    let monitor = rect(1_500_000_000, 0, 1_500_001_920, 1080);
    assert_eq!(
        edge_choose_dock_side(&rect(1_500_000_005, 300, 1_500_000_405, 800), &work, &monitor, 12, 24),
        Some((EDGE_AUTO_HIDE_LEFT, work))
    );
    assert_eq!(
        edge_choose_dock_side(&rect(1_500_000_500, 300, 1_500_000_900, 800), &work, &monitor, 12, 24),
        None
    );
}

#[test]
fn hidden_positions_and_hot_zones_far_out_on_the_virtual_screen() {
    let mut s = shown();
    s.edge_docked_left = 1_500_000_000;
    s.edge_docked_top = 0;
    s.edge_docked_right = 1_500_001_920;
    s.edge_docked_bottom = 1040;
    s.edge_restore_x = 1_500_000_100;
    s.edge_restore_y = 300;
    s.edge_hidden_side = EDGE_AUTO_HIDE_LEFT;
    let monitor = rect(1_500_000_000, 0, 1_500_001_920, 1080);
    let rc = rect(1_500_000_000, 300, 1_500_000_400, 800);
    assert_eq!(edge_hidden_position(&s, &rc, &monitor, 6), Some((1_500_000_000 + 6 - 400, 300)));
    assert_eq!(edge_hotzone_rect(&s, &monitor, 12), Some(rect(1_500_000_000, 0, 1_500_000_012, 1040)));
}
