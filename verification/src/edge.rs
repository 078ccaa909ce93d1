//! Docking a window at a screen edge and hiding it there, leaving a thin
//! strip visible, until the cursor comes back.
//!
//! Times are milliseconds of a monotonic clock that the caller reads.

use vstd::prelude::*;
use crate::geometry::{coord_ok, fits_i32, point_in, pt_in_rect_screen, rect_ok, Point, Rect};

verus! {

/// No edge.
pub const EDGE_AUTO_HIDE_NONE: i32 = -1;

/// The left edge.
pub const EDGE_AUTO_HIDE_LEFT: i32 = 0;

/// The right edge.
pub const EDGE_AUTO_HIDE_RIGHT: i32 = 1;

/// The top edge.
pub const EDGE_AUTO_HIDE_TOP: i32 = 2;

/// The bottom edge.
pub const EDGE_AUTO_HIDE_BOTTOM: i32 = 3;

/// The unscaled width of the strip that stays visible.
pub const EDGE_AUTO_HIDE_PEEK: i32 = 2;

/// The unscaled distance within which a window counts as docked.
pub const EDGE_AUTO_HIDE_MARGIN: i32 = 8;

/// The tick of the edge timer.
pub const EDGE_AUTO_HIDE_TIMER_MS: u32 = 120;

/// The tick of the edge timer while a window slides.
pub const EDGE_AUTO_HIDE_ANIM_TIMER_MS: u32 = 16;

/// How long the cursor must stay away before the window hides.
pub const EDGE_AUTO_HIDE_DELAY_MS: u64 = 650;

/// How long a restored window stays out before it may hide again.
pub const EDGE_AUTO_HIDE_RESTORE_GRACE_MS: u64 = 450;

/// How long a window slides.
pub const EDGE_AUTO_HIDE_ANIM_MS: u64 = 180;

/// The largest clock value the edge logic works with.
pub const EDGE_CLOCK_MAX: u64 = 0x7fff_ffff_ffff_ffff;

/// The edge-docking part of a window's state.
#[derive(Clone, Copy, Debug, PartialEq, Eq, Structural)]
pub struct EdgeDockState {
    pub edge_hidden: bool,
    pub edge_hidden_side: i32,
    pub edge_docked_left: i32,
    pub edge_docked_top: i32,
    pub edge_docked_right: i32,
    pub edge_docked_bottom: i32,
    pub edge_hide_armed: bool,
    pub edge_hide_pending_until: Option<u64>,
    pub edge_hide_grace_until: Option<u64>,
    pub edge_restore_wait_leave: bool,
    pub edge_anim_until: Option<u64>,
    pub edge_restore_x: i32,
    pub edge_restore_y: i32,
    pub edge_anim_from_x: i32,
    pub edge_anim_from_y: i32,
    pub edge_anim_to_x: i32,
    pub edge_anim_to_y: i32,
}

/// A slide of the window from one position to another.
#[derive(Clone, Copy, Debug, PartialEq, Eq, Structural)]
pub struct EdgeAnimation {
    pub from_x: i32,
    pub from_y: i32,
    pub to_x: i32,
    pub to_y: i32,
}

/// Whether a side is one of the four edges.
pub open spec fn side_valid(side: i32) -> bool {
    side == EDGE_AUTO_HIDE_LEFT || side == EDGE_AUTO_HIDE_RIGHT || side == EDGE_AUTO_HIDE_TOP
        || side == EDGE_AUTO_HIDE_BOTTOM
}

/// The rectangle of the area the window is docked in.
pub open spec fn docked(s: EdgeDockState) -> Rect {
    Rect {
        left: s.edge_docked_left,
        top: s.edge_docked_top,
        right: s.edge_docked_right,
        bottom: s.edge_docked_bottom,
    }
}

/// Whether that rectangle has an area.
pub open spec fn docked_valid(s: EdgeDockState) -> bool {
    s.edge_docked_right > s.edge_docked_left && s.edge_docked_bottom > s.edge_docked_top
}

/// The state with its docking forgotten: shown, on no edge, with an empty
/// dock area, disarmed and with no pending hide, grace, wait or slide.
pub open spec fn cleared_state(s: EdgeDockState) -> EdgeDockState {
    EdgeDockState {
        edge_hidden: false,
        edge_hidden_side: EDGE_AUTO_HIDE_NONE,
        edge_docked_left: 0,
        edge_docked_top: 0,
        edge_docked_right: 0,
        edge_docked_bottom: 0,
        edge_hide_armed: false,
        edge_hide_pending_until: None,
        edge_hide_grace_until: None,
        edge_restore_wait_leave: false,
        edge_anim_until: None,
        ..s
    }
}

/// The state docked in `rc`.
pub open spec fn with_docked(s: EdgeDockState, rc: Rect) -> EdgeDockState {
    EdgeDockState {
        edge_docked_left: rc.left,
        edge_docked_top: rc.top,
        edge_docked_right: rc.right,
        edge_docked_bottom: rc.bottom,
        ..s
    }
}

/// Whether the clock values of a state, and the time `now`, are within
/// the range the edge logic works with.
pub open spec fn clock_ok(s: EdgeDockState, now: u64) -> bool {
    &&& now <= EDGE_CLOCK_MAX
    &&& s.edge_hide_grace_until matches Some(g) ==> g <= EDGE_CLOCK_MAX
}

/// Forgets the docking of a window (see `cleared_state`).
pub fn clear_edge_dock_state(state: &mut EdgeDockState)
    ensures
        *final(state) == cleared_state(*old(state)),
{
    state.edge_hidden = false;
    state.edge_hidden_side = EDGE_AUTO_HIDE_NONE;
    state.edge_docked_left = 0;
    state.edge_docked_top = 0;
    state.edge_docked_right = 0;
    state.edge_docked_bottom = 0;
    state.edge_hide_armed = false;
    state.edge_hide_pending_until = None;
    state.edge_hide_grace_until = None;
    state.edge_restore_wait_leave = false;
    state.edge_anim_until = None;
}

/// Docks the window in `rc`.
pub fn set_edge_docked_rect(state: &mut EdgeDockState, rc: &Rect)
    ensures
        *final(state) == with_docked(*old(state), *rc),
{
    state.edge_docked_left = rc.left;
    state.edge_docked_top = rc.top;
    state.edge_docked_right = rc.right;
    state.edge_docked_bottom = rc.bottom;
}

/// The dock area.
pub fn edge_docked_rect(state: &EdgeDockState) -> (r: Rect)
    ensures
        r == docked(*state),
{
    Rect {
        left: state.edge_docked_left,
        top: state.edge_docked_top,
        right: state.edge_docked_right,
        bottom: state.edge_docked_bottom,
    }
}

/// Whether the dock area has an area.
pub fn edge_docked_rect_valid(state: &EdgeDockState) -> (r: bool)
    ensures
        r == docked_valid(*state),
{
    state.edge_docked_right > state.edge_docked_left && state.edge_docked_bottom
        > state.edge_docked_top
}

/// Whether `side` is one of the four edges.
pub fn edge_side_valid(side: i32) -> (r: bool)
    ensures
        r == side_valid(side),
{
    side == EDGE_AUTO_HIDE_LEFT || side == EDGE_AUTO_HIDE_RIGHT || side == EDGE_AUTO_HIDE_TOP
        || side == EDGE_AUTO_HIDE_BOTTOM
}

/// How much of a hidden window stays on screen: the peek scaled to the
/// window's DPI (`scaled_peek`), and at least 6 pixels.
pub fn edge_auto_hide_peek(scaled_peek: i32) -> (r: i32)
    ensures
        r == max(scaled_peek as int, 6),
{
    if scaled_peek >= 6 {
        scaled_peek
    } else {
        6
    }
}

/// How near the top or bottom edge a window docks: the margin scaled to
/// the window's DPI (`scaled_margin`), and at least 12 pixels.
pub fn edge_detect_margin_v(scaled_margin: i32) -> (r: i32)
    ensures
        r == max(scaled_margin as int, 12),
{
    if scaled_margin >= 12 {
        scaled_margin
    } else {
        12
    }
}

/// How near the left or right edge a window docks: the vertical margin,
/// and at least 24 pixels scaled to the window's DPI (`scaled_24`).
pub fn edge_detect_margin_h(scaled_margin: i32, scaled_24: i32) -> (r: i32)
    ensures
        r == max(max(scaled_margin as int, 12), scaled_24 as int),
{
    let v = edge_detect_margin_v(scaled_margin);
    if v >= scaled_24 {
        v
    } else {
        scaled_24
    }
}

/// The grace after the user moves a docked window: none.
pub fn edge_interaction_grace_ms() -> (r: u64)
    ensures
        r == 0,
{
    0
}

/// Starts a grace of `ms` from `now`, in which the window does not hide.
pub fn edge_set_grace(state: &mut EdgeDockState, now: u64, ms: u64)
    requires
        now + ms <= u64::MAX,
    ensures
        *final(state) == (EdgeDockState { edge_hide_grace_until: Some((now + ms) as u64), ..*old(state) }),
{
    state.edge_hide_grace_until = Some(now + ms);
}

/// When a hide that is asked for at `now` may start: after a running grace,
/// else at once.
pub open spec fn pending_base(s: EdgeDockState, now: u64) -> u64 {
    match s.edge_hide_grace_until {
        Some(g) => if g > now {
            g
        } else {
            now
        },
        None => now,
    }
}

/// Schedules a hide `ms` after `pending_base`.
pub fn edge_set_hide_pending(state: &mut EdgeDockState, now: u64, ms: u64)
    requires
        pending_base(*old(state), now) + ms <= u64::MAX,
    ensures
        *final(state) == (EdgeDockState {
            edge_hide_pending_until: Some((pending_base(*old(state), now) + ms) as u64),
            ..*old(state)
        }),
{
    let base = match state.edge_hide_grace_until {
        Some(until) => if until > now {
            until
        } else {
            now
        },
        None => now,
    };
    state.edge_hide_pending_until = Some(base + ms);
}

/// Whether an optional time lies after `now`.
pub open spec fn after(t: Option<u64>, now: u64) -> bool {
    t matches Some(u) && u > now
}

/// Whether a grace is running at `now`.
pub fn edge_grace_active(state: &EdgeDockState, now: u64) -> (r: bool)
    ensures
        r == after(state.edge_hide_grace_until, now),
{
    match state.edge_hide_grace_until {
        Some(until) => until > now,
        None => false,
    }
}

/// Whether a slide is running at `now`.
pub fn edge_animation_active(state: &EdgeDockState, now: u64) -> (r: bool)
    ensures
        r == after(state.edge_anim_until, now),
{
    match state.edge_anim_until {
        Some(until) => until > now,
        None => false,
    }
}

/// Whether a scheduled hide is still ahead at `now`.
pub fn edge_hide_pending_active(state: &EdgeDockState, now: u64) -> (r: bool)
    ensures
        r == after(state.edge_hide_pending_until, now),
{
    match state.edge_hide_pending_until {
        Some(until) => until > now,
        None => false,
    }
}

/// The tick of the edge timer: faster while a window slides.
pub fn edge_auto_hide_timer_interval(state: Option<&EdgeDockState>, now: u64) -> (r: u32)
    ensures
        r == (if state matches Some(s) && after(s.edge_anim_until, now) {
            EDGE_AUTO_HIDE_ANIM_TIMER_MS
        } else {
            EDGE_AUTO_HIDE_TIMER_MS
        }),
{
    match state {
        Some(s) => if edge_animation_active(s, now) {
            EDGE_AUTO_HIDE_ANIM_TIMER_MS
        } else {
            EDGE_AUTO_HIDE_TIMER_MS
        },
        None => EDGE_AUTO_HIDE_TIMER_MS,
    }
}

// ───────────────────────── choosing the edge ─────────────────────────

/// The absolute value.
pub open spec fn abs(v: int) -> int {
    if v < 0 {
        -v
    } else {
        v
    }
}

/// The candidate edges of a window at `rc`, in order: its distance to the
/// edge, the side, the area it would dock in (the work area or the whole
/// monitor) and the largest distance that counts as docked.
pub open spec fn dock_candidates(
    rc: Rect,
    work: Rect,
    monitor: Rect,
    margin_v: int,
    margin_h: int,
) -> Seq<(int, i32, Rect, int)> {
    seq![
        (abs(rc.left - work.left), EDGE_AUTO_HIDE_LEFT, work, margin_h),
        (abs(rc.left - monitor.left), EDGE_AUTO_HIDE_LEFT, monitor, margin_h),
        (abs(work.right - rc.right), EDGE_AUTO_HIDE_RIGHT, work, margin_h),
        (abs(monitor.right - rc.right), EDGE_AUTO_HIDE_RIGHT, monitor, margin_h),
        (abs(rc.top - work.top), EDGE_AUTO_HIDE_TOP, work, margin_v),
        (abs(rc.top - monitor.top), EDGE_AUTO_HIDE_TOP, monitor, margin_v),
        (abs(work.bottom - rc.bottom), EDGE_AUTO_HIDE_BOTTOM, work, margin_v),
        (abs(monitor.bottom - rc.bottom), EDGE_AUTO_HIDE_BOTTOM, monitor, margin_v),
    ]
}

/// One step of the choice: a candidate within its limit replaces the best
/// so far when it is strictly nearer.
pub open spec fn dock_step(best: Option<(int, i32, Rect)>, c: (int, i32, Rect, int)) -> Option<
    (int, i32, Rect),
> {
    if c.0 > c.3 {
        best
    } else {
        match best {
            Some(b) => if b.0 <= c.0 {
                best
            } else {
                Some((c.0, c.1, c.2))
            },
            None => Some((c.0, c.1, c.2)),
        }
    }
}

/// The nearest of the first `n` candidates within their limits, the first
/// of them on a tie.
pub open spec fn nearest_dock(cs: Seq<(int, i32, Rect, int)>, n: int) -> Option<(int, i32, Rect)>
    decreases n,
{
    if n <= 0 {
        None
    } else {
        dock_step(nearest_dock(cs, n - 1), cs[n - 1])
    }
}

/// The edge a window at `rc` docks at, and the area it docks in: the
/// nearest candidate within its limit (see `dock_candidates`).
pub open spec fn dock_choice(rc: Rect, work: Rect, monitor: Rect, margin_v: int, margin_h: int) -> Option<
    (i32, Rect),
> {
    match nearest_dock(dock_candidates(rc, work, monitor, margin_v, margin_h), 8) {
        Some(b) => Some((b.1, b.2)),
        None => None,
    }
}

/// Whether the rectangles and margins of a choice are within range.
pub open spec fn dock_inputs_ok(rc: Rect, work: Rect, monitor: Rect, margin_v: int, margin_h: int) -> bool {
    rect_ok(rc) && rect_ok(work) && rect_ok(monitor) && coord_ok(margin_v) && coord_ok(margin_h)
}

/// Whether every distance of a choice fits in an `i32`: the difference of
/// the two coordinates and its absolute value (`i32::abs` of the
/// difference), which is what choosing the edge computes.
pub open spec fn dock_distances_fit(rc: Rect, work: Rect, monitor: Rect) -> bool {
    &&& abs(rc.left - work.left) <= i32::MAX
    &&& abs(rc.left - monitor.left) <= i32::MAX
    &&& abs(work.right - rc.right) <= i32::MAX
    &&& abs(monitor.right - rc.right) <= i32::MAX
    &&& abs(rc.top - work.top) <= i32::MAX
    &&& abs(rc.top - monitor.top) <= i32::MAX
    &&& abs(work.bottom - rc.bottom) <= i32::MAX
    &&& abs(monitor.bottom - rc.bottom) <= i32::MAX
}

/// The distance between two coordinates.
fn edge_distance(a: i32, b: i32) -> (d: i32)
    requires
        abs(a - b) <= i32::MAX,
    ensures
        d == abs(a - b),
{
    let v = a - b;
    if v < 0 {
        -v
    } else {
        v
    }
}

/// The view of a best candidate so far.
pub open spec fn best_view(b: Option<(i32, i32, Rect)>) -> Option<(int, i32, Rect)> {
    match b {
        Some(t) => Some((t.0 as int, t.1, t.2)),
        None => None,
    }
}

/// One step of the choice (see `dock_step`).
fn dock_consider(best: Option<(i32, i32, Rect)>, dist: i32, side: i32, base: Rect, limit: i32) -> (r:
    Option<(i32, i32, Rect)>)
    ensures
        best_view(r) == dock_step(best_view(best), (dist as int, side, base, limit as int)),
{
    if dist > limit {
        return best;
    }
    match best {
        Some(b) => if b.0 <= dist {
            best
        } else {
            Some((dist, side, base))
        },
        None => Some((dist, side, base)),
    }
}

/// The edge a window at `rc` docks at and the area it docks in (see
/// `dock_choice`); none when no edge is near.
pub fn edge_choose_dock_side(
    rc: &Rect,
    work: &Rect,
    monitor: &Rect,
    margin_v: i32,
    margin_h: i32,
) -> (r: Option<(i32, Rect)>)
    requires
        dock_distances_fit(*rc, *work, *monitor),
    ensures
        r == dock_choice(*rc, *work, *monitor, margin_v as int, margin_h as int),
{
    let ghost cs = dock_candidates(*rc, *work, *monitor, margin_v as int, margin_h as int);
    let mut best: Option<(i32, i32, Rect)> = None;
    assert(nearest_dock(cs, 0) is None);
    best = dock_consider(best, edge_distance(rc.left, work.left), EDGE_AUTO_HIDE_LEFT, *work, margin_h);
    assert(best_view(best) == nearest_dock(cs, 1));
    best = dock_consider(
        best,
        edge_distance(rc.left, monitor.left),
        EDGE_AUTO_HIDE_LEFT,
        *monitor,
        margin_h,
    );
    assert(best_view(best) == nearest_dock(cs, 2));
    best = dock_consider(
        best,
        edge_distance(work.right, rc.right),
        EDGE_AUTO_HIDE_RIGHT,
        *work,
        margin_h,
    );
    assert(best_view(best) == nearest_dock(cs, 3));
    best = dock_consider(
        best,
        edge_distance(monitor.right, rc.right),
        EDGE_AUTO_HIDE_RIGHT,
        *monitor,
        margin_h,
    );
    assert(best_view(best) == nearest_dock(cs, 4));
    best = dock_consider(best, edge_distance(rc.top, work.top), EDGE_AUTO_HIDE_TOP, *work, margin_v);
    assert(best_view(best) == nearest_dock(cs, 5));
    best = dock_consider(
        best,
        edge_distance(rc.top, monitor.top),
        EDGE_AUTO_HIDE_TOP,
        *monitor,
        margin_v,
    );
    assert(best_view(best) == nearest_dock(cs, 6));
    best = dock_consider(
        best,
        edge_distance(work.bottom, rc.bottom),
        EDGE_AUTO_HIDE_BOTTOM,
        *work,
        margin_v,
    );
    assert(best_view(best) == nearest_dock(cs, 7));
    best = dock_consider(
        best,
        edge_distance(monitor.bottom, rc.bottom),
        EDGE_AUTO_HIDE_BOTTOM,
        *monitor,
        margin_v,
    );
    assert(best_view(best) == nearest_dock(cs, 8));
    match best {
        Some(b) => Some((b.1, b.2)),
        None => None,
    }
}

/// The nearest candidate is one within its limit, no candidate within its
/// limit is nearer, and none before it is as near; when there is none, no
/// candidate is within its limit.
pub proof fn lemma_nearest_dock(cs: Seq<(int, i32, Rect, int)>, n: int)
    requires
        0 <= n <= cs.len(),
    ensures
        match nearest_dock(cs, n) {
            Some(b) => exists|i: int|
                0 <= i < n && cs[i].0 <= cs[i].3 && b == (cs[i].0, cs[i].1, cs[i].2) && (forall|
                    j: int,
                |
                    0 <= j < n && cs[j].0 <= cs[j].3 ==> b.0 <= #[trigger] cs[j].0) && (forall|
                    j: int,
                | 0 <= j < i && cs[j].0 <= cs[j].3 ==> #[trigger] cs[j].0 > b.0),
            None => forall|j: int| 0 <= j < n ==> #[trigger] cs[j].0 > cs[j].3,
        },
    decreases n,
{
    if n > 0 {
        lemma_nearest_dock(cs, n - 1);
        let prev = nearest_dock(cs, n - 1);
        let c = cs[n - 1];
        match prev {
            Some(b) => {
                let i = choose|i: int|
                    0 <= i < n - 1 && cs[i].0 <= cs[i].3 && b == (cs[i].0, cs[i].1, cs[i].2) && (
                    forall|j: int| 0 <= j < n - 1 && cs[j].0 <= cs[j].3 ==> b.0 <= #[trigger] cs[j].0)
                        && (forall|j: int|
                        0 <= j < i && cs[j].0 <= cs[j].3 ==> #[trigger] cs[j].0 > b.0);
                if c.0 <= c.3 && c.0 < b.0 {
                    assert(nearest_dock(cs, n) == Some((c.0, c.1, c.2)));
                    assert forall|j: int| 0 <= j < n - 1 && cs[j].0 <= cs[j].3 implies #[trigger] cs[j].0
                        > c.0 by {}
                } else {
                    assert(nearest_dock(cs, n) == prev);
                }
            },
            None => {
                if c.0 <= c.3 {
                    assert(nearest_dock(cs, n) == Some((c.0, c.1, c.2)));
                }
            },
        }
    }
}

/// The edge a window docks at is the nearest one within its limit, the
/// first of them on a tie, and a window docks at no edge only when none is
/// within its limit.
pub proof fn law_dock_side_is_nearest(rc: Rect, work: Rect, monitor: Rect, margin_v: int, margin_h: int)
    ensures
        ({
            let cs = dock_candidates(rc, work, monitor, margin_v, margin_h);
            match dock_choice(rc, work, monitor, margin_v, margin_h) {
                Some((side, area)) => exists|i: int|
                    0 <= i < 8 && cs[i].0 <= cs[i].3 && cs[i].1 == side && cs[i].2 == area && (forall|
                        j: int,
                    | 0 <= j < 8 && cs[j].0 <= cs[j].3 ==> cs[i].0 <= #[trigger] cs[j].0) && (forall|
                        j: int,
                    | 0 <= j < i && cs[j].0 <= cs[j].3 ==> #[trigger] cs[j].0 > cs[i].0),
                None => forall|j: int| 0 <= j < 8 ==> #[trigger] cs[j].0 > cs[j].3,
            }
        }),
{
    let cs = dock_candidates(rc, work, monitor, margin_v, margin_h);
    lemma_nearest_dock(cs, 8);
}

// ───────────────────────── docking ─────────────────────────

/// The state after the window was seen at `rc`: docked at the chosen edge
/// (the position kept for restoring updated when the window is shown), or
/// with its docking forgotten when no edge is near; and whether it docked.
pub open spec fn updated_state(
    s: EdgeDockState,
    rc: Rect,
    work: Rect,
    monitor: Rect,
    margin_v: int,
    margin_h: int,
) -> (EdgeDockState, bool) {
    match dock_choice(rc, work, monitor, margin_v, margin_h) {
        Some((side, area)) => {
            let d = with_docked(EdgeDockState { edge_hidden_side: side, ..s }, area);
            if !s.edge_hidden {
                (EdgeDockState { edge_restore_x: rc.left, edge_restore_y: rc.top, ..d }, true)
            } else {
                (d, true)
            }
        },
        None => (cleared_state(s), false),
    }
}

/// Docks the window seen at `rc` (see `updated_state`).
pub fn update_edge_dock_state(
    state: &mut EdgeDockState,
    rc: &Rect,
    work: &Rect,
    monitor: &Rect,
    margin_v: i32,
    margin_h: i32,
) -> (r: bool)
    requires
        dock_distances_fit(*rc, *work, *monitor),
    ensures
        (*final(state), r) == updated_state(
            *old(state),
            *rc,
            *work,
            *monitor,
            margin_v as int,
            margin_h as int,
        ),
{
    match edge_choose_dock_side(rc, work, monitor, margin_v, margin_h) {
        Some((side, base)) => {
            state.edge_hidden_side = side;
            set_edge_docked_rect(state, &base);
            if !state.edge_hidden {
                state.edge_restore_x = rc.left;
                state.edge_restore_y = rc.top;
            }
            true
        },
        None => {
            clear_edge_dock_state(state);
            false
        },
    }
}

/// The state with its docking in place: unchanged when it is docked at an
/// edge in an area, else docked anew at `rc` (see `updated_state`).
pub open spec fn ensured_state(
    s: EdgeDockState,
    rc: Rect,
    work: Rect,
    monitor: Rect,
    margin_v: int,
    margin_h: int,
) -> (EdgeDockState, bool) {
    if side_valid(s.edge_hidden_side) && docked_valid(s) {
        (s, true)
    } else {
        updated_state(s, rc, work, monitor, margin_v, margin_h)
    }
}

/// Makes sure the window is docked (see `ensured_state`); `rc` is where
/// the window is.
pub fn ensure_edge_dock_state(
    state: &mut EdgeDockState,
    rc: &Rect,
    work: &Rect,
    monitor: &Rect,
    margin_v: i32,
    margin_h: i32,
) -> (r: bool)
    requires
        dock_distances_fit(*rc, *work, *monitor),
    ensures
        (*final(state), r) == ensured_state(
            *old(state),
            *rc,
            *work,
            *monitor,
            margin_v as int,
            margin_h as int,
        ),
{
    if edge_side_valid(state.edge_hidden_side) && edge_docked_rect_valid(state) {
        return true;
    }
    update_edge_dock_state(state, rc, work, monitor, margin_v, margin_h)
}

// ───────────────────────── hot zone and hidden position ─────────────────────────

/// Whether the dock area and the position kept for restoring are within
/// range.
pub open spec fn state_ok(s: EdgeDockState) -> bool {
    rect_ok(docked(s)) && coord_ok(s.edge_restore_x as int) && coord_ok(s.edge_restore_y as int)
}

/// The zone in which the cursor brings a hidden window back: a band `hot`
/// wide along the docked edge of the dock area (for the bottom edge, along
/// the bottom of the monitor); none when the window is not docked.
pub open spec fn hotzone(s: EdgeDockState, monitor: Rect, hot: int) -> Option<Rect> {
    if !side_valid(s.edge_hidden_side) || !docked_valid(s) {
        None
    } else {
        let d = docked(s);
        Some(
            if s.edge_hidden_side == EDGE_AUTO_HIDE_LEFT {
                Rect { left: d.left, top: d.top, right: (d.left + hot) as i32, bottom: d.bottom }
            } else if s.edge_hidden_side == EDGE_AUTO_HIDE_RIGHT {
                Rect { left: (d.right - hot) as i32, top: d.top, right: d.right, bottom: d.bottom }
            } else if s.edge_hidden_side == EDGE_AUTO_HIDE_TOP {
                Rect { left: d.left, top: d.top, right: d.right, bottom: (d.top + hot) as i32 }
            } else {
                Rect {
                    left: d.left,
                    top: (monitor.bottom - hot) as i32,
                    right: d.right,
                    bottom: monitor.bottom,
                }
            },
        )
    }
}

/// Whether the edge of the hot zone of a docked state fits in an `i32`.
pub open spec fn hotzone_fits(s: EdgeDockState, monitor: Rect, hot: int) -> bool {
    let d = docked(s);
    if s.edge_hidden_side == EDGE_AUTO_HIDE_LEFT {
        fits_i32(d.left + hot)
    } else if s.edge_hidden_side == EDGE_AUTO_HIDE_RIGHT {
        fits_i32(d.right - hot)
    } else if s.edge_hidden_side == EDGE_AUTO_HIDE_TOP {
        fits_i32(d.top + hot)
    } else {
        fits_i32(monitor.bottom - hot)
    }
}

/// The zone in which the cursor brings the hidden window back (see
/// `hotzone`).
pub fn edge_hotzone_rect(state: &EdgeDockState, monitor: &Rect, hot: i32) -> (r: Option<Rect>)
    requires
        hotzone_fits(*state, *monitor, hot as int),
    ensures
        r == hotzone(*state, *monitor, hot as int),
{
    if !edge_side_valid(state.edge_hidden_side) || !edge_docked_rect_valid(state) {
        return None;
    }
    let d = edge_docked_rect(state);
    if state.edge_hidden_side == EDGE_AUTO_HIDE_LEFT {
        Some(Rect { left: d.left, top: d.top, right: d.left + hot, bottom: d.bottom })
    } else if state.edge_hidden_side == EDGE_AUTO_HIDE_RIGHT {
        Some(Rect { left: d.right - hot, top: d.top, right: d.right, bottom: d.bottom })
    } else if state.edge_hidden_side == EDGE_AUTO_HIDE_TOP {
        Some(Rect { left: d.left, top: d.top, right: d.right, bottom: d.top + hot })
    } else {
        Some(Rect { left: d.left, top: monitor.bottom - hot, right: d.right, bottom: monitor.bottom })
    }
}

/// The hot zone is a band `hot` wide along the docked edge: on the left
/// edge it starts at the dock area's left and is `hot` wide; on the right
/// it ends at the dock area's right; on the top it starts at the dock
/// area's top and is `hot` high; on the bottom it ends at the monitor's
/// bottom. Along the edge it spans the dock area. A window that is not
/// docked on an edge has none.
pub proof fn law_hotzone_is_a_band_along_the_edge(s: EdgeDockState, monitor: Rect, hot: int)
    requires
        hotzone_fits(s, monitor, hot),
    ensures
        !(s.edge_hidden_side == 0 || s.edge_hidden_side == 1 || s.edge_hidden_side == 2 || s.edge_hidden_side == 3)
            ==> hotzone(s, monitor, hot) is None,
        !(s.edge_docked_right > s.edge_docked_left && s.edge_docked_bottom > s.edge_docked_top)
            ==> hotzone(s, monitor, hot) is None,
        (s.edge_hidden_side == 0 || s.edge_hidden_side == 1 || s.edge_hidden_side == 2 || s.edge_hidden_side == 3)
            && s.edge_docked_right > s.edge_docked_left && s.edge_docked_bottom > s.edge_docked_top ==> ({
            let r = hotzone(s, monitor, hot)->0;
            &&& hotzone(s, monitor, hot) is Some
            &&& s.edge_hidden_side == 0 ==> r.left == s.edge_docked_left && r.right - r.left == hot
                && r.top == s.edge_docked_top && r.bottom == s.edge_docked_bottom
            &&& s.edge_hidden_side == 1 ==> r.right == s.edge_docked_right && r.right - r.left == hot
                && r.top == s.edge_docked_top && r.bottom == s.edge_docked_bottom
            &&& s.edge_hidden_side == 2 ==> r.top == s.edge_docked_top && r.bottom - r.top == hot
                && r.left == s.edge_docked_left && r.right == s.edge_docked_right
            &&& s.edge_hidden_side == 3 ==> r.bottom == monitor.bottom && r.bottom - r.top == hot
                && r.left == s.edge_docked_left && r.right == s.edge_docked_right
        }),
{
}

/// The larger of two values.
pub open spec fn max(a: int, b: int) -> int {
    if a >= b {
        a
    } else {
        b
    }
}

/// `v` held within `lo ..= hi`.
pub open spec fn clamp(v: int, lo: int, hi: int) -> int {
    if v < lo {
        lo
    } else if v > hi {
        hi
    } else {
        v
    }
}

/// Where a window of the size of `rc` goes when it hides: beyond its
/// docked edge but for a strip `peek` wide, and along that edge where it
/// was, held within the dock area; none when it is not docked.
pub open spec fn hidden_position(s: EdgeDockState, rc: Rect, monitor: Rect, peek: int) -> Option<
    (int, int),
> {
    if !side_valid(s.edge_hidden_side) || !docked_valid(s) {
        None
    } else {
        let d = docked(s);
        let width = max(rc.right - rc.left, 1);
        let height = max(rc.bottom - rc.top, 1);
        let side = s.edge_hidden_side;
        let x = if side == EDGE_AUTO_HIDE_LEFT {
            d.left + peek - width
        } else if side == EDGE_AUTO_HIDE_RIGHT {
            d.right - peek
        } else {
            clamp(s.edge_restore_x as int, d.left as int, max(d.right - width, d.left as int))
        };
        let y = if side == EDGE_AUTO_HIDE_TOP {
            d.top + peek - height
        } else if side == EDGE_AUTO_HIDE_BOTTOM {
            monitor.bottom - peek
        } else {
            clamp(s.edge_restore_y as int, d.top as int, max(d.bottom - height, d.top as int))
        };
        Some((x, y))
    }
}

/// The view of an optional position.
pub open spec fn pos_view(p: Option<(i32, i32)>) -> Option<(int, int)> {
    match p {
        Some(v) => Some((v.0 as int, v.1 as int)),
        None => None,
    }
}

/// `v` held within `lo ..= hi`.
fn clamp_i32(v: i32, lo: i32, hi: i32) -> (r: i32)
    requires
        lo <= hi,
    ensures
        r == clamp(v as int, lo as int, hi as int),
{
    if v < lo {
        lo
    } else if v > hi {
        hi
    } else {
        v
    }
}

/// Whether each sum and difference that placing a hidden window computes
/// fits in an `i32`.
pub open spec fn hidden_fits(s: EdgeDockState, rc: Rect, monitor: Rect, peek: int) -> bool {
    let d = docked(s);
    let side = s.edge_hidden_side;
    let width = max(rc.right - rc.left, 1);
    let height = max(rc.bottom - rc.top, 1);
    &&& fits_i32(rc.right - rc.left)
    &&& fits_i32(rc.bottom - rc.top)
    &&& (side == EDGE_AUTO_HIDE_LEFT ==> fits_i32(d.left + peek) && fits_i32(d.left + peek - width))
    &&& (side == EDGE_AUTO_HIDE_RIGHT ==> fits_i32(d.right - peek))
    &&& (side != EDGE_AUTO_HIDE_LEFT && side != EDGE_AUTO_HIDE_RIGHT ==> fits_i32(d.right - width))
    &&& (side == EDGE_AUTO_HIDE_TOP ==> fits_i32(d.top + peek) && fits_i32(d.top + peek - height))
    &&& (side == EDGE_AUTO_HIDE_BOTTOM ==> fits_i32(monitor.bottom - peek))
    &&& (side != EDGE_AUTO_HIDE_TOP && side != EDGE_AUTO_HIDE_BOTTOM ==> fits_i32(d.bottom - height))
}

/// Where the window at `rc` goes when it hides (see `hidden_position`).
pub fn edge_hidden_position(state: &EdgeDockState, rc: &Rect, monitor: &Rect, peek: i32) -> (r:
    Option<(i32, i32)>)
    requires
        hidden_fits(*state, *rc, *monitor, peek as int),
    ensures
        pos_view(r) == hidden_position(*state, *rc, *monitor, peek as int),
{
    if !edge_side_valid(state.edge_hidden_side) || !edge_docked_rect_valid(state) {
        return None;
    }
    let d = edge_docked_rect(state);
    let w = rc.right - rc.left;
    let width = if w >= 1 {
        w
    } else {
        1
    };
    let h = rc.bottom - rc.top;
    let height = if h >= 1 {
        h
    } else {
        1
    };
    let side = state.edge_hidden_side;
    let x = if side == EDGE_AUTO_HIDE_LEFT {
        d.left + peek - width
    } else if side == EDGE_AUTO_HIDE_RIGHT {
        d.right - peek
    } else {
        let span = d.right - width;
        let hi = if span >= d.left {
            span
        } else {
            d.left
        };
        clamp_i32(state.edge_restore_x, d.left, hi)
    };
    let y = if side == EDGE_AUTO_HIDE_TOP {
        d.top + peek - height
    } else if side == EDGE_AUTO_HIDE_BOTTOM {
        monitor.bottom - peek
    } else {
        let span = d.bottom - height;
        let hi = if span >= d.top {
            span
        } else {
            d.top
        };
        clamp_i32(state.edge_restore_y, d.top, hi)
    };
    Some((x, y))
}

// ───────────────────────── sliding, hiding and restoring ─────────────────────────

/// The chosen edge is one of the four, and the area is the work area or
/// the monitor.
proof fn lemma_dock_choice_area(rc: Rect, work: Rect, monitor: Rect, margin_v: int, margin_h: int)
    ensures
        dock_choice(rc, work, monitor, margin_v, margin_h) matches Some((side, area)) ==> side_valid(
            side,
        ) && (area == work || area == monitor),
{
    let cs = dock_candidates(rc, work, monitor, margin_v, margin_h);
    lemma_nearest_dock(cs, 8);
    if let Some(b) = nearest_dock(cs, 8) {
        let i = choose|i: int|
            0 <= i < 8 && cs[i].0 <= cs[i].3 && b == (cs[i].0, cs[i].1, cs[i].2) && (forall|j: int|
                0 <= j < 8 && cs[j].0 <= cs[j].3 ==> b.0 <= #[trigger] cs[j].0) && (forall|j: int|
                0 <= j < i && cs[j].0 <= cs[j].3 ==> #[trigger] cs[j].0 > b.0);
        assert(0 <= i < 8);
    }
}

/// Docking anew keeps the dock area and the position kept for restoring
/// within range.
proof fn lemma_ensured_state_ok(
    s: EdgeDockState,
    rc: Rect,
    work: Rect,
    monitor: Rect,
    margin_v: int,
    margin_h: int,
)
    requires
        state_ok(s),
        dock_inputs_ok(rc, work, monitor, margin_v, margin_h),
    ensures
        state_ok(ensured_state(s, rc, work, monitor, margin_v, margin_h).0),
        state_ok(updated_state(s, rc, work, monitor, margin_v, margin_h).0),
{
    lemma_dock_choice_area(rc, work, monitor, margin_v, margin_h);
}

/// The state with a slide `a` running until `until`.
pub open spec fn animating(s: EdgeDockState, a: EdgeAnimation, until: u64) -> EdgeDockState {
    EdgeDockState {
        edge_anim_from_x: a.from_x,
        edge_anim_from_y: a.from_y,
        edge_anim_to_x: a.to_x,
        edge_anim_to_y: a.to_y,
        edge_anim_until: Some(until),
        ..s
    }
}

/// Starts a slide from `(from_x, from_y)` to `(to_x, to_y)` that lasts
/// `duration_ms` from `now`; returns the slide, which the caller starts by
/// moving the window to its first position.
pub fn begin_edge_animation(
    state: &mut EdgeDockState,
    now: u64,
    from_x: i32,
    from_y: i32,
    to_x: i32,
    to_y: i32,
    duration_ms: u64,
) -> (r: EdgeAnimation)
    requires
        now + duration_ms <= u64::MAX,
    ensures
        r == (EdgeAnimation { from_x, from_y, to_x, to_y }),
        *final(state) == animating(*old(state), r, (now + duration_ms) as u64),
{
    state.edge_anim_from_x = from_x;
    state.edge_anim_from_y = from_y;
    state.edge_anim_to_x = to_x;
    state.edge_anim_to_y = to_y;
    state.edge_anim_until = Some(now + duration_ms);
    EdgeAnimation { from_x, from_y, to_x, to_y }
}

/// The slide that brings a hidden window at `rc` back to where it was.
pub open spec fn restore_animation(s: EdgeDockState, rc: Rect) -> EdgeAnimation {
    EdgeAnimation { from_x: rc.left, from_y: rc.top, to_x: s.edge_restore_x, to_y: s.edge_restore_y }
}

/// The state after a hidden window at `rc` is brought back at `now`: it
/// slides back to where it was, is shown, disarmed, with no pending hide
/// and no wait, and in a grace; a shown window is left as it is.
pub open spec fn restored_state(s: EdgeDockState, now: u64, rc: Rect) -> (EdgeDockState, Option<
    EdgeAnimation,
>) {
    if !s.edge_hidden {
        (s, None)
    } else {
        let a = restore_animation(s, rc);
        let s1 = animating(s, a, (now + EDGE_AUTO_HIDE_ANIM_MS) as u64);
        (
            EdgeDockState {
                edge_hidden: false,
                edge_hide_armed: false,
                edge_hide_pending_until: None,
                edge_restore_wait_leave: false,
                edge_hide_grace_until: Some((now + EDGE_AUTO_HIDE_RESTORE_GRACE_MS) as u64),
                ..s1
            },
            Some(a),
        )
    }
}

/// Brings a hidden window at `rc` back (see `restored_state`); returns the
/// slide to start.
pub fn restore_edge_hidden_window(state: &mut EdgeDockState, now: u64, rc: &Rect) -> (r: Option<
    EdgeAnimation,
>)
    requires
        now <= EDGE_CLOCK_MAX,
    ensures
        (*final(state), r) == restored_state(*old(state), now, *rc),
{
    if !state.edge_hidden {
        return None;
    }
    let a = begin_edge_animation(
        state,
        now,
        rc.left,
        rc.top,
        state.edge_restore_x,
        state.edge_restore_y,
        EDGE_AUTO_HIDE_ANIM_MS,
    );
    state.edge_hidden = false;
    state.edge_hide_armed = false;
    state.edge_hide_pending_until = None;
    state.edge_restore_wait_leave = false;
    edge_set_grace(state, now, EDGE_AUTO_HIDE_RESTORE_GRACE_MS);
    Some(a)
}

/// What the system says of a window and its screen: where the window is,
/// the work area and the whole monitor it is nearest to, the docking
/// margins and the width of the strip that stays visible, all scaled to
/// the window's DPI.
#[derive(Clone, Copy, Debug, PartialEq, Eq, Structural)]
pub struct EdgeScene {
    pub dock_rect: Rect,
    pub work: Rect,
    pub monitor: Rect,
    pub margin_v: i32,
    pub margin_h: i32,
    pub peek: i32,
}

/// Whether a scene is within range.
pub open spec fn scene_ok(sc: EdgeScene) -> bool {
    &&& dock_inputs_ok(sc.dock_rect, sc.work, sc.monitor, sc.margin_v as int, sc.margin_h as int)
    &&& coord_ok(sc.peek as int)
}

/// The state after hiding is tried at `now`, and the slide to start: an
/// enabled, shown window that is docked (see `ensured_state`), and, when
/// `check_scope`, has the cursor outside it, keeps where it is for
/// restoring and slides to its hidden position (see `hidden_position`),
/// armed off, with no pending hide, and waiting for the cursor to leave
/// the hot zone when the cursor is in it.
pub open spec fn hidden_state(
    s: EdgeDockState,
    enabled: bool,
    check_scope: bool,
    cursor_in_scope: bool,
    cursor: Point,
    sc: EdgeScene,
    now: u64,
) -> (EdgeDockState, Option<EdgeAnimation>) {
    if !enabled || s.edge_hidden {
        (s, None)
    } else {
        let (s1, ok) = ensured_state(
            s,
            sc.dock_rect,
            sc.work,
            sc.monitor,
            sc.margin_v as int,
            sc.margin_h as int,
        );
        if !ok || (check_scope && cursor_in_scope) {
            (s1, None)
        } else {
            let wait = match hotzone(s1, sc.monitor, sc.margin_v as int) {
                Some(h) => point_in(cursor.x as int, cursor.y as int, h),
                None => false,
            };
            let s2 = EdgeDockState {
                edge_restore_x: sc.dock_rect.left,
                edge_restore_y: sc.dock_rect.top,
                ..s1
            };
            match hidden_position(s2, sc.dock_rect, sc.monitor, sc.peek as int) {
                None => (s2, None),
                Some(p) => {
                    let a = EdgeAnimation {
                        from_x: sc.dock_rect.left,
                        from_y: sc.dock_rect.top,
                        to_x: p.0 as i32,
                        to_y: p.1 as i32,
                    };
                    let s3 = EdgeDockState {
                        edge_hidden: true,
                        edge_hide_armed: false,
                        edge_hide_pending_until: None,
                        edge_restore_wait_leave: wait,
                        ..s2
                    };
                    (animating(s3, a, (now + EDGE_AUTO_HIDE_ANIM_MS) as u64), Some(a))
                },
            }
        }
    }
}

/// Hides a docked window (see `hidden_state`); returns the slide to start.
pub fn hide_edge_docked_window_with_scope(
    state: &mut EdgeDockState,
    enabled: bool,
    check_scope: bool,
    cursor_in_scope: bool,
    cursor: &Point,
    scene: &EdgeScene,
    now: u64,
) -> (r: Option<EdgeAnimation>)
    requires
        state_ok(*old(state)),
        scene_ok(*scene),
        now <= EDGE_CLOCK_MAX,
    ensures
        (*final(state), r) == hidden_state(
            *old(state),
            enabled,
            check_scope,
            cursor_in_scope,
            *cursor,
            *scene,
            now,
        ),
        state_ok(*final(state)),
{
    if !enabled || state.edge_hidden {
        return None;
    }
    proof {
        lemma_ensured_state_ok(
            *state,
            scene.dock_rect,
            scene.work,
            scene.monitor,
            scene.margin_v as int,
            scene.margin_h as int,
        );
    }
    if !ensure_edge_dock_state(
        state,
        &scene.dock_rect,
        &scene.work,
        &scene.monitor,
        scene.margin_v,
        scene.margin_h,
    ) {
        return None;
    }
    if check_scope && cursor_in_scope {
        return None;
    }
    let wait_leave_after_hide = match edge_hotzone_rect(state, &scene.monitor, scene.margin_v) {
        Some(hot) => pt_in_rect_screen(cursor, &hot),
        None => false,
    };
    state.edge_restore_x = scene.dock_rect.left;
    state.edge_restore_y = scene.dock_rect.top;
    let (hide_x, hide_y) = match edge_hidden_position(
        state,
        &scene.dock_rect,
        &scene.monitor,
        scene.peek,
    ) {
        Some(pos) => pos,
        None => return None,
    };
    state.edge_hidden = true;
    state.edge_hide_armed = false;
    state.edge_hide_pending_until = None;
    state.edge_restore_wait_leave = wait_leave_after_hide;
    let a = begin_edge_animation(
        state,
        now,
        scene.dock_rect.left,
        scene.dock_rect.top,
        hide_x,
        hide_y,
        EDGE_AUTO_HIDE_ANIM_MS,
    );
    Some(a)
}

// ───────────────────────── the timer tick ─────────────────────────

/// What the caller does after a tick of the edge timer.
#[derive(Clone, Copy, Debug, PartialEq, Eq, Structural)]
pub enum EdgeTickAction {
    /// Nothing more.
    Idle,
    /// Move the sliding window one step on (the state was not touched).
    StepAnimation,
    /// Edge hiding is off: start the slide back, if any; the docking was
    /// forgotten.
    Disable { animation: Option<EdgeAnimation> },
    /// Start the slide back of the hidden window, and repaint it if asked.
    Restore { slide: EdgeAnimation, repaint: bool },
    /// Hiding was tried: start the slide, if any, and refresh the input
    /// hooks.
    Hide { animation: Option<EdgeAnimation> },
}

/// What a tick of the edge timer reads of the world.
#[derive(Clone, Copy, Debug, PartialEq, Eq, Structural)]
pub struct EdgeTickInput {
    pub now: u64,
    pub enabled: bool,
    pub cursor: Point,
    pub cursor_in_scope: bool,
    pub scene: EdgeScene,
}

/// One tick of the edge timer of a visible window:
/// - while a slide runs, the caller moves it on;
/// - with edge hiding off, a hidden window is brought back and the docking
///   forgotten;
/// - a hidden window comes back when the cursor enters its hot zone (after
///   first leaving it, when it hid with the cursor there), or at once when
///   it has no hot zone;
/// - a shown window is armed while the cursor is over it; once armed and
///   left, outside any grace, a hide is scheduled, and when that time has
///   come the window hides.
pub open spec fn edge_tick(s: EdgeDockState, i: EdgeTickInput) -> (EdgeDockState, EdgeTickAction) {
    let sc = i.scene;
    if s.edge_anim_until is Some {
        (s, EdgeTickAction::StepAnimation)
    } else if !i.enabled {
        let (s1, a) = restored_state(s, i.now, sc.dock_rect);
        (cleared_state(s1), EdgeTickAction::Disable { animation: a })
    } else if s.edge_hidden {
        match hotzone(s, sc.monitor, sc.margin_v as int) {
            Some(h) => {
                let in_hot = point_in(i.cursor.x as int, i.cursor.y as int, h);
                if s.edge_restore_wait_leave {
                    if !in_hot {
                        (EdgeDockState { edge_restore_wait_leave: false, ..s }, EdgeTickAction::Idle)
                    } else {
                        (s, EdgeTickAction::Idle)
                    }
                } else if in_hot {
                    (
                        restored_state(s, i.now, sc.dock_rect).0,
                        EdgeTickAction::Restore {
                            slide: restore_animation(s, sc.dock_rect),
                            repaint: true,
                        },
                    )
                } else {
                    (s, EdgeTickAction::Idle)
                }
            },
            None => (
                restored_state(s, i.now, sc.dock_rect).0,
                EdgeTickAction::Restore { slide: restore_animation(s, sc.dock_rect), repaint: false },
            ),
        }
    } else if i.cursor_in_scope {
        (
            EdgeDockState { edge_hide_armed: true, edge_hide_pending_until: None, ..s },
            EdgeTickAction::Idle,
        )
    } else if after(s.edge_hide_grace_until, i.now) || !s.edge_hide_armed {
        (s, EdgeTickAction::Idle)
    } else if s.edge_hide_pending_until is None {
        (
            EdgeDockState {
                edge_hide_pending_until: Some(
                    (pending_base(s, i.now) + EDGE_AUTO_HIDE_DELAY_MS) as u64,
                ),
                ..s
            },
            EdgeTickAction::Idle,
        )
    } else if after(s.edge_hide_pending_until, i.now) {
        (s, EdgeTickAction::Idle)
    } else {
        let (s1, a) = hidden_state(s, true, false, i.cursor_in_scope, i.cursor, sc, i.now);
        (s1, EdgeTickAction::Hide { animation: a })
    }
}

/// One tick of the edge timer (see `edge_tick`).
pub fn handle_edge_auto_hide_tick(state: &mut EdgeDockState, input: &EdgeTickInput) -> (r:
    EdgeTickAction)
    requires
        state_ok(*old(state)),
        clock_ok(*old(state), input.now),
        scene_ok(input.scene),
    ensures
        (*final(state), r) == edge_tick(*old(state), *input),
        state_ok(*final(state)),
{
    let now = input.now;
    let scene = &input.scene;
    if state.edge_anim_until.is_some() {
        return EdgeTickAction::StepAnimation;
    }
    if !input.enabled {
        let a = restore_edge_hidden_window(state, now, &scene.dock_rect);
        clear_edge_dock_state(state);
        return EdgeTickAction::Disable { animation: a };
    }
    if state.edge_hidden {
        match edge_hotzone_rect(state, &scene.monitor, scene.margin_v) {
            Some(hot) => {
                let in_hot = pt_in_rect_screen(&input.cursor, &hot);
                if state.edge_restore_wait_leave {
                    if !in_hot {
                        state.edge_restore_wait_leave = false;
                    }
                    return EdgeTickAction::Idle;
                }
                if in_hot {
                    match restore_edge_hidden_window(state, now, &scene.dock_rect) {
                        Some(a) => return EdgeTickAction::Restore { slide: a, repaint: true },
                        None => return EdgeTickAction::Idle,
                    }
                }
                return EdgeTickAction::Idle;
            },
            None => {
                match restore_edge_hidden_window(state, now, &scene.dock_rect) {
                    Some(a) => return EdgeTickAction::Restore { slide: a, repaint: false },
                    None => return EdgeTickAction::Idle,
                }
            },
        }
    }
    if input.cursor_in_scope {
        state.edge_hide_armed = true;
        state.edge_hide_pending_until = None;
        return EdgeTickAction::Idle;
    }
    if edge_grace_active(state, now) {
        return EdgeTickAction::Idle;
    }
    if !state.edge_hide_armed {
        return EdgeTickAction::Idle;
    }
    if state.edge_hide_pending_until.is_none() {
        edge_set_hide_pending(state, now, EDGE_AUTO_HIDE_DELAY_MS);
        return EdgeTickAction::Idle;
    }
    if edge_hide_pending_active(state, now) {
        return EdgeTickAction::Idle;
    }
    let a = hide_edge_docked_window_with_scope(
        state,
        true,
        false,
        input.cursor_in_scope,
        &input.cursor,
        scene,
        now,
    );
    EdgeTickAction::Hide { animation: a }
}

/// The state after the user moved a shown, visible window at `now`, with
/// edge hiding on and no slide running: docked anew, disarmed, with no
/// pending hide and in a grace of `edge_interaction_grace_ms`, or with its
/// docking forgotten when no edge is near; else unchanged.
pub open spec fn moved_state(s: EdgeDockState, enabled: bool, visible: bool, sc: EdgeScene, now: u64) -> EdgeDockState {
    if !enabled || s.edge_hidden || after(s.edge_anim_until, now) || !visible {
        s
    } else {
        let (s1, docked) = updated_state(
            s,
            sc.dock_rect,
            sc.work,
            sc.monitor,
            sc.margin_v as int,
            sc.margin_h as int,
        );
        if docked {
            EdgeDockState {
                edge_hide_armed: false,
                edge_hide_pending_until: None,
                edge_hide_grace_until: Some(now),
                ..s1
            }
        } else {
            cleared_state(s1)
        }
    }
}

/// Notes that the user moved the window (see `moved_state`).
pub fn note_window_moved_for_edge_hide(
    state: &mut EdgeDockState,
    enabled: bool,
    visible: bool,
    scene: &EdgeScene,
    now: u64,
)
    requires
        scene_ok(*scene),
    ensures
        *final(state) == moved_state(*old(state), enabled, visible, *scene, now),
{
    if !enabled || state.edge_hidden || edge_animation_active(state, now) || !visible {
        return;
    }
    if update_edge_dock_state(
        state,
        &scene.dock_rect,
        &scene.work,
        &scene.monitor,
        scene.margin_v,
        scene.margin_h,
    ) {
        state.edge_hide_armed = false;
        state.edge_hide_pending_until = None;
        edge_set_grace(state, now, edge_interaction_grace_ms());
    } else {
        clear_edge_dock_state(state);
    }
}

// ───────────────────────── laws ─────────────────────────

/// A hidden window leaves a strip exactly `peek` wide inside its dock area
/// at the docked edge (at the bottom of the monitor for the bottom edge),
/// and along that edge it stays within the dock area where it fits.
pub proof fn law_hidden_window_leaves_peek(s: EdgeDockState, rc: Rect, monitor: Rect, peek: int)
    requires
        side_valid(s.edge_hidden_side),
        docked_valid(s),
    ensures
        ({
            let d = docked(s);
            let width = max(rc.right - rc.left, 1);
            let height = max(rc.bottom - rc.top, 1);
            let side = s.edge_hidden_side;
            hidden_position(s, rc, monitor, peek) matches Some((x, y)) && (side
                == EDGE_AUTO_HIDE_LEFT ==> x + width == d.left + peek) && (side
                == EDGE_AUTO_HIDE_RIGHT ==> x == d.right - peek) && (side == EDGE_AUTO_HIDE_TOP
                ==> y + height == d.top + peek) && (side == EDGE_AUTO_HIDE_BOTTOM ==> y
                == monitor.bottom - peek) && ((side == EDGE_AUTO_HIDE_LEFT || side
                == EDGE_AUTO_HIDE_RIGHT) ==> d.top <= y && (height <= d.bottom - d.top ==> y
                + height <= d.bottom)) && ((side == EDGE_AUTO_HIDE_TOP || side
                == EDGE_AUTO_HIDE_BOTTOM) ==> d.left <= x && (width <= d.right - d.left ==> x
                + width <= d.right))
        }),
{
}

/// A window that hides comes back to where it was: after a hide that
/// starts a slide, bringing the window back (from wherever it then is)
/// slides it to the position it had when it hid, and shows it.
pub proof fn law_hide_then_restore_returns(
    s: EdgeDockState,
    check_scope: bool,
    cursor_in_scope: bool,
    cursor: Point,
    sc: EdgeScene,
    now: u64,
    later: u64,
    rc: Rect,
)
    requires
        hidden_state(s, true, check_scope, cursor_in_scope, cursor, sc, now).1 is Some,
    ensures
        ({
            let hidden = hidden_state(s, true, check_scope, cursor_in_scope, cursor, sc, now).0;
            let (shown, a) = restored_state(hidden, later, rc);
            &&& hidden.edge_hidden
            &&& !shown.edge_hidden
            &&& a == Some(
                EdgeAnimation {
                    from_x: rc.left,
                    from_y: rc.top,
                    to_x: sc.dock_rect.left,
                    to_y: sc.dock_rect.top,
                },
            )
        }),
{
}

/// Turning edge hiding off shows the window and forgets its docking: after
/// such a tick (with no slide running) the window is shown, on no edge,
/// disarmed and with no hide pending.
pub proof fn law_tick_disabled_shows(s: EdgeDockState, i: EdgeTickInput)
    requires
        s.edge_anim_until is None,
        !i.enabled,
    ensures
        ({
            let t = edge_tick(s, i).0;
            !t.edge_hidden && t.edge_hidden_side == EDGE_AUTO_HIDE_NONE && !t.edge_hide_armed
                && t.edge_hide_pending_until is None
        }),
{
}

/// The cursor brings a hidden window back: a tick with the cursor in the
/// hot zone (no slide running, not waiting for the cursor to leave) shows
/// the window and slides it back to the position kept for restoring.
pub proof fn law_tick_hot_cursor_restores(s: EdgeDockState, i: EdgeTickInput)
    requires
        s.edge_anim_until is None,
        i.enabled,
        s.edge_hidden,
        !s.edge_restore_wait_leave,
        hotzone(s, i.scene.monitor, i.scene.margin_v as int) matches Some(h) && point_in(
            i.cursor.x as int,
            i.cursor.y as int,
            h,
        ),
    ensures
        ({
            let (t, a) = edge_tick(s, i);
            &&& !t.edge_hidden
            &&& a matches EdgeTickAction::Restore { slide, repaint }
            &&& repaint
            &&& slide.to_x == s.edge_restore_x
            &&& slide.to_y == s.edge_restore_y
        }),
{
}

/// A window never hides while the cursor is over it: a tick with the
/// cursor in the window's scope leaves a shown window shown and armed.
pub proof fn law_tick_cursor_inside_keeps_shown(s: EdgeDockState, i: EdgeTickInput)
    requires
        s.edge_anim_until is None,
        i.enabled,
        !s.edge_hidden,
        i.cursor_in_scope,
    ensures
        !edge_tick(s, i).0.edge_hidden,
        edge_tick(s, i).0.edge_hide_armed,
        edge_tick(s, i).1 == EdgeTickAction::Idle,
{
}

} // verus!
