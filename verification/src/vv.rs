//! The quick-paste popup that opens next to the text caret: where it goes
//! and which keys choose from it.

use vstd::prelude::*;
use crate::edge::abs;
use crate::geometry::{fits_i32, Point, Rect};

verus! {

/// The popup's width.
pub const VV_POPUP_W: i32 = 360;

/// The height of the popup's header.
pub const VV_POPUP_HEADER_H: i32 = 58;

/// The height of one row of the popup.
pub const VV_POPUP_ROW_H: i32 = 30;

/// The most items the popup lists.
pub const VV_POPUP_MAX_ITEMS: usize = 9;

/// How far across an input-method point may lie from the caret.
pub const VV_IMM_POINT_MAX_X_DRIFT: i32 = 120;

/// How far up or down an input-method point may lie from the caret.
pub const VV_IMM_POINT_MAX_Y_DRIFT: i32 = 180;

/// Where the popup is anchored: the left edge, the edge it is set against,
/// whether it goes above that edge (else below), and whether the anchor is
/// an exact caret rectangle (else a point).
#[derive(Clone, Copy, Debug, PartialEq, Eq, Structural)]
pub struct VvOverlayAnchor {
    pub left: i32,
    pub edge_y: i32,
    pub align_bottom: bool,
    pub exact_rect: bool,
}

/// Whether the popup goes above a caret spanning `top .. bottom`: when
/// there is less room than its height below the caret and more room above
/// than below.
pub open spec fn goes_above(top: int, bottom: int, popup_height: int, work_area: Rect) -> bool {
    work_area.bottom - bottom < popup_height && top - work_area.top > work_area.bottom - bottom
}

/// Whether the room above and below a caret from `top` to `bottom` in the
/// work area can be measured in an `i32`.
pub open spec fn edge_fits(top: int, bottom: int, work_area: Rect) -> bool {
    fits_i32(work_area.bottom - bottom) && fits_i32(top - work_area.top)
}

/// The edge the popup is set against, and whether it goes above it (see
/// `goes_above`): the caret's top when it goes above, else its bottom.
pub fn vv_choose_overlay_edge(top: i32, bottom: i32, popup_height: i32, work_area: &Rect) -> (r: (
    i32,
    bool,
))
    requires
        fits_i32(work_area.bottom - bottom),
        fits_i32(top - work_area.top),
    ensures
        r.1 == goes_above(top as int, bottom as int, popup_height as int, *work_area),
        r.0 == (if r.1 {
            top
        } else {
            bottom
        }),
{
    let below_space = work_area.bottom - bottom;
    let above_space = top - work_area.top;
    let align_bottom = below_space < popup_height && above_space > below_space;
    let edge_y = if align_bottom {
        top
    } else {
        bottom
    };
    (edge_y, align_bottom)
}

/// Whether an anchor lies within `max_dx` across and `max_dy` up or down of
/// another.
pub open spec fn anchor_within(a: VvOverlayAnchor, b: VvOverlayAnchor, max_dx: int, max_dy: int) -> bool {
    abs(a.left - b.left) <= max_dx && abs(a.edge_y - b.edge_y) <= max_dy
}

/// Whether the distances between two anchors can be measured in an `i32`.
pub open spec fn anchors_comparable(a: VvOverlayAnchor, b: VvOverlayAnchor) -> bool {
    abs(a.left - b.left) <= i32::MAX && abs(a.edge_y - b.edge_y) <= i32::MAX
}

/// The distance between two coordinates.
fn distance(a: i32, b: i32) -> (d: i32)
    requires
        abs(a - b) <= i32::MAX,
    ensures
        d == abs(a - b),
{
    let v = a - b;
    if v < 0 {
        -v
    } else {
        v
    }
}

/// Whether `anchor` lies near `reference` (see `anchor_within`).
pub fn vv_anchor_within(
    anchor: &VvOverlayAnchor,
    reference: &VvOverlayAnchor,
    max_dx: i32,
    max_dy: i32,
) -> (r: bool)
    requires
        abs(anchor.left - reference.left) <= i32::MAX,
        abs(anchor.edge_y - reference.edge_y) <= i32::MAX,
    ensures
        r == anchor_within(*anchor, *reference, max_dx as int, max_dy as int),
{
    distance(anchor.left, reference.left) <= max_dx && distance(anchor.edge_y, reference.edge_y)
        <= max_dy
}

/// Whether an input-method anchor can be trusted: an exact rectangle
/// always; a point when it lies near the caret, or, failing that, within a
/// wider reach of the focused control; a point with neither to check
/// against.
pub open spec fn imm_anchor_plausible(
    a: VvOverlayAnchor,
    caret: Option<VvOverlayAnchor>,
    focus: Option<VvOverlayAnchor>,
) -> bool {
    if a.exact_rect {
        true
    } else {
        match (caret, focus) {
            (Some(c), _) if anchor_within(
                a,
                c,
                VV_IMM_POINT_MAX_X_DRIFT as int,
                VV_IMM_POINT_MAX_Y_DRIFT as int,
            ) => true,
            (_, Some(f)) => anchor_within(
                a,
                f,
                VV_IMM_POINT_MAX_X_DRIFT + 60,
                VV_IMM_POINT_MAX_Y_DRIFT + 40,
            ),
            (Some(_), None) => false,
            (None, None) => true,
        }
    }
}

/// Whether an input-method anchor can be trusted (see
/// `imm_anchor_plausible`).
pub fn vv_imm_point_anchor_is_plausible(
    anchor: &VvOverlayAnchor,
    caret_anchor: Option<&VvOverlayAnchor>,
    focus_anchor: Option<&VvOverlayAnchor>,
) -> (r: bool)
    requires
        !anchor.exact_rect ==> (caret_anchor matches Some(c) ==> anchors_comparable(*anchor, *c)),
        !anchor.exact_rect ==> (focus_anchor matches Some(f) ==> anchors_comparable(*anchor, *f)),
    ensures
        r == imm_anchor_plausible(
            *anchor,
            match caret_anchor {
                Some(c) => Some(*c),
                None => None,
            },
            match focus_anchor {
                Some(f) => Some(*f),
                None => None,
            },
        ),
{
    if anchor.exact_rect {
        return true;
    }
    if let Some(caret) = caret_anchor {
        if vv_anchor_within(anchor, caret, VV_IMM_POINT_MAX_X_DRIFT, VV_IMM_POINT_MAX_Y_DRIFT) {
            return true;
        }
        if let Some(focus) = focus_anchor {
            return vv_anchor_within(
                anchor,
                focus,
                VV_IMM_POINT_MAX_X_DRIFT + 60,
                VV_IMM_POINT_MAX_Y_DRIFT + 40,
            );
        }
        return false;
    }
    if let Some(focus) = focus_anchor {
        return vv_anchor_within(
            anchor,
            focus,
            VV_IMM_POINT_MAX_X_DRIFT + 60,
            VV_IMM_POINT_MAX_Y_DRIFT + 40,
        );
    }
    true
}

/// The rectangle of row `row` of the popup, in its client coordinates.
pub fn vv_popup_row_rect(row: usize) -> (r: Rect)
    requires
        VV_POPUP_HEADER_H + 10 + row * VV_POPUP_ROW_H + VV_POPUP_ROW_H <= i32::MAX,
    ensures
        r.left == 12,
        r.top == VV_POPUP_HEADER_H + 10 + row * VV_POPUP_ROW_H,
        r.right == VV_POPUP_W - 12,
        r.bottom == r.top + VV_POPUP_ROW_H - 2,
{
    assert(row <= i32::MAX) by (nonlinear_arith)
        requires
            VV_POPUP_HEADER_H + 10 + row * VV_POPUP_ROW_H + VV_POPUP_ROW_H <= i32::MAX,
            VV_POPUP_ROW_H == 30,
            VV_POPUP_HEADER_H == 58,
    ;
    let top = VV_POPUP_HEADER_H + 10 + row as i32 * VV_POPUP_ROW_H;
    Rect { left: 12, top, right: VV_POPUP_W - 12, bottom: top + VV_POPUP_ROW_H - 2 }
}

/// The rectangle of the popup's group button, in its client coordinates.
pub fn vv_popup_group_rect() -> (r: Rect)
    ensures
        r == (Rect { left: 210, top: 10, right: 346, bottom: 34 }),
{
    Rect { left: VV_POPUP_W - 150, top: 10, right: VV_POPUP_W - 14, bottom: 34 }
}

/// The popup's height for `rows` rows: the header, a margin and at least
/// one row.
pub fn vv_popup_height(rows: usize) -> (r: i32)
    requires
        VV_POPUP_HEADER_H + 20 + rows * VV_POPUP_ROW_H <= i32::MAX,
    ensures
        r == VV_POPUP_HEADER_H + 20 + (if rows >= 1 {
            rows as int
        } else {
            1
        }) * VV_POPUP_ROW_H,
{
    let n: usize = if rows >= 1 {
        rows
    } else {
        1
    };
    assert(n <= i32::MAX && VV_POPUP_HEADER_H + 20 + n * VV_POPUP_ROW_H <= i32::MAX) by (nonlinear_arith)
        requires
            VV_POPUP_HEADER_H + 20 + rows * VV_POPUP_ROW_H <= i32::MAX,
            n == rows || n == 1,
            VV_POPUP_ROW_H == 30,
            VV_POPUP_HEADER_H == 58,
    ;
    VV_POPUP_HEADER_H + 20 + n as i32 * VV_POPUP_ROW_H
}

/// Whether a rectangle has an area.
pub fn vv_rect_has_area(rc: &Rect) -> (r: bool)
    ensures
        r == (rc.right > rc.left && rc.bottom > rc.top),
{
    rc.right > rc.left && rc.bottom > rc.top
}

/// Whether a rectangle was filled in: some coordinate is not 0.
pub fn vv_rect_has_point(rc: &Rect) -> (r: bool)
    ensures
        r == (rc.left != 0 || rc.top != 0 || rc.right != 0 || rc.bottom != 0),
{
    rc.left != 0 || rc.top != 0 || rc.right != 0 || rc.bottom != 0
}

/// The virtual key of the numeric keypad's 1.
pub const VK_NUMPAD1: u32 = 0x61;

/// The virtual key of the numeric keypad's 9.
pub const VK_NUMPAD9: u32 = 0x69;

/// The item a digit key chooses: `1` to `9`, on the main keys or the
/// keypad, choose the items 0 to 8.
pub fn vv_digit_index_from_vk(vk: u32) -> (r: Option<usize>)
    ensures
        r == (if 0x31 <= vk <= 0x39 {
            Some((vk - 0x31) as usize)
        } else if VK_NUMPAD1 <= vk <= VK_NUMPAD9 {
            Some((vk - VK_NUMPAD1) as usize)
        } else {
            None
        }),
{
    if 0x31 <= vk && vk <= 0x39 {
        Some((vk - 0x31) as usize)
    } else if VK_NUMPAD1 <= vk && vk <= VK_NUMPAD9 {
        Some((vk - VK_NUMPAD1) as usize)
    } else {
        None
    }
}

/// Whether a virtual key is a modifier: Shift, Ctrl, Alt or either Windows
/// key.
pub fn vv_is_modifier_vk(vk: u32) -> (r: bool)
    ensures
        r == (vk == 0x10 || vk == 0x11 || vk == 0x12 || vk == 0x5B || vk == 0x5C),
{
    vk == 0x10 || vk == 0x11 || vk == 0x12 || vk == 0x5B || vk == 0x5C
}

/// The anchor at a caret rectangle in screen coordinates, when it has an
/// area: its left edge and the edge chosen by `vv_choose_overlay_edge`.
pub open spec fn rect_anchor(rc: Rect, popup_height: int, work_area: Rect) -> VvOverlayAnchor {
    let above = goes_above(rc.top as int, rc.bottom as int, popup_height, work_area);
    VvOverlayAnchor {
        left: rc.left,
        edge_y: if above {
            rc.top
        } else {
            rc.bottom
        },
        align_bottom: above,
        exact_rect: true,
    }
}

/// The anchor at a point: its left, the edge chosen for a caret of no
/// height there.
pub open spec fn point_anchor(p: Point, popup_height: int, work_area: Rect) -> VvOverlayAnchor {
    VvOverlayAnchor {
        left: p.x,
        edge_y: p.y,
        align_bottom: goes_above(p.y as int, p.y as int, popup_height, work_area),
        exact_rect: false,
    }
}

/// The anchor at the caret rectangle that accessibility reports, in screen
/// coordinates; none when there is none or it has no area.
pub fn vv_accessible_caret_anchor(caret_rect: Option<Rect>, popup_height: i32, work_area: &Rect) -> (r:
    Option<VvOverlayAnchor>)
    requires
        caret_rect matches Some(rc) ==> edge_fits(rc.top as int, rc.bottom as int, *work_area),
    ensures
        r == (match caret_rect {
            Some(rc) => if rc.right > rc.left && rc.bottom > rc.top {
                Some(rect_anchor(rc, popup_height as int, *work_area))
            } else {
                None
            },
            None => None,
        }),
{
    let rc = match caret_rect {
        Some(rc) => rc,
        None => return None,
    };
    if !vv_rect_has_area(&rc) {
        return None;
    }
    let (edge_y, align_bottom) = vv_choose_overlay_edge(rc.top, rc.bottom, popup_height, work_area);
    Some(VvOverlayAnchor { left: rc.left, edge_y, align_bottom, exact_rect: true })
}

/// The bottom of a caret rectangle of the system caret, in the caret
/// window's client coordinates: its bottom, or 24 below its top when it
/// has no height.
pub fn vv_caret_bottom(caret: &Rect) -> (r: i32)
    requires
        caret.bottom > caret.top || caret.top + 24 <= i32::MAX,
    ensures
        r == (if caret.bottom > caret.top {
            caret.bottom as int
        } else {
            caret.top + 24
        }),
{
    if caret.bottom > caret.top {
        caret.bottom
    } else {
        caret.top + 24
    }
}

/// The anchor at the system caret, given the screen positions of its
/// top-left and bottom-left corners (see `vv_caret_bottom`).
pub fn vv_thread_caret_anchor(top_left: &Point, bottom_left: &Point, popup_height: i32, work_area: &Rect) -> (r:
    VvOverlayAnchor)
    requires
        edge_fits(top_left.y as int, bottom_left.y as int, *work_area),
    ensures
        r == (VvOverlayAnchor {
            left: top_left.x,
            edge_y: if goes_above(
                top_left.y as int,
                bottom_left.y as int,
                popup_height as int,
                *work_area,
            ) {
                top_left.y
            } else {
                bottom_left.y
            },
            align_bottom: goes_above(
                top_left.y as int,
                bottom_left.y as int,
                popup_height as int,
                *work_area,
            ),
            exact_rect: true,
        }),
{
    let (edge_y, align_bottom) = vv_choose_overlay_edge(
        top_left.y,
        bottom_left.y,
        popup_height,
        work_area,
    );
    VvOverlayAnchor { left: top_left.x, edge_y, align_bottom, exact_rect: true }
}

/// The anchor at the focused control's window rectangle, in screen
/// coordinates: none when there is none, or it has no area, is taller than
/// 180, or is wider than the work area less 40.
pub fn vv_focus_rect_anchor(window_rect: Option<Rect>, popup_height: i32, work_area: &Rect) -> (r:
    Option<VvOverlayAnchor>)
    requires
        window_rect matches Some(rc) ==> edge_fits(rc.top as int, rc.bottom as int, *work_area)
            && fits_i32(rc.right - rc.left) && fits_i32(rc.bottom - rc.top),
        fits_i32(work_area.right - work_area.left),
        fits_i32(work_area.right - work_area.left - 40),
    ensures
        r == (match window_rect {
            Some(rc) => if rc.right > rc.left && rc.bottom > rc.top && rc.bottom - rc.top <= 180
                && rc.right - rc.left <= (work_area.right - work_area.left) - 40 {
                Some(rect_anchor(rc, popup_height as int, *work_area))
            } else {
                None
            },
            None => None,
        }),
{
    let rc = match window_rect {
        Some(rc) => rc,
        None => return None,
    };
    if !vv_rect_has_area(&rc) {
        return None;
    }
    let width = rc.right - rc.left;
    let height = rc.bottom - rc.top;
    if width <= 0 || height <= 0 || height > 180 || width > (work_area.right - work_area.left) - 40 {
        return None;
    }
    let (edge_y, align_bottom) = vv_choose_overlay_edge(rc.top, rc.bottom, popup_height, work_area);
    Some(VvOverlayAnchor { left: rc.left, edge_y, align_bottom, exact_rect: true })
}

/// The anchor at the cursor; none when its position cannot be read.
pub fn vv_cursor_anchor(cursor: Option<Point>, popup_height: i32, work_area: &Rect) -> (r: Option<
    VvOverlayAnchor,
>)
    requires
        cursor matches Some(p) ==> edge_fits(p.y as int, p.y as int, *work_area),
    ensures
        r == (match cursor {
            Some(p) => Some(point_anchor(p, popup_height as int, *work_area)),
            None => None,
        }),
{
    let pt = match cursor {
        Some(p) => p,
        None => return None,
    };
    let (edge_y, align_bottom) = vv_choose_overlay_edge(pt.y, pt.y, popup_height, work_area);
    Some(VvOverlayAnchor { left: pt.x, edge_y, align_bottom, exact_rect: false })
}

/// The anchor the popup uses: the input method's when it can be trusted
/// (see `imm_anchor_plausible`), else the caret's, else the focused
/// control's, else the cursor's.
pub open spec fn chosen_anchor(
    imm: Option<VvOverlayAnchor>,
    caret: Option<VvOverlayAnchor>,
    focus: Option<VvOverlayAnchor>,
    cursor: Option<VvOverlayAnchor>,
) -> Option<VvOverlayAnchor> {
    match imm {
        Some(a) if imm_anchor_plausible(a, caret, focus) => Some(a),
        _ => match caret {
            Some(c) => Some(c),
            None => match focus {
                Some(f) => Some(f),
                None => cursor,
            },
        },
    }
}

/// Chooses the popup's anchor (see `chosen_anchor`).
pub fn vv_choose_anchor(
    imm: Option<VvOverlayAnchor>,
    caret: Option<VvOverlayAnchor>,
    focus: Option<VvOverlayAnchor>,
    cursor: Option<VvOverlayAnchor>,
) -> (r: Option<VvOverlayAnchor>)
    requires
        imm matches Some(a) ==> !a.exact_rect ==> (caret matches Some(c) ==> anchors_comparable(a, c)),
        imm matches Some(a) ==> !a.exact_rect ==> (focus matches Some(f) ==> anchors_comparable(a, f)),
    ensures
        r == chosen_anchor(imm, caret, focus, cursor),
{
    if let Some(a) = imm {
        let c = match &caret {
            Some(c) => Some(c),
            None => None,
        };
        let f = match &focus {
            Some(f) => Some(f),
            None => None,
        };
        if vv_imm_point_anchor_is_plausible(&a, c, f) {
            return Some(a);
        }
    }
    match caret {
        Some(c) => Some(c),
        None => match focus {
            Some(f) => Some(f),
            None => cursor,
        },
    }
}

/// Where the popup of height `height` goes for an anchor, in the work area
/// of the monitor at the anchor: at the anchor's left, above or below its
/// edge; then moved left to end at the work area's right, right to start
/// at its left, down to start at its top, and up to end at its bottom, in
/// that order.
pub open spec fn popup_position(a: VvOverlayAnchor, height: int, wa: Rect) -> (int, int) {
    let x0 = a.left as int;
    let x1 = if x0 + VV_POPUP_W > wa.right {
        wa.right - VV_POPUP_W
    } else {
        x0
    };
    let x2 = if x1 < wa.left {
        wa.left as int
    } else {
        x1
    };
    let y0 = if a.align_bottom {
        a.edge_y - height
    } else {
        a.edge_y as int
    };
    let y1 = if y0 < wa.top {
        wa.top as int
    } else {
        y0
    };
    let y2 = if y1 + height > wa.bottom {
        wa.bottom - height
    } else {
        y1
    };
    (x2, y2)
}

/// Whether each sum and difference that placing the popup computes fits
/// in an `i32`.
pub open spec fn popup_fits(a: VvOverlayAnchor, height: int, wa: Rect) -> bool {
    let y0 = if a.align_bottom {
        a.edge_y - height
    } else {
        a.edge_y as int
    };
    let y1 = if y0 < wa.top {
        wa.top as int
    } else {
        y0
    };
    &&& fits_i32(a.left + VV_POPUP_W)
    &&& fits_i32(wa.right - VV_POPUP_W)
    &&& fits_i32(y0)
    &&& fits_i32(y1 + height)
    &&& fits_i32(wa.bottom - height)
}

/// Where the popup goes (see `popup_position`).
pub fn vv_popup_position(anchor: &VvOverlayAnchor, height: i32, wa: &Rect) -> (r: (i32, i32))
    requires
        popup_fits(*anchor, height as int, *wa),
    ensures
        (r.0 as int, r.1 as int) == popup_position(*anchor, height as int, *wa),
{
    let mut x = anchor.left;
    let mut y = if anchor.align_bottom {
        anchor.edge_y - height
    } else {
        anchor.edge_y
    };
    if x + VV_POPUP_W > wa.right {
        x = wa.right - VV_POPUP_W;
    }
    if x < wa.left {
        x = wa.left;
    }
    if y < wa.top {
        y = wa.top;
    }
    if y + height > wa.bottom {
        y = wa.bottom - height;
    }
    (x, y)
}

/// The popup lies within the work area wherever it fits there: when the
/// work area is at least as wide as the popup and as tall as its height,
/// the popup starts and ends inside it.
pub proof fn law_popup_stays_in_work_area(a: VvOverlayAnchor, height: int, wa: Rect)
    requires
        wa.right - wa.left >= VV_POPUP_W,
        wa.bottom - wa.top >= height >= 0,
    ensures
        ({
            let (x, y) = popup_position(a, height, wa);
            wa.left <= x && x + VV_POPUP_W <= wa.right && wa.top <= y && y + height <= wa.bottom
        }),
{
}

// ───────────────────────── the keyboard hook ─────────────────────────

/// How soon a second V must follow the first to open the popup.
pub const VV_TRIGGER_TIMEOUT_MS: u64 = 300;

/// The virtual key of V.
pub const VK_V: u32 = 0x56;

/// The virtual key of Escape.
pub const VK_ESCAPE: u32 = 0x1B;

/// The virtual key of Backspace.
pub const VK_BACK: u32 = 0x08;

/// What the keyboard hook of the popup remembers. Times are milliseconds
/// of a monotonic clock.
#[derive(Clone, Copy, Debug, PartialEq, Eq, Structural)]
pub struct VvHookState {
    pub enabled: bool,
    pub main_hwnd: isize,
    pub popup_active: bool,
    pub popup_target: isize,
    pub popup_menu_active: bool,
    pub popup_menu_grace_until: Option<u64>,
    pub last_was_v: bool,
    pub last_v_target: isize,
    pub last_v_at: Option<u64>,
}

/// A key going down, as the hook sees it: the key, whether it was
/// injected, the foreground window, whether that window is to be ignored
/// (none, or one of this program's own), whether Ctrl, Alt or a Windows key
/// is held, and the time.
#[derive(Clone, Copy, Debug, PartialEq, Eq, Structural)]
pub struct VvKeyEvent {
    pub vk: u32,
    pub injected: bool,
    pub foreground: isize,
    pub foreground_ignored: bool,
    pub has_modifier: bool,
    pub now: u64,
}

/// What the hook posts to the main window.
#[derive(Clone, Copy, Debug, PartialEq, Eq, Structural)]
pub enum VvHookMessage {
    /// Hide the popup.
    Hide,
    /// Paste item `0` to `8` of the popup.
    Select(usize),
    /// Show the popup for this window.
    Show(isize),
}

/// What the hook does with a key: the message to post, if any, and whether
/// the key is swallowed (else it is passed on).
#[derive(Clone, Copy, Debug, PartialEq, Eq, Structural)]
pub struct VvHookDecision {
    pub message: Option<VvHookMessage>,
    pub swallow: bool,
}

/// The state with no V remembered.
pub open spec fn trigger_reset(s: VvHookState) -> VvHookState {
    VvHookState { last_was_v: false, last_v_target: 0, last_v_at: None, ..s }
}

/// The state with the popup closed.
pub open spec fn popup_closed(s: VvHookState) -> VvHookState {
    VvHookState { popup_active: false, popup_target: 0, ..s }
}

/// The milliseconds from `t` to `now`, 0 when `t` is later.
pub open spec fn elapsed_ms(t: u64, now: u64) -> int {
    if now >= t {
        now - t
    } else {
        0
    }
}

/// The decision for a key and the hook's next state:
/// - injected keys, a disabled hook or one without a main window pass on;
/// - with an ignored window in front, the V memory is forgotten and an open
///   popup hidden, unless its menu is open (or just closed);
/// - while the popup is open (and its menu is not): another window in
///   front hides it; a digit selects and is swallowed; Escape hides and is
///   swallowed; Backspace hides; any other key but a modifier hides;
/// - with Ctrl, Alt or a Windows key held, the V memory is forgotten;
/// - a V within 300 ms of a V on the same window shows the popup, another
///   V is remembered; any other key but a modifier forgets the V.
pub open spec fn vv_hook_step(s: VvHookState, e: VvKeyEvent) -> (VvHookState, VvHookDecision) {
    let pass = VvHookDecision { message: None, swallow: false };
    let menu_active = s.popup_menu_active || after_time(s.popup_menu_grace_until, e.now);
    if e.injected || !s.enabled || s.main_hwnd == 0 {
        (s, pass)
    } else if e.foreground_ignored {
        if s.popup_active && menu_active {
            (s, pass)
        } else if s.popup_active {
            (popup_closed(trigger_reset(s)), VvHookDecision { message: Some(VvHookMessage::Hide), swallow: false })
        } else {
            (trigger_reset(s), pass)
        }
    } else if s.popup_active {
        if menu_active {
            (s, pass)
        } else if e.foreground != s.popup_target {
            (
                VvHookState { last_v_at: None, ..popup_closed(s) },
                VvHookDecision { message: Some(VvHookMessage::Hide), swallow: false },
            )
        } else if digit_index(e.vk) is Some {
            (
                popup_closed(trigger_reset(s)),
                VvHookDecision { message: Some(VvHookMessage::Select(digit_index(e.vk)->0)), swallow: true },
            )
        } else if e.vk == VK_ESCAPE {
            (popup_closed(trigger_reset(s)), VvHookDecision { message: Some(VvHookMessage::Hide), swallow: true })
        } else if e.vk == VK_BACK {
            (
                VvHookState { last_v_at: None, ..popup_closed(s) },
                VvHookDecision { message: Some(VvHookMessage::Hide), swallow: false },
            )
        } else if !is_modifier(e.vk) {
            (popup_closed(trigger_reset(s)), VvHookDecision { message: Some(VvHookMessage::Hide), swallow: false })
        } else {
            (s, pass)
        }
    } else if e.has_modifier {
        (trigger_reset(s), pass)
    } else if e.vk == VK_V {
        let within = s.last_v_at matches Some(t) && elapsed_ms(t, e.now) <= VV_TRIGGER_TIMEOUT_MS;
        if s.last_was_v && s.last_v_target == e.foreground && within {
            (
                popup_closed(trigger_reset(s)),
                VvHookDecision { message: Some(VvHookMessage::Show(e.foreground)), swallow: false },
            )
        } else {
            (
                VvHookState { last_was_v: true, last_v_target: e.foreground, last_v_at: Some(e.now), ..s },
                pass,
            )
        }
    } else if !is_modifier(e.vk) {
        (trigger_reset(s), pass)
    } else {
        (s, pass)
    }
}

/// Whether an optional time lies after `now`.
pub open spec fn after_time(t: Option<u64>, now: u64) -> bool {
    t matches Some(u) && u > now
}

/// The item a digit key chooses (see `vv_digit_index_from_vk`).
pub open spec fn digit_index(vk: u32) -> Option<usize> {
    if 0x31 <= vk <= 0x39 {
        Some((vk - 0x31) as usize)
    } else if VK_NUMPAD1 <= vk <= VK_NUMPAD9 {
        Some((vk - VK_NUMPAD1) as usize)
    } else {
        None
    }
}

/// Whether a key is a modifier (see `vv_is_modifier_vk`).
pub open spec fn is_modifier(vk: u32) -> bool {
    vk == 0x10 || vk == 0x11 || vk == 0x12 || vk == 0x5B || vk == 0x5C
}

/// Forgets the remembered V.
fn reset_trigger(state: &mut VvHookState)
    ensures
        *final(state) == trigger_reset(*old(state)),
{
    state.last_was_v = false;
    state.last_v_target = 0;
    state.last_v_at = None;
}

/// Closes the popup.
fn close_popup(state: &mut VvHookState)
    ensures
        *final(state) == popup_closed(*old(state)),
{
    state.popup_active = false;
    state.popup_target = 0;
}

/// Decides what the keyboard hook does with a key going down (see
/// `vv_hook_step`).
pub fn vv_keyboard_hook_decide(state: &mut VvHookState, event: &VvKeyEvent) -> (r: VvHookDecision)
    ensures
        (*final(state), r) == vv_hook_step(*old(state), *event),
{
    let pass = VvHookDecision { message: None, swallow: false };
    if event.injected || !state.enabled || state.main_hwnd == 0 {
        return pass;
    }
    let menu_active = state.popup_menu_active || match state.popup_menu_grace_until {
        Some(until) => until > event.now,
        None => false,
    };
    if event.foreground_ignored {
        if state.popup_active && menu_active {
            return pass;
        }
        reset_trigger(state);
        if state.popup_active {
            close_popup(state);
            return VvHookDecision { message: Some(VvHookMessage::Hide), swallow: false };
        }
        return pass;
    }
    if state.popup_active {
        if menu_active {
            return pass;
        }
        if event.foreground != state.popup_target {
            close_popup(state);
            state.last_v_at = None;
            return VvHookDecision { message: Some(VvHookMessage::Hide), swallow: false };
        }
        if let Some(idx) = vv_digit_index_from_vk(event.vk) {
            close_popup(state);
            reset_trigger(state);
            return VvHookDecision { message: Some(VvHookMessage::Select(idx)), swallow: true };
        }
        if event.vk == VK_ESCAPE {
            close_popup(state);
            reset_trigger(state);
            return VvHookDecision { message: Some(VvHookMessage::Hide), swallow: true };
        }
        if event.vk == VK_BACK {
            close_popup(state);
            state.last_v_at = None;
            return VvHookDecision { message: Some(VvHookMessage::Hide), swallow: false };
        }
        if !vv_is_modifier_vk(event.vk) {
            close_popup(state);
            reset_trigger(state);
            return VvHookDecision { message: Some(VvHookMessage::Hide), swallow: false };
        }
        return pass;
    }
    if event.has_modifier {
        reset_trigger(state);
        return pass;
    }
    if event.vk == VK_V {
        let within = match state.last_v_at {
            Some(t) => {
                let elapsed = if event.now >= t {
                    event.now - t
                } else {
                    0
                };
                elapsed <= VV_TRIGGER_TIMEOUT_MS
            },
            None => false,
        };
        if state.last_was_v && state.last_v_target == event.foreground && within {
            close_popup(state);
            reset_trigger(state);
            return VvHookDecision { message: Some(VvHookMessage::Show(event.foreground)), swallow: false };
        }
        state.last_was_v = true;
        state.last_v_target = event.foreground;
        state.last_v_at = Some(event.now);
        return pass;
    }
    if !vv_is_modifier_vk(event.vk) {
        reset_trigger(state);
    }
    pass
}

/// The hook's state after the setting changes: the main window is noted,
/// and turning the popup off forgets everything it was doing.
pub fn update_vv_mode_state(state: &mut VvHookState, main_hwnd: isize, enabled: bool)
    ensures
        *final(state) == (if enabled {
            VvHookState { main_hwnd, enabled, ..*old(state) }
        } else {
            VvHookState {
                main_hwnd,
                enabled,
                popup_active: false,
                popup_target: 0,
                popup_menu_active: false,
                popup_menu_grace_until: None,
                last_was_v: false,
                last_v_target: 0,
                last_v_at: None,
            }
        }),
{
    state.main_hwnd = main_hwnd;
    state.enabled = enabled;
    if !enabled {
        state.last_was_v = false;
        state.last_v_target = 0;
        state.last_v_at = None;
        state.popup_active = false;
        state.popup_target = 0;
        state.popup_menu_active = false;
        state.popup_menu_grace_until = None;
    }
}

/// Pressing V twice opens the popup: on an enabled hook with a main window
/// and no popup open, a V on a window that is not ignored, without Ctrl,
/// Alt or a Windows key, followed within 300 ms by another such V on the
/// same window, shows the popup for that window; the first V alone does
/// not.
pub proof fn law_double_v_shows_popup(s: VvHookState, e1: VvKeyEvent, e2: VvKeyEvent)
    requires
        s.enabled,
        s.main_hwnd != 0,
        !s.popup_active,
        e1.vk == VK_V && e2.vk == VK_V,
        !e1.injected && !e2.injected,
        !e1.foreground_ignored && !e2.foreground_ignored,
        !e1.has_modifier && !e2.has_modifier,
        e1.foreground == e2.foreground,
        e1.now <= e2.now <= e1.now + VV_TRIGGER_TIMEOUT_MS,
        !(s.last_was_v && s.last_v_target == e1.foreground && (s.last_v_at matches Some(t)
            && elapsed_ms(t, e1.now) <= VV_TRIGGER_TIMEOUT_MS)),
    ensures
        vv_hook_step(s, e1).1.message is None,
        vv_hook_step(vv_hook_step(s, e1).0, e2).1 == (VvHookDecision {
            message: Some(VvHookMessage::Show(e1.foreground)),
            swallow: false,
        }),
        !vv_hook_step(vv_hook_step(s, e1).0, e2).0.popup_active,
{
}

/// A digit chooses from the open popup: with the popup open on the window
/// in front (and its menu closed), a digit key `1`-`9`, on the main keys
/// (0x31-0x39) or the keypad (0x61-0x69), selects its item (0 for `1`), is
/// swallowed, and closes the popup.
pub proof fn law_digit_selects_from_popup(s: VvHookState, e: VvKeyEvent)
    requires
        s.enabled,
        s.main_hwnd != 0,
        s.popup_active,
        !s.popup_menu_active,
        !after_time(s.popup_menu_grace_until, e.now),
        !e.injected,
        !e.foreground_ignored,
        e.foreground == s.popup_target,
        0x31 <= e.vk <= 0x39 || 0x61 <= e.vk <= 0x69,
    ensures
        vv_hook_step(s, e).1 == (VvHookDecision {
            message: Some(
                VvHookMessage::Select(
                    if e.vk <= 0x39 {
                        (e.vk - 0x31) as usize
                    } else {
                        (e.vk - 0x61) as usize
                    },
                ),
            ),
            swallow: true,
        }),
        !vv_hook_step(s, e).0.popup_active,
{
}

/// Other keys close the open popup: with the popup open on the window in
/// front (and its menu closed), Escape (0x1B) hides it and is swallowed;
/// any other key that is no digit and no modifier hides it and goes on to
/// the window; Shift, Ctrl, Alt and the Windows keys (0x10, 0x11, 0x12,
/// 0x5B, 0x5C) leave everything as it is. A key on another window in front
/// hides the popup and goes on.
pub proof fn law_other_keys_close_popup(s: VvHookState, e: VvKeyEvent)
    requires
        s.enabled,
        s.main_hwnd != 0,
        s.popup_active,
        !s.popup_menu_active,
        !after_time(s.popup_menu_grace_until, e.now),
        !e.injected,
        !e.foreground_ignored,
        !(0x31 <= e.vk <= 0x39 || 0x61 <= e.vk <= 0x69),
    ensures
        e.foreground != s.popup_target ==> vv_hook_step(s, e).1 == (VvHookDecision {
            message: Some(VvHookMessage::Hide),
            swallow: false,
        }) && !vv_hook_step(s, e).0.popup_active,
        e.foreground == s.popup_target && e.vk == 0x1B ==> vv_hook_step(s, e).1 == (VvHookDecision {
            message: Some(VvHookMessage::Hide),
            swallow: true,
        }) && !vv_hook_step(s, e).0.popup_active,
        e.foreground == s.popup_target && e.vk != 0x1B && !(e.vk == 0x10 || e.vk == 0x11 || e.vk == 0x12
            || e.vk == 0x5B || e.vk == 0x5C) ==> vv_hook_step(s, e).1 == (VvHookDecision {
            message: Some(VvHookMessage::Hide),
            swallow: false,
        }) && !vv_hook_step(s, e).0.popup_active,
        e.foreground == s.popup_target && (e.vk == 0x10 || e.vk == 0x11 || e.vk == 0x12 || e.vk == 0x5B
            || e.vk == 0x5C) ==> vv_hook_step(s, e) == (s, VvHookDecision { message: None, swallow: false }),
{
}

/// Injected keys change nothing and pass on.
pub proof fn law_injected_keys_pass(s: VvHookState, e: VvKeyEvent)
    requires
        e.injected,
    ensures
        vv_hook_step(s, e) == (s, VvHookDecision { message: None, swallow: false }),
{
}

// ───────────────────────── Escape and Ctrl+F while the quick window is up ─────────────────────────

/// Where a key goes while the program's windows want Escape and Ctrl+F.
#[derive(Clone, Copy, Debug, PartialEq, Eq, Structural)]
pub enum QuickEscapeRoute {
    /// Pass the key on.
    Pass,
    /// Send the key to the quick window and swallow it.
    Quick,
    /// Send the key to the main window and swallow it.
    Main,
}

/// Where Escape and Ctrl+F go: to the visible quick window, else to the
/// visible main window while it does not take focus; anything else, and
/// injected keys, pass on.
pub open spec fn quick_escape_route_of(
    vk: u32,
    injected: bool,
    ctrl_down: bool,
    quick_visible: bool,
    main_visible_noactivate: bool,
) -> QuickEscapeRoute {
    if injected || !((vk == 0x46 && ctrl_down) || vk == VK_ESCAPE) {
        QuickEscapeRoute::Pass
    } else if quick_visible {
        QuickEscapeRoute::Quick
    } else if main_visible_noactivate {
        QuickEscapeRoute::Main
    } else {
        QuickEscapeRoute::Pass
    }
}

/// Where a key goes (see `quick_escape_route_of`); the caller reads which
/// windows are visible and whether the main window takes focus.
pub fn quick_escape_route(
    vk: u32,
    injected: bool,
    ctrl_down: bool,
    quick_visible: bool,
    main_visible_noactivate: bool,
) -> (r: QuickEscapeRoute)
    ensures
        r == quick_escape_route_of(vk, injected, ctrl_down, quick_visible, main_visible_noactivate),
{
    if injected {
        return QuickEscapeRoute::Pass;
    }
    if !((vk == 0x46 && ctrl_down) || vk == VK_ESCAPE) {
        return QuickEscapeRoute::Pass;
    }
    if quick_visible {
        QuickEscapeRoute::Quick
    } else if main_visible_noactivate {
        QuickEscapeRoute::Main
    } else {
        QuickEscapeRoute::Pass
    }
}

// ───────────────────────── target and group ─────────────────────────

/// Whether a window is no target for the popup: no window, the main
/// window, the popup itself, or any window of this program
/// (`same_process`, which the caller reads).
pub open spec fn vv_target_ignored(hwnd: isize, main_hwnd: isize, popup_hwnd: isize, same_process: bool) -> bool {
    hwnd == 0 || hwnd == main_hwnd || hwnd == popup_hwnd || same_process
}

/// Whether a window is no target for the popup (see `vv_target_ignored`).
pub fn vv_target_is_ignored(hwnd: isize, main_hwnd: isize, popup_hwnd: isize, same_process: bool) -> (r: bool)
    ensures
        r == vv_target_ignored(hwnd, main_hwnd, popup_hwnd, same_process),
{
    if hwnd == 0 || hwnd == main_hwnd {
        return true;
    }
    if hwnd == popup_hwnd {
        return true;
    }
    same_process
}

/// The group the popup lists: the chosen group when it is one of the
/// source tab's groups, else all items (0).
pub open spec fn vv_resolved_group(group_id: i64, tab_group_ids: Seq<i64>) -> i64 {
    if group_id > 0 && tab_group_ids.contains(group_id) {
        group_id
    } else {
        0
    }
}

/// The group the popup lists (see `vv_resolved_group`); `tab_group_ids`
/// are the ids of the source tab's groups.
pub fn vv_popup_resolved_group_id(group_id: i64, tab_group_ids: &[i64]) -> (r: i64)
    ensures
        r == vv_resolved_group(group_id, tab_group_ids@),
{
    if group_id <= 0 {
        return 0;
    }
    let n = tab_group_ids.len();
    for i in 0..n
        invariant
            n == tab_group_ids@.len(),
            group_id > 0,
            forall|j: int| 0 <= j < i ==> tab_group_ids@[j] != group_id,
    {
        if tab_group_ids[i] == group_id {
            assert(tab_group_ids@[i as int] == group_id);
            assert(tab_group_ids@.contains(group_id));
            return group_id;
        }
    }
    0
}

} // verus!
