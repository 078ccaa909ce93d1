//! Hiding a window when the user clicks elsewhere, and which windows need
//! the outside-hide timer, the edge timer and the Escape keyboard hook.

use vstd::prelude::*;
use crate::geometry::{point_in, pt_in_rect_screen, Point, Rect};
use crate::hosts::WindowRole;

verus! {

/// What the timers and hooks read of one of the program's windows.
#[derive(Clone, Copy, Debug, PartialEq, Eq, Structural)]
pub struct HostWindowState {
    /// The window exists.
    pub exists: bool,
    /// The window is visible.
    pub visible: bool,
    /// The window carries the program's state.
    pub has_state: bool,
    pub role: WindowRole,
    /// The main window is shown without taking focus.
    pub noactivate: bool,
    /// The setting: hide when another window is clicked.
    pub auto_hide_on_blur: bool,
    /// The setting: hide at a screen edge.
    pub edge_auto_hide: bool,
    /// The window's settings window is visible.
    pub settings_visible: bool,
}

/// Whether a window floats without focus: the quick window, or the main
/// window shown without taking focus.
pub open spec fn floats(w: HostWindowState) -> bool {
    w.role == WindowRole::Quick || w.noactivate
}

/// Whether a window needs the outside-hide timer: it exists, is visible,
/// carries state, hides on outside clicks and floats without focus.
pub open spec fn needs_outside_hide_timer(w: HostWindowState) -> bool {
    w.exists && w.visible && w.has_state && w.auto_hide_on_blur && floats(w)
}

/// Whether a window needs the outside-hide timer (see
/// `needs_outside_hide_timer`).
pub fn window_needs_outside_hide_timer(w: &HostWindowState) -> (r: bool)
    ensures
        r == needs_outside_hide_timer(*w),
{
    if !w.exists || !w.visible || !w.has_state {
        return false;
    }
    w.auto_hide_on_blur && (w.role == WindowRole::Quick || w.noactivate)
}

/// Whether a window needs the edge timer: it exists, is visible, carries
/// state, its settings window is not shown, and edge hiding is on.
pub open spec fn needs_edge_auto_hide_timer(w: HostWindowState) -> bool {
    w.exists && w.visible && w.has_state && !w.settings_visible && w.edge_auto_hide
}

/// Whether a window needs the edge timer (see
/// `needs_edge_auto_hide_timer`).
pub fn window_needs_edge_auto_hide_timer(w: &HostWindowState) -> (r: bool)
    ensures
        r == needs_edge_auto_hide_timer(*w),
{
    if !w.exists || !w.visible || !w.has_state {
        return false;
    }
    if w.settings_visible {
        return false;
    }
    w.edge_auto_hide
}

/// Whether the Escape keyboard hook is needed: some visible window that
/// carries state floats without focus.
pub open spec fn quick_escape_needed(ws: Seq<HostWindowState>) -> bool {
    exists|i: int| 0 <= i < ws.len() && #[trigger] ws[i].visible && ws[i].has_state && floats(ws[i])
}

/// Whether the Escape keyboard hook is needed (see `quick_escape_needed`).
pub fn any_visible_window_requires_quick_escape_try(ws: &[HostWindowState]) -> (r: bool)
    ensures
        r == quick_escape_needed(ws@),
{
    let n = ws.len();
    for i in 0..n
        invariant
            n == ws@.len(),
            forall|j: int| 0 <= j < i ==> !(#[trigger] ws@[j].visible && ws@[j].has_state && floats(ws@[j])),
    {
        let w = ws[i];
        if w.visible && w.has_state && (w.role == WindowRole::Quick || w.noactivate) {
            assert(ws@[i as int].visible && ws@[i as int].has_state && floats(ws@[i as int]));
            return true;
        }
    }
    false
}

/// Whether a screen point falls on a window: the window is present, is
/// visible, and the point lies in its rectangle or over one of its child
/// windows (`over_tree`, which the caller reads).
pub open spec fn hits_window_scope(present: bool, visible: bool, pt: Point, rect: Rect, over_tree: bool) -> bool {
    present && visible && (point_in(pt.x as int, pt.y as int, rect) || over_tree)
}

/// Whether a screen point falls on a window (see `hits_window_scope`).
pub fn screen_point_hits_window_scope(
    present: bool,
    visible: bool,
    pt: &Point,
    rect: &Rect,
    over_tree: bool,
) -> (r: bool)
    ensures
        r == hits_window_scope(present, visible, *pt, *rect, over_tree),
{
    if !present || !visible {
        return false;
    }
    if pt_in_rect_screen(pt, rect) {
        return true;
    }
    over_tree
}

/// Whether a click at a point is not a click elsewhere: it falls on an
/// open popup menu, or on one of the program's windows (`scope_hits`: for
/// each of them, whether the point falls on it).
pub fn should_ignore_outside_click_for_point(hits_popup_menu: bool, scope_hits: &[bool]) -> (r: bool)
    ensures
        r == (hits_popup_menu || exists|i: int| 0 <= i < scope_hits@.len() && #[trigger] scope_hits@[i]),
{
    if hits_popup_menu {
        return true;
    }
    let n = scope_hits.len();
    for i in 0..n
        invariant
            n == scope_hits@.len(),
            forall|j: int| 0 <= j < i ==> !#[trigger] scope_hits@[j],
    {
        if scope_hits[i] {
            return true;
        }
    }
    false
}

/// What a tick of the outside-hide timer does.
#[derive(Clone, Copy, Debug, PartialEq, Eq, Structural)]
pub enum OutsideHideAction {
    /// Nothing.
    Nothing,
    /// Outside hiding is off: stop the timer.
    StopTimer,
    /// Hide the window, and refresh the hooks.
    Hide,
}

/// One tick of the outside-hide timer of a window: a window that is not
/// visible or carries no state is left alone; with outside hiding off the
/// timer stops; a window that takes focus, a menu of the popup, the cursor
/// over one of the program's windows or no mouse button down leave it
/// shown; else the window hides.
pub open spec fn outside_hide_tick_of(
    w: HostWindowState,
    popup_menu_active: bool,
    cursor_over_program: bool,
    mouse_button_down: bool,
) -> OutsideHideAction {
    if !w.has_state || !w.visible {
        OutsideHideAction::Nothing
    } else if !w.auto_hide_on_blur {
        OutsideHideAction::StopTimer
    } else if !floats(w) || popup_menu_active || cursor_over_program || !mouse_button_down {
        OutsideHideAction::Nothing
    } else {
        OutsideHideAction::Hide
    }
}

/// One tick of the outside-hide timer (see `outside_hide_tick_of`); the
/// caller reads whether a popup menu is open, whether the cursor is over
/// one of the program's windows, and whether a mouse button is down.
pub fn handle_outside_hide_tick(
    w: &HostWindowState,
    popup_menu_active: bool,
    cursor_over_program: bool,
    mouse_button_down: bool,
) -> (r: OutsideHideAction)
    ensures
        r == outside_hide_tick_of(*w, popup_menu_active, cursor_over_program, mouse_button_down),
{
    if !w.has_state || !w.visible {
        return OutsideHideAction::Nothing;
    }
    if !w.auto_hide_on_blur {
        return OutsideHideAction::StopTimer;
    }
    if !(w.role == WindowRole::Quick || w.noactivate) {
        return OutsideHideAction::Nothing;
    }
    if popup_menu_active || cursor_over_program {
        return OutsideHideAction::Nothing;
    }
    if !mouse_button_down {
        return OutsideHideAction::Nothing;
    }
    OutsideHideAction::Hide
}

/// Only a window that runs the outside-hide timer is ever hidden by it, and
/// a click on one of the program's own windows never hides it.
pub proof fn law_outside_hide_needs_timer(
    w: HostWindowState,
    popup_menu_active: bool,
    cursor_over_program: bool,
    mouse_button_down: bool,
)
    requires
        w.visible ==> w.exists,
    ensures
        outside_hide_tick_of(w, popup_menu_active, cursor_over_program, mouse_button_down)
            == OutsideHideAction::Hide ==> needs_outside_hide_timer(w) && !cursor_over_program
            && !popup_menu_active && mouse_button_down,
{
}

/// A window that runs the outside-hide timer floats without focus, so the
/// Escape keyboard hook is needed while it is up.
pub proof fn law_outside_hide_window_gets_escape_hook(ws: Seq<HostWindowState>, i: int)
    requires
        0 <= i < ws.len(),
        needs_outside_hide_timer(ws[i]),
    ensures
        quick_escape_needed(ws),
{
    assert(ws[i].visible && ws[i].has_state && floats(ws[i]));
}

/// A click on a floating window itself never hides it: when the cursor
/// lies in the window's rectangle, the click is not one elsewhere and the
/// tick leaves the window shown.
pub proof fn law_click_on_window_keeps_it(
    w: HostWindowState,
    pt: Point,
    rect: Rect,
    over_tree: bool,
    hits_popup_menu: bool,
    scope_hits: Seq<bool>,
    i: int,
    popup_menu_active: bool,
    mouse_button_down: bool,
)
    requires
        point_in(pt.x as int, pt.y as int, rect),
        0 <= i < scope_hits.len(),
        scope_hits[i] == hits_window_scope(w.exists, w.visible, pt, rect, over_tree),
        w.visible ==> w.exists,
    ensures
        ({
            let ignored = hits_popup_menu || exists|j: int| 0 <= j < scope_hits.len() && #[trigger] scope_hits[j];
            outside_hide_tick_of(w, popup_menu_active, ignored, mouse_button_down) != OutsideHideAction::Hide
        }),
{
    if w.visible {
        assert(scope_hits[i]);
    }
}

} // verus!
