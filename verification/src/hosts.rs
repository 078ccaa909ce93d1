//! The registry of the program's two top-level windows: the main window
//! and the quick window. A window handle is held as its integer value; 0
//! is no window.

use vstd::prelude::*;

verus! {

/// Which of the two windows a window is.
#[derive(Clone, Copy, Debug, PartialEq, Eq, Structural)]
pub enum WindowRole {
    Main,
    Quick,
}

/// The role of a creation parameter: the quick window for 2, else the
/// main window.
pub open spec fn role_of_param(value: isize) -> WindowRole {
    if value == 2 {
        WindowRole::Quick
    } else {
        WindowRole::Main
    }
}

/// The creation parameter of a role: 1 for the main window, 2 for the
/// quick window.
pub open spec fn param_of_role(role: WindowRole) -> isize {
    match role {
        WindowRole::Main => 1isize,
        WindowRole::Quick => 2isize,
    }
}

/// A window created with the parameter of its role is created for that
/// role.
pub proof fn law_role_param_round_trip(role: WindowRole)
    ensures
        role_of_param(param_of_role(role)) == role,
{
}

impl WindowRole {
    /// The role a window was created for (see `role_of_param`).
    pub fn from_create_param(value: isize) -> (r: WindowRole)
        ensures
            r == role_of_param(value),
    {
        if value == 2 {
            WindowRole::Quick
        } else {
            WindowRole::Main
        }
    }

    /// The number a window of this role is created with.
    pub fn create_param(self) -> (r: isize)
        ensures
            r == param_of_role(self),
    {
        match self {
            WindowRole::Main => 1,
            WindowRole::Quick => 2,
        }
    }

    /// The window class of a window of this role.
    pub fn class_name(self) -> (r: &'static str)
        ensures
            r@ == (match self {
                WindowRole::Main => "ZsClipMain"@,
                WindowRole::Quick => "ZsClipQuick"@,
            }),
    {
        match self {
            WindowRole::Main => "ZsClipMain",
            WindowRole::Quick => "ZsClipQuick",
        }
    }
}

/// The handles of the main and the quick window, 0 where there is none.
#[derive(Clone, Copy, Debug, PartialEq, Eq, Structural)]
pub struct WindowHosts {
    pub main: isize,
    pub quick: isize,
}

impl Default for WindowHosts {
    /// No window of either role.
    fn default() -> (r: WindowHosts)
        ensures
            r.main == 0 && r.quick == 0,
    {
        WindowHosts { main: 0, quick: 0 }
    }
}

/// The handle registered for a role.
pub open spec fn host_of(h: WindowHosts, role: WindowRole) -> isize {
    match role {
        WindowRole::Main => h.main,
        WindowRole::Quick => h.quick,
    }
}

/// The registry with `hwnd` registered for `role`.
pub open spec fn with_host(h: WindowHosts, role: WindowRole, hwnd: isize) -> WindowHosts {
    match role {
        WindowRole::Main => WindowHosts { main: hwnd, ..h },
        WindowRole::Quick => WindowHosts { quick: hwnd, ..h },
    }
}

/// Registers `hwnd` as the window of `role`.
pub fn set_window_host(hosts: &mut WindowHosts, role: WindowRole, hwnd: isize)
    ensures
        *final(hosts) == with_host(*old(hosts), role, hwnd),
{
    match role {
        WindowRole::Main => hosts.main = hwnd,
        WindowRole::Quick => hosts.quick = hwnd,
    }
}

/// Forgets the window of `role` when it is `hwnd`; a newer window of the
/// role stays registered.
pub fn clear_window_host(hosts: &mut WindowHosts, role: WindowRole, hwnd: isize)
    ensures
        *final(hosts) == (if host_of(*old(hosts), role) == hwnd {
            with_host(*old(hosts), role, 0)
        } else {
            *old(hosts)
        }),
{
    match role {
        WindowRole::Main => {
            if hosts.main == hwnd {
                hosts.main = 0;
            }
        },
        WindowRole::Quick => {
            if hosts.quick == hwnd {
                hosts.quick = 0;
            }
        },
    }
}

/// The two handles, main first; none of either when the registry cannot
/// be read (`hosts` is none).
pub open spec fn host_pair(hosts: Option<WindowHosts>) -> Seq<isize> {
    match hosts {
        Some(h) => seq![h.main, h.quick],
        None => seq![0isize, 0isize],
    }
}

/// The handles of both windows (see `host_pair`).
pub fn window_host_hwnds(hosts: Option<&WindowHosts>) -> (r: [isize; 2])
    ensures
        r@ == host_pair(
            match hosts {
                Some(h) => Some(*h),
                None => None,
            },
        ),
{
    match hosts {
        Some(h) => [h.main, h.quick],
        None => [0, 0],
    }
}

/// The handles of both windows when the registry could be read without
/// waiting (see `host_pair`).
pub fn window_host_hwnds_try(hosts: Option<&WindowHosts>) -> (r: [isize; 2])
    ensures
        r@ == host_pair(
            match hosts {
                Some(h) => Some(*h),
                None => None,
            },
        ),
{
    window_host_hwnds(hosts)
}

/// Whether a window is one of the program's own: a handle other than 0
/// that is registered for either role.
pub open spec fn is_app_host(hosts: Option<WindowHosts>, hwnd: isize) -> bool {
    hwnd != 0 && host_pair(hosts).contains(hwnd)
}

/// Whether `hwnd` is one of the program's windows (see `is_app_host`).
pub fn is_app_window(hosts: Option<&WindowHosts>, hwnd: isize) -> (r: bool)
    ensures
        r == is_app_host(
            match hosts {
                Some(h) => Some(*h),
                None => None,
            },
            hwnd,
        ),
{
    if hwnd == 0 {
        return false;
    }
    let pair = window_host_hwnds(hosts);
    let found = (pair[0] != 0 && pair[0] == hwnd) || (pair[1] != 0 && pair[1] == hwnd);
    proof {
        let ghost s = pair@;
        if found {
            if pair[0] == hwnd {
                assert(s[0] == hwnd);
            } else {
                assert(s[1] == hwnd);
            }
        } else {
            assert forall|i: int| 0 <= i < s.len() implies s[i] != hwnd by {
                assert(i == 0 || i == 1);
            }
        }
    }
    found
}

/// The handle of the main window, 0 when there is none or the registry
/// cannot be read.
pub fn main_window_hwnd(hosts: Option<&WindowHosts>) -> (r: isize)
    ensures
        r == (match hosts {
            Some(h) => h.main,
            None => 0,
        }),
{
    match hosts {
        Some(h) => h.main,
        None => 0,
    }
}

/// The handle of the quick window, 0 when there is none or the registry
/// cannot be read.
pub fn quick_window_hwnd(hosts: Option<&WindowHosts>) -> (r: isize)
    ensures
        r == (match hosts {
            Some(h) => h.quick,
            None => 0,
        }),
{
    match hosts {
        Some(h) => h.quick,
        None => 0,
    }
}

/// A window that registers is the program's own, until it is cleared: a
/// non-zero handle registered for a role is an app window, keeps the other
/// role's window as it was, and clearing it again leaves the role empty.
pub proof fn law_register_then_clear(h: WindowHosts, role: WindowRole, hwnd: isize)
    requires
        hwnd != 0,
    ensures
        is_app_host(Some(with_host(h, role, hwnd)), hwnd),
        host_of(with_host(h, role, hwnd), role) == hwnd,
        forall|other: WindowRole| other != role ==> host_of(with_host(h, role, hwnd), other) == host_of(h, other),
        host_of(with_host(with_host(h, role, hwnd), role, 0), role) == 0,
{
    let s = host_pair(Some(with_host(h, role, hwnd)));
    match role {
        WindowRole::Main => assert(s[0] == hwnd),
        WindowRole::Quick => assert(s[1] == hwnd),
    }
}

/// No handle 0 is an app window.
pub proof fn law_null_is_no_app_window(hosts: Option<WindowHosts>)
    ensures
        !is_app_host(hosts, 0),
{
}

} // verus!
