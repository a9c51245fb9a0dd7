//! Decisions of the overlay window: hiding it while a fullscreen program
//! runs, where it goes on the taskbar or the desktop, how its size is held
//! while it moves, and the drag state.

use vstd::prelude::*;
use crate::config::Config;

verus! {

/// Logical width of the overlay, before DPI scaling.
pub const OVERLAY_WIDTH: i32 = 140;

/// Logical height of the overlay when it is not locked to the taskbar.
pub const OVERLAY_HEIGHT: i32 = 48;

/// The identifier of the overlay's one-second timer.
pub const OVERLAY_TIMER_ID: usize = 1;

/// The hit-test answer that makes the whole overlay a drag handle
/// (`HTCAPTION`).
pub const HIT_TEST_CAPTION: isize = 2;

/// A screen rectangle, edges in pixels.
#[derive(Clone, Copy, Debug, PartialEq, Eq, Structural)]
pub struct Rect {
    pub left: i32,
    pub top: i32,
    pub right: i32,
    pub bottom: i32,
}

// ---------------------------------------------------------------------------
// Fullscreen detection
// ---------------------------------------------------------------------------

/// What is known of the foreground window.
#[derive(Clone, Copy, Debug, PartialEq, Eq, Structural)]
pub struct ForegroundWindow {
    /// It is the taskbar or the desktop shell window.
    pub is_shell: bool,
    /// Its rectangle, where it could be read.
    pub rect: Option<Rect>,
    /// The rectangle of the primary monitor, where it could be read.
    pub monitor: Option<Rect>,
}

/// `r` covers all of `m`.
pub open spec fn covers(r: Rect, m: Rect) -> bool {
    r.left <= m.left && r.top <= m.top && r.right >= m.right && r.bottom >= m.bottom
}

/// A fullscreen program runs when the shell says so (exclusive Direct3D or
/// presentation mode), or when a foreground window other than the taskbar
/// and the desktop covers the whole of the primary monitor.
pub open spec fn fullscreen_spec(os_reports_fullscreen: bool, foreground: Option<ForegroundWindow>) -> bool {
    ||| os_reports_fullscreen
    ||| match foreground {
        Some(fg) => !fg.is_shell && match (fg.rect, fg.monitor) {
            (Some(r), Some(m)) => covers(r, m),
            _ => false,
        },
        None => false,
    }
}

/// Whether a fullscreen program runs. `foreground` is `None` where there is
/// no foreground window.
pub fn is_fullscreen_app_running(
    os_reports_fullscreen: bool,
    foreground: Option<ForegroundWindow>,
) -> (r: bool)
    ensures
        r == fullscreen_spec(os_reports_fullscreen, foreground),
        os_reports_fullscreen ==> r,
        r && !os_reports_fullscreen ==> {
            &&& foreground is Some
            &&& !foreground->0.is_shell
            &&& foreground->0.rect is Some
            &&& foreground->0.monitor is Some
            &&& foreground->0.rect->0.left <= foreground->0.monitor->0.left
            &&& foreground->0.rect->0.top <= foreground->0.monitor->0.top
            &&& foreground->0.rect->0.right >= foreground->0.monitor->0.right
            &&& foreground->0.rect->0.bottom >= foreground->0.monitor->0.bottom
        },
        ({
            &&& foreground is Some
            &&& !foreground->0.is_shell
            &&& foreground->0.rect is Some
            &&& foreground->0.monitor is Some
            &&& foreground->0.rect->0.left <= foreground->0.monitor->0.left
            &&& foreground->0.rect->0.top <= foreground->0.monitor->0.top
            &&& foreground->0.rect->0.right >= foreground->0.monitor->0.right
            &&& foreground->0.rect->0.bottom >= foreground->0.monitor->0.bottom
        }) ==> r,
{
    if os_reports_fullscreen {
        return true;
    }
    match foreground {
        None => false,
        Some(fg) => {
            if fg.is_shell {
                return false;
            }
            match (fg.rect, fg.monitor) {
                (Some(r), Some(m)) => r.left <= m.left && r.top <= m.top && r.right >= m.right
                    && r.bottom >= m.bottom,
                _ => false,
            }
        },
    }
}

// ---------------------------------------------------------------------------
// Hiding, showing and dragging
// ---------------------------------------------------------------------------

/// The overlay's own state.
#[derive(Clone, Copy, Debug, PartialEq, Eq, Structural)]
pub struct OverlayState {
    /// Hidden because a fullscreen program runs.
    pub hidden: bool,
    /// The user is dragging the overlay.
    pub dragging: bool,
}

/// What a timer tick asks of the window.
#[derive(Clone, Copy, Debug, PartialEq, Eq, Structural)]
pub struct TimerActions {
    pub hide: bool,
    pub show: bool,
    pub reposition: bool,
}

impl OverlayState {
    pub fn new() -> (s: Self)
        ensures
            !s.hidden,
            !s.dragging,
    {
        OverlayState { hidden: false, dragging: false }
    }

    /// A timer tick. On the overlay's timer: while a fullscreen program runs
    /// the overlay is hidden (once); when none runs it is shown again if it
    /// had been hidden and the overlay is enabled, and it is put back in
    /// place if the overlay is enabled. Other timers change nothing.
    pub fn on_timer(&mut self, timer_id: usize, fullscreen: bool, show_overlay: bool) -> (a:
        TimerActions)
        ensures
            timer_id != OVERLAY_TIMER_ID ==> *final(self) == *old(self) && !a.hide && !a.show
                && !a.reposition,
            timer_id == OVERLAY_TIMER_ID ==> {
                &&& final(self).hidden == fullscreen
                &&& final(self).dragging == old(self).dragging
                &&& a.hide == (fullscreen && !old(self).hidden)
                &&& a.show == (!fullscreen && old(self).hidden && show_overlay)
                &&& a.reposition == (!fullscreen && show_overlay)
            },
    {
        let mut a = TimerActions { hide: false, show: false, reposition: false };
        if timer_id == OVERLAY_TIMER_ID {
            if fullscreen {
                if !self.hidden {
                    a.hide = true;
                    self.hidden = true;
                }
            } else {
                if self.hidden {
                    if show_overlay {
                        a.show = true;
                    }
                    self.hidden = false;
                }
                if show_overlay {
                    a.reposition = true;
                }
            }
        }
        a
    }

    /// The user switched the overlay on (`show`) or off in the settings: off
    /// hides it; on shows it and puts it in place, unless a fullscreen
    /// program keeps it hidden, in which case the timer shows it once that
    /// program ends.
    pub fn on_overlay_toggled(&self, show: bool) -> (a: TimerActions)
        ensures
            a.hide == !show,
            a.show == (show && !self.hidden),
            a.reposition == (show && !self.hidden),
    {
        if !show {
            TimerActions { hide: true, show: false, reposition: false }
        } else if self.hidden {
            TimerActions { hide: false, show: false, reposition: false }
        } else {
            TimerActions { hide: false, show: true, reposition: true }
        }
    }

    /// The user starts moving the overlay.
    pub fn on_enter_size_move(&mut self)
        ensures
            final(self).dragging,
            final(self).hidden == old(self).hidden,
    {
        self.dragging = true;
    }

    /// The user has stopped moving the overlay.
    pub fn on_exit_size_move(&mut self)
        ensures
            !final(self).dragging,
            final(self).hidden == old(self).hidden,
    {
        self.dragging = false;
    }
}

// ---------------------------------------------------------------------------
// Size while moving
// ---------------------------------------------------------------------------

/// The top edge and height that the overlay may take while its position
/// changes. Locked to the taskbar, a move (`moving`) is held to the
/// taskbar's top and height where the taskbar's rectangle is known, and
/// anything else is left as asked. Unlocked, the height is held to
/// `free_height`.
pub fn window_pos_changing(
    lock_to_taskbar: bool,
    moving: bool,
    taskbar: Option<Rect>,
    y: i32,
    height: i32,
    free_height: i32,
) -> (r: (i32, i32))
    requires
        taskbar matches Some(t) ==> i32::MIN <= t.bottom - t.top <= i32::MAX,
    ensures
        lock_to_taskbar ==> r == match (moving, taskbar) {
            (true, Some(t)) => (t.top, (t.bottom - t.top) as i32),
            _ => (y, height),
        },
        !lock_to_taskbar ==> r == (y, free_height),
{
    if lock_to_taskbar {
        if moving {
            if let Some(t) = taskbar {
                return (t.top, t.bottom - t.top);
            }
        }
        (y, height)
    } else {
        (y, free_height)
    }
}

// ---------------------------------------------------------------------------
// Placement
// ---------------------------------------------------------------------------

/// Where the taskbar is, read from the system.
#[derive(Clone, Copy, Debug, PartialEq, Eq, Structural)]
pub struct TaskbarGeometry {
    /// The taskbar's rectangle.
    pub taskbar: Rect,
    /// The left edge of the notification area.
    pub tray_left: i32,
    /// A popup menu is open.
    pub menu_open: bool,
}

/// A position and size for the overlay, and whether it is raised to the
/// top of the z-order.
#[derive(Clone, Copy, Debug, PartialEq, Eq, Structural)]
pub struct Placement {
    pub x: i32,
    pub y: i32,
    pub width: i32,
    pub height: i32,
    pub topmost: bool,
}

/// The saved left edge is used on the taskbar when it is set and the
/// overlay fits between it and the taskbar's right edge.
pub open spec fn saved_x_fits(saved_x: i32, width: i32, t: Rect) -> bool {
    saved_x >= 0 && saved_x >= t.left && saved_x + width <= t.right
}

/// The arithmetic of the placement stays in the `i32` range.
pub open spec fn placement_in_range(saved_x: i32, width: i32, margin: i32, g: TaskbarGeometry) -> bool {
    &&& i32::MIN <= g.taskbar.bottom - g.taskbar.top <= i32::MAX
    &&& saved_x >= 0 && saved_x >= g.taskbar.left ==> saved_x + width <= i32::MAX
    &&& !saved_x_fits(saved_x, width, g.taskbar) ==> i32::MIN <= g.tray_left - width <= i32::MAX
        && i32::MIN <= g.tray_left - width - margin <= i32::MAX
}

/// On the taskbar: at the saved left edge where it fits, else `margin`
/// pixels left of the notification area; at the taskbar's top, with its
/// height; raised to the top unless a popup menu is open (raising it then
/// would bury the menu behind the taskbar).
pub open spec fn taskbar_placement(saved_x: i32, width: i32, margin: i32, g: TaskbarGeometry) -> Placement {
    Placement {
        x: if saved_x_fits(saved_x, width, g.taskbar) {
            saved_x
        } else {
            (g.tray_left - width - margin) as i32
        },
        y: g.taskbar.top,
        width,
        height: (g.taskbar.bottom - g.taskbar.top) as i32,
        topmost: !g.menu_open,
    }
}

/// Where the overlay goes. Unlocked and being dragged: nowhere (it is left
/// where the user holds it). Unlocked with a saved position (both
/// coordinates not negative): there, at its free size, raised. Otherwise on
/// the taskbar, if the taskbar and its notification area were found.
pub open spec fn reposition_spec(
    lock_to_taskbar: bool,
    dragging: bool,
    saved_x: i32,
    saved_y: i32,
    width: i32,
    free_height: i32,
    margin: i32,
    taskbar: Option<TaskbarGeometry>,
) -> Option<Placement> {
    if !lock_to_taskbar && dragging {
        None
    } else if !lock_to_taskbar && saved_x >= 0 && saved_y >= 0 {
        Some(Placement { x: saved_x, y: saved_y, width, height: free_height, topmost: true })
    } else {
        match taskbar {
            Some(g) => Some(taskbar_placement(saved_x, width, margin, g)),
            None => None,
        }
    }
}

/// Decides where the overlay goes; see `reposition_spec`. `width`,
/// `free_height` and `margin` are the DPI-scaled overlay width, free height
/// and gap to the notification area; `taskbar` is `None` where the taskbar,
/// its notification area or their rectangles could not be found.
pub fn reposition_window(
    lock_to_taskbar: bool,
    dragging: bool,
    saved_x: i32,
    saved_y: i32,
    width: i32,
    free_height: i32,
    margin: i32,
    taskbar: Option<TaskbarGeometry>,
) -> (r: Option<Placement>)
    requires
        taskbar matches Some(g) ==> placement_in_range(saved_x, width, margin, g),
    ensures
        r == reposition_spec(
            lock_to_taskbar,
            dragging,
            saved_x,
            saved_y,
            width,
            free_height,
            margin,
            taskbar,
        ),
        !lock_to_taskbar && dragging ==> r is None,
        !lock_to_taskbar && !dragging && saved_x >= 0 && saved_y >= 0 ==> r == Some(
            Placement { x: saved_x, y: saved_y, width, height: free_height, topmost: true },
        ),
        (lock_to_taskbar || (!dragging && !(saved_x >= 0 && saved_y >= 0))) ==> match taskbar {
            None => r is None,
            Some(g) => {
                &&& r is Some
                &&& r->0.y == g.taskbar.top
                &&& r->0.height == g.taskbar.bottom - g.taskbar.top
                &&& r->0.width == width
                &&& r->0.topmost == !g.menu_open
                &&& saved_x >= 0 && saved_x >= g.taskbar.left && saved_x + width <= g.taskbar.right
                    ==> r->0.x == saved_x
                &&& !(saved_x >= 0 && saved_x >= g.taskbar.left && saved_x + width
                    <= g.taskbar.right) ==> r->0.x + r->0.width + margin == g.tray_left
            },
        },
{
    if !lock_to_taskbar {
        if dragging {
            return None;
        }
        if saved_x >= 0 && saved_y >= 0 {
            return Some(
                Placement { x: saved_x, y: saved_y, width, height: free_height, topmost: true },
            );
        }
    }
    match taskbar {
        None => None,
        Some(g) => {
            let t = g.taskbar;
            let height: i32 = t.bottom - t.top;
            let x: i32 = if saved_x >= 0 && saved_x >= t.left && saved_x + width <= t.right {
                saved_x
            } else {
                g.tray_left - width - margin
            };
            Some(Placement { x, y: t.top, width, height, topmost: !g.menu_open })
        },
    }
}

/// A position that the user dragged the unlocked overlay to, once recorded,
/// is where the overlay is put back, at its free size, raised; whatever the
/// taskbar looks like.
pub proof fn lemma_dragged_position_restored(
    before: Config,
    left: i32,
    top: i32,
    width: i32,
    free_height: i32,
    margin: i32,
    taskbar: Option<TaskbarGeometry>,
)
    requires
        !before.lock_to_taskbar,
        left >= 0,
        top >= 0,
    ensures
        ({
            let c = before.dragged(left, top);
            reposition_spec(c.lock_to_taskbar, false, c.overlay_x, c.overlay_y, width, free_height, margin, taskbar)
                == Some(Placement { x: left, y: top, width, height: free_height, topmost: true })
        }),
{
}

/// The overlay counts as hidden by a fullscreen program only when the
/// shell says so, or when the foreground window (not the taskbar or the
/// desktop) reaches every edge of the monitor: a maximized window that
/// leaves the taskbar's strip uncovered does not count.
pub proof fn lemma_fullscreen_needs_every_edge(os_reports_fullscreen: bool, fg: ForegroundWindow, w: Rect, m: Rect)
    requires
        fg.rect == Some(w),
        fg.monitor == Some(m),
    ensures
        fullscreen_spec(false, Some(fg)) <==> (!fg.is_shell && w.left <= m.left && w.top <= m.top
            && w.right >= m.right && w.bottom >= m.bottom),
        w.bottom < m.bottom ==> !fullscreen_spec(false, Some(fg)),
        fullscreen_spec(true, Some(fg)),
{
}

/// On the taskbar, where the saved left edge does not fit, the overlay ends
/// exactly `margin` pixels left of the notification area; where it fits, it
/// starts there; either way it is `width` wide, as tall as the taskbar and
/// at its top.
pub proof fn lemma_taskbar_gap(saved_x: i32, width: i32, margin: i32, g: TaskbarGeometry)
    requires
        placement_in_range(saved_x, width, margin, g),
    ensures
        ({
            let p = taskbar_placement(saved_x, width, margin, g);
            &&& p.width == width
            &&& p.y == g.taskbar.top
            &&& p.height == g.taskbar.bottom - g.taskbar.top
            &&& !(saved_x >= 0 && saved_x >= g.taskbar.left && saved_x + width <= g.taskbar.right)
                ==> p.x + p.width + margin == g.tray_left
            &&& (saved_x >= 0 && saved_x >= g.taskbar.left && saved_x + width <= g.taskbar.right)
                ==> p.x == saved_x
        }),
{
}

/// Locked to the taskbar, the overlay always sits on the taskbar, as tall as
/// it, and at the saved left edge whenever it fits there.
pub proof fn lemma_locked_overlay_on_taskbar(
    dragging: bool,
    saved_x: i32,
    saved_y: i32,
    width: i32,
    free_height: i32,
    margin: i32,
    g: TaskbarGeometry,
)
    requires
        placement_in_range(saved_x, width, margin, g),
    ensures
        ({
            let p = reposition_spec(true, dragging, saved_x, saved_y, width, free_height, margin, Some(g));
            &&& p is Some
            &&& p->0.y == g.taskbar.top
            &&& p->0.height == g.taskbar.bottom - g.taskbar.top
            &&& saved_x_fits(saved_x, width, g.taskbar) ==> p->0.x == saved_x && g.taskbar.left
                <= p->0.x && p->0.x + p->0.width <= g.taskbar.right
        }),
{
}

} // verus!
