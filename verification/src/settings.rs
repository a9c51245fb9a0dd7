//! The settings window: DPI scaling, where its controls go, its colours,
//! what its buttons do, and where the window opens.

use vstd::prelude::*;
use crate::text::{decode_utf16, encode_utf16, lemma_decode_encode_utf16, push_str, push_utf16_str};
use crate::window::Rect;

verus! {

pub const IDC_CHK_PER_CORE: usize = 2001;
pub const IDC_CHK_AUTOSTART: usize = 2002;
pub const IDC_BTN_EXIT: usize = 2003;
pub const IDC_BTN_CLOSE: usize = 2004;
pub const IDC_CHK_OVERLAY: usize = 2005;
pub const IDC_CHK_LOCK: usize = 2006;
pub const IDC_CHK_TRAY: usize = 2007;
pub const IDC_LBL_VERSION: usize = 3000;
pub const IDC_LBL_OPTIONS: usize = 3001;
pub const IDC_LBL_ABOUT: usize = 3002;
/// The identifier of the two link controls, which send no commands.
pub const IDC_LINK: usize = 0;

// Colours in BGR order (Windows COLORREF convention).
pub const COLOR_BG: u32 = 0x1E1E1E;
pub const COLOR_TEXT: u32 = 0xD0D0D0;
pub const COLOR_DIM: u32 = 0x686868;
pub const COLOR_WHITE: u32 = 0xF0F0F0;
pub const COLOR_SEP: u32 = 0x3C3C3C;

/// Logical size of the settings window, before DPI scaling.
pub const SETTINGS_WIDTH: i32 = 280;
pub const SETTINGS_HEIGHT: i32 = 354;

// ---------------------------------------------------------------------------
// Text for Win32
// ---------------------------------------------------------------------------

/// `s` in UTF-16 with a terminating zero unit, as Win32 takes text.
pub fn to_wide(s: &str) -> (r: Vec<u16>)
    ensures
        r@ == encode_utf16(s@).push(0),
{
    let mut r: Vec<u16> = Vec::new();
    push_utf16_str(&mut r, s);
    r.push(0);
    assert(r@ =~= encode_utf16(s@).push(0));
    r
}

/// What `to_wide` gives for a text ends in its one zero unit, and what is
/// before that zero decodes (as `String::from_utf16` does) back to the text.
pub proof fn lemma_to_wide_reads_back(s: Seq<char>)
    ensures
        encode_utf16(s).push(0).last() == 0,
        encode_utf16(s).push(0).len() == encode_utf16(s).len() + 1,
        decode_utf16(encode_utf16(s).push(0).drop_last()) == Some(s),
{
    assert(encode_utf16(s).push(0).drop_last() =~= encode_utf16(s));
    lemma_decode_encode_utf16(s);
}

/// The text of the version label: `RMeters`, two blanks, `v`, the version.
pub fn version_label(version: &str) -> (r: String)
    ensures
        r@ == "RMeters  v"@ + version@,
{
    let mut r = String::new();
    push_str(&mut r, "RMeters  v");
    push_str(&mut r, version);
    r
}

// ---------------------------------------------------------------------------
// DPI scaling
// ---------------------------------------------------------------------------

/// `v · dpi / 96`, rounded toward zero.
pub open spec fn scaled(v: int, dpi: int) -> int {
    let p = v * dpi;
    if p >= 0 {
        p / 96
    } else {
        -((-p) / 96)
    }
}

/// `v · dpi` is small enough that single-precision floating point holds it,
/// and the quotient by 96, exactly enough to truncate to the same integer.
pub open spec fn scale_is_exact(v: int, dpi: int) -> bool {
    -0x100_0000 <= v * dpi <= 0x100_0000
}

/// Whether `dpi_scale(v, dpi)` may be called: whether the scaling is exact.
pub fn dpi_scale_is_exact(v: i32, dpi: u32) -> (r: bool)
    ensures
        r == scale_is_exact(v as int, dpi as int),
{
    assert(-0x1_0000_0000_0000_0000 <= v * dpi <= 0x1_0000_0000_0000_0000) by (nonlinear_arith)
        requires
            -0x8000_0000 <= v < 0x8000_0000,
            0 <= dpi < 0x1_0000_0000,
    ;
    let p: i128 = v as i128 * dpi as i128;
    -0x100_0000 <= p && p <= 0x100_0000
}

/// Scales a logical pixel value to physical pixels at `dpi` (96 is 100 %):
/// `v · dpi / 96` rounded toward zero, which is what the single-precision
/// computation `(v as f32 * dpi as f32 / 96.0) as i32` gives in the range
/// where that computation is exact.
pub fn dpi_scale(v: i32, dpi: u32) -> (r: i32)
    requires
        scale_is_exact(v as int, dpi as int),
    ensures
        r == scaled(v as int, dpi as int),
        dpi == 96 ==> r == v,
{
    let p: i64 = v as i64 * dpi as i64;
    proof {
        if dpi == 96 {
            assert(v as int * 96 / 96 == v) by (nonlinear_arith);
            assert(-(v as int * 96) / 96 == -v) by (nonlinear_arith);
        }
    }
    if p >= 0 {
        (p / 96) as i32
    } else {
        -((-p) / 96) as i32
    }
}

/// Scaling keeps order: a larger logical value never gives a smaller
/// physical one.
pub proof fn lemma_scaled_monotonic(a: int, b: int, dpi: int)
    requires
        a <= b,
        dpi >= 0,
    ensures
        scaled(a, dpi) <= scaled(b, dpi),
{
    assert(a * dpi <= b * dpi) by (nonlinear_arith)
        requires
            a <= b,
            dpi >= 0,
    ;
    let p = a * dpi;
    let q = b * dpi;
    if p >= 0 {
        assert(p / 96 <= q / 96) by (nonlinear_arith)
            requires
                0 <= p <= q,
        ;
    } else if q >= 0 {
        assert(-((-p) / 96) <= 0) by (nonlinear_arith)
            requires
                p < 0,
        ;
        assert(q / 96 >= 0) by (nonlinear_arith)
            requires
                q >= 0,
        ;
    } else {
        assert((-q) / 96 <= (-p) / 96) by (nonlinear_arith)
            requires
                0 < -q <= -p,
        ;
    }
}

// ---------------------------------------------------------------------------
// Layout
// ---------------------------------------------------------------------------

/// The largest DPI for which every layout value scales exactly.
pub const MAX_LAYOUT_DPI: u32 = 0xE000;

/// The largest logical value in the layout.
pub const MAX_LAYOUT_VALUE: i32 = 284;

/// A control of the settings window: its identifier and rectangle.
#[derive(Clone, Copy, Debug, PartialEq, Eq, Structural)]
pub struct ControlPlacement {
    pub id: usize,
    pub x: i32,
    pub y: i32,
    pub width: i32,
    pub height: i32,
}

/// The controls in creation order, at 96 DPI: version label, `OPTIONS`
/// label, the five check boxes (per-core bars, taskbar overlay, lock to
/// taskbar, tray icons, start with Windows), `ABOUT` label, the two links,
/// the exit and close buttons.
pub open spec fn base_controls() -> Seq<ControlPlacement> {
    seq![
        ControlPlacement { id: IDC_LBL_VERSION, x: 16, y: 14, width: 248, height: 20 },
        ControlPlacement { id: IDC_LBL_OPTIONS, x: 16, y: 52, width: 80, height: 16 },
        ControlPlacement { id: IDC_CHK_PER_CORE, x: 16, y: 72, width: 248, height: 22 },
        ControlPlacement { id: IDC_CHK_OVERLAY, x: 16, y: 96, width: 248, height: 22 },
        ControlPlacement { id: IDC_CHK_LOCK, x: 16, y: 120, width: 248, height: 22 },
        ControlPlacement { id: IDC_CHK_TRAY, x: 16, y: 144, width: 248, height: 22 },
        ControlPlacement { id: IDC_CHK_AUTOSTART, x: 16, y: 168, width: 248, height: 22 },
        ControlPlacement { id: IDC_LBL_ABOUT, x: 16, y: 208, width: 80, height: 16 },
        ControlPlacement { id: IDC_LINK, x: 16, y: 228, width: 248, height: 18 },
        ControlPlacement { id: IDC_LINK, x: 16, y: 250, width: 248, height: 18 },
        ControlPlacement { id: IDC_BTN_EXIT, x: 16, y: 284, width: 120, height: 28 },
        ControlPlacement { id: IDC_BTN_CLOSE, x: 144, y: 284, width: 120, height: 28 },
    ]
}

/// A control with each of its four values scaled to `dpi`.
pub open spec fn scaled_control(c: ControlPlacement, dpi: int) -> ControlPlacement {
    ControlPlacement {
        id: c.id,
        x: scaled(c.x as int, dpi) as i32,
        y: scaled(c.y as int, dpi) as i32,
        width: scaled(c.width as int, dpi) as i32,
        height: scaled(c.height as int, dpi) as i32,
    }
}

fn control(id: usize, x: i32, y: i32, width: i32, height: i32, dpi: u32) -> (c: ControlPlacement)
    requires
        0 <= x <= MAX_LAYOUT_VALUE,
        0 <= y <= MAX_LAYOUT_VALUE,
        0 <= width <= MAX_LAYOUT_VALUE,
        0 <= height <= MAX_LAYOUT_VALUE,
        dpi <= MAX_LAYOUT_DPI,
    ensures
        c == scaled_control(ControlPlacement { id, x, y, width, height }, dpi as int),
{
    proof {
        lemma_layout_exact(dpi as int);
    }
    ControlPlacement {
        id,
        x: dpi_scale(x, dpi),
        y: dpi_scale(y, dpi),
        width: dpi_scale(width, dpi),
        height: dpi_scale(height, dpi),
    }
}

proof fn lemma_layout_exact(dpi: int)
    requires
        0 <= dpi <= MAX_LAYOUT_DPI,
    ensures
        forall|v: int| 0 <= v <= MAX_LAYOUT_VALUE ==> scale_is_exact(v, dpi),
{
    assert forall|v: int| 0 <= v <= MAX_LAYOUT_VALUE implies scale_is_exact(v, dpi) by {
        assert(0 <= v * dpi <= 284 * 0xE000) by (nonlinear_arith)
            requires
                0 <= v <= 284,
                0 <= dpi <= 0xE000,
        ;
    }
}

/// The controls of the settings window at 96 DPI, where they go when the
/// DPI is too large for exact integer scaling.
pub fn base_layout() -> (r: Vec<ControlPlacement>)
    ensures
        r@ == base_controls(),
{
    let r = settings_layout(96);
    proof {
        assert forall|i: int| 0 <= i < r@.len() implies r@[i] == base_controls()[i] by {
            let c = base_controls()[i];
            assert(scaled(c.x as int, 96) == c.x) by (nonlinear_arith)
                requires
                    c.x >= 0,
            ;
            assert(scaled(c.y as int, 96) == c.y) by (nonlinear_arith)
                requires
                    c.y >= 0,
            ;
            assert(scaled(c.width as int, 96) == c.width) by (nonlinear_arith)
                requires
                    c.width >= 0,
            ;
            assert(scaled(c.height as int, 96) == c.height) by (nonlinear_arith)
                requires
                    c.height >= 0,
            ;
        }
        assert(r@ =~= base_controls());
    }
    r
}

/// Where the controls of the settings window go at `dpi`.
pub fn settings_layout(dpi: u32) -> (r: Vec<ControlPlacement>)
    requires
        dpi <= MAX_LAYOUT_DPI,
    ensures
        r@.len() == base_controls().len(),
        forall|i: int| 0 <= i < r@.len() ==> r@[i] == scaled_control(base_controls()[i], dpi as int),
{
    let mut r: Vec<ControlPlacement> = Vec::new();
    r.push(control(IDC_LBL_VERSION, 16, 14, 248, 20, dpi));
    r.push(control(IDC_LBL_OPTIONS, 16, 52, 80, 16, dpi));
    r.push(control(IDC_CHK_PER_CORE, 16, 72, 248, 22, dpi));
    r.push(control(IDC_CHK_OVERLAY, 16, 96, 248, 22, dpi));
    r.push(control(IDC_CHK_LOCK, 16, 120, 248, 22, dpi));
    r.push(control(IDC_CHK_TRAY, 16, 144, 248, 22, dpi));
    r.push(control(IDC_CHK_AUTOSTART, 16, 168, 248, 22, dpi));
    r.push(control(IDC_LBL_ABOUT, 16, 208, 80, 16, dpi));
    r.push(control(IDC_LINK, 16, 228, 248, 18, dpi));
    r.push(control(IDC_LINK, 16, 250, 248, 18, dpi));
    r.push(control(IDC_BTN_EXIT, 16, 284, 120, 28, dpi));
    r.push(control(IDC_BTN_CLOSE, 144, 284, 120, 28, dpi));
    assert(r@ =~= base_controls().map_values(|c: ControlPlacement| scaled_control(c, dpi as int)));
    r
}

/// The three horizontal separator lines of the settings window: from `x1`
/// to `x2`, at heights `y1`, `y2` and `y3`.
#[derive(Clone, Copy, Debug, PartialEq, Eq, Structural)]
pub struct Separators {
    pub x1: i32,
    pub x2: i32,
    pub y1: i32,
    pub y2: i32,
    pub y3: i32,
}

/// The separators at `dpi` in a client area whose right edge is `right`:
/// 16 logical pixels in from either side, at logical heights 40, 196 and
/// 274.
pub fn separator_lines(dpi: u32, right: i32) -> (s: Separators)
    requires
        dpi <= MAX_LAYOUT_DPI,
        i32::MIN <= right - scaled(16, dpi as int),
    ensures
        s.x1 == scaled(16, dpi as int),
        s.x2 == right - scaled(16, dpi as int),
        s.y1 == scaled(40, dpi as int),
        s.y2 == scaled(196, dpi as int),
        s.y3 == scaled(274, dpi as int),
{
    proof {
        lemma_layout_exact(dpi as int);
    }
    let inset: i32 = dpi_scale(16, dpi);
    Separators {
        x1: inset,
        x2: right - inset,
        y1: dpi_scale(40, dpi),
        y2: dpi_scale(196, dpi),
        y3: dpi_scale(274, dpi),
    }
}

// ---------------------------------------------------------------------------
// Colours and commands
// ---------------------------------------------------------------------------

/// The text colour of a static control: white for the version label, dim
/// for the section labels, the plain text colour for the rest.
pub fn static_text_color(id: usize) -> (c: u32)
    ensures
        c == if id == IDC_LBL_VERSION {
            COLOR_WHITE
        } else if id == IDC_LBL_OPTIONS || id == IDC_LBL_ABOUT {
            COLOR_DIM
        } else {
            COLOR_TEXT
        },
{
    if id == IDC_LBL_VERSION {
        COLOR_WHITE
    } else if id == IDC_LBL_OPTIONS || id == IDC_LBL_ABOUT {
        COLOR_DIM
    } else {
        COLOR_TEXT
    }
}

/// The parts of a `WM_COMMAND` parameter: the control identifier (low 16
/// bits) and the notification code (the bits above, cut to 32).
pub fn decode_command(wparam: usize) -> (r: (usize, u32))
    ensures
        r.0 == wparam % 0x10000,
        r.1 == (wparam / 0x10000) as u32,
{
    let id: usize = wparam & 0xffff;
    let high: usize = wparam >> 16;
    assert(wparam & 0xffff == wparam % 0x10000) by (bit_vector);
    assert(wparam >> 16 == wparam / 0x10000) by (bit_vector);
    (id, high as u32)
}

/// What a click on a control of the settings window does.
#[derive(Clone, Copy, Debug, PartialEq, Eq, Structural)]
pub enum SettingsCommand {
    /// Per-core bars on or off.
    SetPerCore,
    /// Taskbar overlay shown or hidden.
    SetOverlay,
    /// Overlay locked to the taskbar or free.
    SetLock,
    /// Tray icons shown or removed.
    SetTray,
    /// Autostart registry value written or deleted.
    SetAutostart,
    /// Close the settings window and the overlay, which ends the program.
    Exit,
    /// Close the settings window.
    Close,
    /// Nothing.
    Ignore,
}

/// The command of a click on the control `id`.
pub open spec fn command_of(id: usize) -> SettingsCommand {
    if id == IDC_CHK_PER_CORE {
        SettingsCommand::SetPerCore
    } else if id == IDC_CHK_OVERLAY {
        SettingsCommand::SetOverlay
    } else if id == IDC_CHK_LOCK {
        SettingsCommand::SetLock
    } else if id == IDC_CHK_TRAY {
        SettingsCommand::SetTray
    } else if id == IDC_CHK_AUTOSTART {
        SettingsCommand::SetAutostart
    } else if id == IDC_BTN_EXIT {
        SettingsCommand::Exit
    } else if id == IDC_BTN_CLOSE {
        SettingsCommand::Close
    } else {
        SettingsCommand::Ignore
    }
}

/// The command of a click on the control `id`.
pub fn command_action(id: usize) -> (c: SettingsCommand)
    ensures
        c == command_of(id),
{
    if id == IDC_CHK_PER_CORE {
        SettingsCommand::SetPerCore
    } else if id == IDC_CHK_OVERLAY {
        SettingsCommand::SetOverlay
    } else if id == IDC_CHK_LOCK {
        SettingsCommand::SetLock
    } else if id == IDC_CHK_TRAY {
        SettingsCommand::SetTray
    } else if id == IDC_CHK_AUTOSTART {
        SettingsCommand::SetAutostart
    } else if id == IDC_BTN_EXIT {
        SettingsCommand::Exit
    } else if id == IDC_BTN_CLOSE {
        SettingsCommand::Close
    } else {
        SettingsCommand::Ignore
    }
}

/// What the program does after a click, besides the new settings.
#[derive(Clone, Copy, Debug, PartialEq, Eq, Structural)]
pub struct ClickEffects {
    /// Write the settings file.
    pub save: bool,
    /// Redraw the overlay.
    pub redraw_overlay: bool,
    /// Show or hide the overlay after its switch changed.
    pub apply_overlay_switch: bool,
    /// Put the overlay back in place.
    pub reposition_overlay: bool,
    /// Show or remove the tray icons after their switch changed.
    pub refresh_tray: bool,
    /// Log that the autostart registry value could not be written.
    pub report_autostart_failure: bool,
    /// Close the settings window.
    pub close_settings: bool,
    /// Close the overlay, which ends the program.
    pub close_overlay: bool,
}

/// The settings after a click with command `cmd` on a check box now in state
/// `checked`: the switch of the box takes that state, except that autostart
/// follows only when the registry was written (`registry_written`).
pub open spec fn settings_after_click(
    c: crate::config::Config,
    cmd: SettingsCommand,
    checked: bool,
    registry_written: bool,
) -> crate::config::Config {
    match cmd {
        SettingsCommand::SetPerCore => crate::config::Config { show_per_core: checked, ..c },
        SettingsCommand::SetOverlay => crate::config::Config { show_overlay: checked, ..c },
        SettingsCommand::SetLock => crate::config::Config { lock_to_taskbar: checked, ..c },
        SettingsCommand::SetTray => crate::config::Config { show_tray: checked, ..c },
        SettingsCommand::SetAutostart => if registry_written {
            crate::config::Config { autostart_enabled: checked, ..c }
        } else {
            c
        },
        _ => c,
    }
}

/// What follows a click with command `cmd`: the per-core switch, the one
/// switch that the settings file holds, is saved and redraws the overlay;
/// the overlay switch shows or hides it, the lock switch puts it back in place, the tray
/// switch shows or removes the icons, a failed autostart write is
/// reported, Exit closes both windows and Close the settings window.
pub open spec fn click_effects(cmd: SettingsCommand, registry_written: bool) -> ClickEffects {
    let none = ClickEffects {
        save: false,
        redraw_overlay: false,
        apply_overlay_switch: false,
        reposition_overlay: false,
        refresh_tray: false,
        report_autostart_failure: false,
        close_settings: false,
        close_overlay: false,
    };
    match cmd {
        SettingsCommand::SetPerCore => ClickEffects { save: true, redraw_overlay: true, ..none },
        SettingsCommand::SetOverlay => ClickEffects { apply_overlay_switch: true, ..none },
        SettingsCommand::SetLock => ClickEffects { reposition_overlay: true, ..none },
        SettingsCommand::SetTray => ClickEffects { refresh_tray: true, ..none },
        SettingsCommand::SetAutostart => ClickEffects {
            report_autostart_failure: !registry_written,
            ..none
        },
        SettingsCommand::Exit => ClickEffects { close_settings: true, close_overlay: true, ..none },
        SettingsCommand::Close => ClickEffects { close_settings: true, ..none },
        SettingsCommand::Ignore => none,
    }
}

/// Applies a click on the settings window to the settings and says what
/// else to do; see `settings_after_click` and `click_effects`. For
/// `SetAutostart`, `registry_written` tells whether the registry value was
/// written; for other commands it is not looked at.
pub fn apply_click(
    config: &mut crate::config::Config,
    cmd: SettingsCommand,
    checked: bool,
    registry_written: bool,
) -> (e: ClickEffects)
    ensures
        *final(config) == settings_after_click(*old(config), cmd, checked, registry_written),
        e == click_effects(cmd, registry_written),
        cmd == SettingsCommand::SetPerCore ==> final(config).show_per_core == checked && final(config).overlay_x == old(config).overlay_x && final(config).overlay_y == old(config).overlay_y && final(config).show_overlay == old(config).show_overlay && final(config).lock_to_taskbar == old(config).lock_to_taskbar && final(config).show_tray == old(config).show_tray && final(config).autostart_enabled == old(config).autostart_enabled,
        cmd == SettingsCommand::SetOverlay ==> final(config).show_overlay == checked && final(config).show_per_core == old(config).show_per_core && final(config).overlay_x == old(config).overlay_x && final(config).overlay_y == old(config).overlay_y && final(config).lock_to_taskbar == old(config).lock_to_taskbar && final(config).show_tray == old(config).show_tray && final(config).autostart_enabled == old(config).autostart_enabled,
        cmd == SettingsCommand::SetLock ==> final(config).lock_to_taskbar == checked && final(config).show_per_core == old(config).show_per_core && final(config).overlay_x == old(config).overlay_x && final(config).overlay_y == old(config).overlay_y && final(config).show_overlay == old(config).show_overlay && final(config).show_tray == old(config).show_tray && final(config).autostart_enabled == old(config).autostart_enabled,
        cmd == SettingsCommand::SetTray ==> final(config).show_tray == checked && final(config).show_per_core == old(config).show_per_core && final(config).overlay_x == old(config).overlay_x && final(config).overlay_y == old(config).overlay_y && final(config).show_overlay == old(config).show_overlay && final(config).lock_to_taskbar == old(config).lock_to_taskbar && final(config).autostart_enabled == old(config).autostart_enabled,
        cmd == SettingsCommand::SetAutostart && registry_written ==> final(config).autostart_enabled == checked && final(config).show_per_core == old(config).show_per_core && final(config).overlay_x == old(config).overlay_x && final(config).overlay_y == old(config).overlay_y && final(config).show_overlay == old(config).show_overlay && final(config).lock_to_taskbar == old(config).lock_to_taskbar && final(config).show_tray == old(config).show_tray,
        cmd == SettingsCommand::SetAutostart && !registry_written ==> *final(config) == *old(config),
        (cmd == SettingsCommand::Exit || cmd == SettingsCommand::Close || cmd == SettingsCommand::Ignore) ==> *final(config) == *old(config),
        cmd == SettingsCommand::SetPerCore ==> e.save,
{
    let none = ClickEffects {
        save: false,
        redraw_overlay: false,
        apply_overlay_switch: false,
        reposition_overlay: false,
        refresh_tray: false,
        report_autostart_failure: false,
        close_settings: false,
        close_overlay: false,
    };
    match cmd {
        SettingsCommand::SetPerCore => {
            config.show_per_core = checked;
            ClickEffects { save: true, redraw_overlay: true, ..none }
        },
        SettingsCommand::SetOverlay => {
            config.show_overlay = checked;
            ClickEffects { apply_overlay_switch: true, ..none }
        },
        SettingsCommand::SetLock => {
            config.lock_to_taskbar = checked;
            ClickEffects { reposition_overlay: true, ..none }
        },
        SettingsCommand::SetTray => {
            config.show_tray = checked;
            ClickEffects { refresh_tray: true, ..none }
        },
        SettingsCommand::SetAutostart => {
            if registry_written {
                config.autostart_enabled = checked;
            }
            ClickEffects { report_autostart_failure: !registry_written, ..none }
        },
        SettingsCommand::Exit => ClickEffects { close_settings: true, close_overlay: true, ..none },
        SettingsCommand::Close => ClickEffects { close_settings: true, ..none },
        SettingsCommand::Ignore => none,
    }
}

/// A click on a check box sets exactly its switch to the box's new state
/// and leaves every other setting as it was; autostart follows the box only
/// when the registry was written; the buttons change no setting.
pub proof fn lemma_click_sets_its_switch(
    c: crate::config::Config,
    checked: bool,
    registry_written: bool,
)
    ensures
        settings_after_click(c, SettingsCommand::SetPerCore, checked, registry_written).show_per_core
            == checked,
        settings_after_click(c, SettingsCommand::SetOverlay, checked, registry_written).show_overlay
            == checked,
        settings_after_click(c, SettingsCommand::SetLock, checked, registry_written).lock_to_taskbar
            == checked,
        settings_after_click(c, SettingsCommand::SetTray, checked, registry_written).show_tray
            == checked,
        settings_after_click(c, SettingsCommand::SetAutostart, checked, true).autostart_enabled
            == checked,
        settings_after_click(c, SettingsCommand::SetAutostart, checked, false) == c,
        settings_after_click(c, SettingsCommand::Exit, checked, registry_written) == c,
        settings_after_click(c, SettingsCommand::Close, checked, registry_written) == c,
        ({
            let a = settings_after_click(c, SettingsCommand::SetPerCore, checked, registry_written);
            a.overlay_x == c.overlay_x && a.overlay_y == c.overlay_y && a.show_overlay
                == c.show_overlay && a.lock_to_taskbar == c.lock_to_taskbar && a.show_tray
                == c.show_tray && a.autostart_enabled == c.autostart_enabled
        }),
{
}

/// A saved switch comes back from the settings file: after a click that
/// saves, the file that is written gives back the per-core switch and the
/// saved position of the settings after the click, whatever the settings
/// are when it is read.
pub proof fn lemma_click_survives_restart(
    c: crate::config::Config,
    cmd: SettingsCommand,
    checked: bool,
    registry_written: bool,
    at_restart: crate::config::Config,
    autostart: bool,
)
    ensures
        ({
            let after = settings_after_click(c, cmd, checked, registry_written);
            let back = crate::config::loaded(crate::config::config_text(after), at_restart, autostart);
            click_effects(cmd, registry_written).save ==> {
                &&& back.show_per_core == after.show_per_core
                &&& back.overlay_x == after.overlay_x
                &&& back.overlay_y == after.overlay_y
            }
        }),
{
    crate::config::lemma_save_then_load(
        settings_after_click(c, cmd, checked, registry_written),
        at_restart,
    );
}

/// The command of a `WM_COMMAND` parameter: the command of its control
/// when its notification code is `clicked_code` (the button-click code),
/// and nothing for any other notification.
pub open spec fn command_of_wparam(wparam: usize, clicked_code: u32) -> SettingsCommand {
    if (wparam / 0x10000) as u32 == clicked_code {
        command_of(wparam % 0x10000)
    } else {
        SettingsCommand::Ignore
    }
}

/// What a `WM_COMMAND` with parameter `wparam` does on the settings window;
/// only a click (notification `clicked_code`) acts.
pub fn settings_command(wparam: usize, clicked_code: u32) -> (c: SettingsCommand)
    ensures
        c == command_of_wparam(wparam, clicked_code),
{
    let (id, notify) = decode_command(wparam);
    if notify == clicked_code {
        command_action(id)
    } else {
        SettingsCommand::Ignore
    }
}

// ---------------------------------------------------------------------------
// Where the window opens
// ---------------------------------------------------------------------------

/// Half of `x`, rounded toward zero, as `i32` division by 2 gives it.
pub open spec fn half(x: int) -> int {
    if x >= 0 {
        x / 2
    } else {
        -((-x) / 2)
    }
}

/// The top-left corner that centres a `w` × `h` window in the monitor's
/// work area, or, where the work area is unknown, on the primary screen of
/// size `screen_w` × `screen_h`.
pub open spec fn centered(work: Option<Rect>, screen_w: i32, screen_h: i32, w: i32, h: i32) -> (int, int) {
    match work {
        Some(rc) => (
            rc.left + half(rc.right - rc.left - w),
            rc.top + half(rc.bottom - rc.top - h),
        ),
        None => (half(screen_w - w), half(screen_h - h)),
    }
}

/// Every step of the centring stays in the `i32` range.
pub open spec fn centering_in_range(work: Option<Rect>, screen_w: i32, screen_h: i32, w: i32, h: i32) -> bool {
    let in_range = |x: int| i32::MIN <= x <= i32::MAX;
    match work {
        Some(rc) => {
            &&& in_range(rc.right - rc.left)
            &&& in_range(rc.right - rc.left - w)
            &&& in_range(rc.left + half(rc.right - rc.left - w))
            &&& in_range(rc.bottom - rc.top)
            &&& in_range(rc.bottom - rc.top - h)
            &&& in_range(rc.top + half(rc.bottom - rc.top - h))
        },
        None => in_range(screen_w - w) && in_range(screen_h - h),
    }
}

fn half_i32(x: i32) -> (r: i32)
    ensures
        r == half(x as int),
{
    if x >= 0 {
        x / 2
    } else {
        let m: i64 = -(x as i64);
        -((m / 2) as i32)
    }
}

/// Where the settings window opens: centred on the work area of the
/// monitor that holds the overlay (`work`), or on the primary screen where
/// that could not be read.
pub fn center_on_monitor(work: Option<Rect>, screen_w: i32, screen_h: i32, win_w: i32, win_h: i32) -> (r: (i32, i32))
    requires
        centering_in_range(work, screen_w, screen_h, win_w, win_h),
    ensures
        (r.0 as int, r.1 as int) == centered(work, screen_w, screen_h, win_w, win_h),
{
    match work {
        Some(rc) => (
            rc.left + half_i32(rc.right - rc.left - win_w),
            rc.top + half_i32(rc.bottom - rc.top - win_h),
        ),
        None => (half_i32(screen_w - win_w), half_i32(screen_h - win_h)),
    }
}

/// The window is centred: the gaps left and right of it, and above and
/// below it, differ by at most one pixel.
pub proof fn lemma_centered_margins(rc: Rect, screen_w: i32, screen_h: i32, w: i32, h: i32)
    ensures
        ({
            let (x, y) = centered(Some(rc), screen_w, screen_h, w, h);
            &&& -1 <= (x - rc.left) - (rc.right - (x + w)) <= 1
            &&& -1 <= (y - rc.top) - (rc.bottom - (y + h)) <= 1
        }),
{
}

} // verus!
