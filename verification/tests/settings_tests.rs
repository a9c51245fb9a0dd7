use rmeters::config::Config;
use rmeters::settings::{
    apply_click, base_layout, center_on_monitor, settings_command, command_action, decode_command, dpi_scale,
    separator_lines, settings_layout, static_text_color, to_wide, version_label,
    SettingsCommand, COLOR_DIM, COLOR_TEXT, COLOR_WHITE, IDC_BTN_CLOSE, IDC_BTN_EXIT,
    IDC_CHK_AUTOSTART, IDC_CHK_LOCK, IDC_CHK_OVERLAY, IDC_CHK_PER_CORE, IDC_CHK_TRAY,
    IDC_LBL_ABOUT, IDC_LBL_OPTIONS, IDC_LBL_VERSION,
};
use rmeters::window::Rect;

fn float_scale(v: i32, dpi: u32) -> i32 {
    (v as f32 * dpi as f32 / 96.0) as i32
}

#[test]
fn dpi_scale_exact_values() {
    assert_eq!(dpi_scale(16, 96), 16);
    assert_eq!(dpi_scale(16, 144), 24);
    assert_eq!(dpi_scale(10, 120), 12);
    assert_eq!(dpi_scale(-10, 120), -12);
    assert_eq!(dpi_scale(248, 192), 496);
    assert_eq!(dpi_scale(0, 500), 0);
}

#[test]
fn dpi_scale_matches_float_scaling() {
    for dpi in [72u32, 96, 100, 120, 125, 144, 168, 192, 240, 288, 384, 480] {
        for v in [-300, -17, -1, 0, 1, 7, 14, 16, 20, 40, 48, 124, 140, 202, 248, 282] {
            assert_eq!(dpi_scale(v, dpi), float_scale(v, dpi), "v={} dpi={}", v, dpi);
        }
    }
}

#[test]
fn to_wide_terminates_and_encodes() {
    assert_eq!(to_wide(""), vec![0]);
    assert_eq!(to_wide("Ab"), vec![0x41, 0x62, 0]);
    assert_eq!(to_wide("A😀"), vec![0x41, 0xD83D, 0xDE00, 0]);
    let s = "RMeters — Settings";
    let expected: Vec<u16> = s.encode_utf16().chain(std::iter::once(0)).collect();
    assert_eq!(to_wide(s), expected);
}

#[test]
fn version_label_text() {
    assert_eq!(version_label("0.1.0"), "RMeters  v0.1.0");
}

#[test]
fn static_text_colors() {
    assert_eq!(static_text_color(IDC_LBL_VERSION), COLOR_WHITE);
    assert_eq!(static_text_color(IDC_LBL_OPTIONS), COLOR_DIM);
    assert_eq!(static_text_color(IDC_LBL_ABOUT), COLOR_DIM);
    assert_eq!(static_text_color(0), COLOR_TEXT);
    assert_eq!(static_text_color(IDC_CHK_PER_CORE), COLOR_TEXT);
}

#[test]
fn decode_command_splits_wparam() {
    assert_eq!(decode_command(0x0000_07D1), (2001, 0));
    assert_eq!(decode_command(0x0003_07D4), (2004, 3));
    assert_eq!(decode_command(0xFFFF), (0xFFFF, 0));
}

#[test]
fn command_actions() {
    assert_eq!(command_action(IDC_CHK_PER_CORE), SettingsCommand::SetPerCore);
    assert_eq!(command_action(IDC_CHK_AUTOSTART), SettingsCommand::SetAutostart);
    assert_eq!(command_action(IDC_CHK_OVERLAY), SettingsCommand::SetOverlay);
    assert_eq!(command_action(IDC_CHK_LOCK), SettingsCommand::SetLock);
    assert_eq!(command_action(IDC_CHK_TRAY), SettingsCommand::SetTray);
    assert_eq!(command_action(IDC_BTN_EXIT), SettingsCommand::Exit);
    assert_eq!(command_action(IDC_BTN_CLOSE), SettingsCommand::Close);
    assert_eq!(command_action(IDC_LBL_VERSION), SettingsCommand::Ignore);
    assert_eq!(command_action(0), SettingsCommand::Ignore);
}

#[test]
fn settings_layout_scales_every_control() {
    let l = settings_layout(96);
    assert_eq!(l.len(), 12);
    let ids: Vec<usize> = l.iter().map(|c| c.id).collect();
    assert_eq!(
        ids,
        vec![IDC_LBL_VERSION, IDC_LBL_OPTIONS, IDC_CHK_PER_CORE, IDC_CHK_OVERLAY, IDC_CHK_LOCK, IDC_CHK_TRAY, IDC_CHK_AUTOSTART, IDC_LBL_ABOUT, 0, 0, IDC_BTN_EXIT, IDC_BTN_CLOSE]
    );
    assert_eq!((l[0].x, l[0].y, l[0].width, l[0].height), (16, 14, 248, 20));
    assert_eq!((l[4].x, l[4].y, l[4].width, l[4].height), (16, 120, 248, 22));
    assert_eq!((l[11].x, l[11].y, l[11].width, l[11].height), (144, 284, 120, 28));
    let l = settings_layout(144);
    assert_eq!((l[2].id, l[2].x, l[2].y, l[2].width, l[2].height), (IDC_CHK_PER_CORE, 24, 108, 372, 33));
    assert_eq!((l[10].id, l[10].x, l[10].y, l[10].width, l[10].height), (IDC_BTN_EXIT, 24, 426, 180, 42));
}

#[test]
fn base_layout_is_layout_at_96_dpi() {
    assert_eq!(base_layout(), settings_layout(96));
}

#[test]
fn separators_at_dpi() {
    let s = separator_lines(120, 350);
    assert_eq!((s.x1, s.x2, s.y1, s.y2, s.y3), (20, 330, 50, 245, 342));
}

#[test]
fn to_wide_reads_back_through_from_utf16() {
    for s in ["", "abc", "RMeters — Settings", "é😀x", "\u{10FFFF}\u{E000}\u{D7FF}"] {
        let w = to_wide(s);
        assert_eq!(*w.last().unwrap(), 0);
        assert_eq!(String::from_utf16(&w[..w.len() - 1]).unwrap(), s);
    }
}

#[test]
fn clicks_change_their_switch() {
    let mut c = Config::new();
    let e = apply_click(&mut c, SettingsCommand::SetPerCore, true, false);
    assert!(c.show_per_core && e.save && e.redraw_overlay && !e.close_settings);
    let e = apply_click(&mut c, SettingsCommand::SetOverlay, false, false);
    assert!(!c.show_overlay && !e.save && e.apply_overlay_switch);
    let e = apply_click(&mut c, SettingsCommand::SetLock, false, false);
    assert!(!c.lock_to_taskbar && !e.save && e.reposition_overlay);
    let e = apply_click(&mut c, SettingsCommand::SetTray, false, false);
    assert!(!c.show_tray && !e.save && e.refresh_tray);
}

#[test]
fn autostart_follows_only_a_successful_write() {
    let mut c = Config::new();
    let e = apply_click(&mut c, SettingsCommand::SetAutostart, true, false);
    assert!(!c.autostart_enabled && e.report_autostart_failure && !e.save);
    let e = apply_click(&mut c, SettingsCommand::SetAutostart, true, true);
    assert!(c.autostart_enabled && !e.report_autostart_failure && !e.save);
}

#[test]
fn exit_and_close_keep_settings() {
    let mut c = Config::new();
    let before = c;
    let e = apply_click(&mut c, SettingsCommand::Exit, true, true);
    assert!(e.close_settings && e.close_overlay && !e.save);
    let e = apply_click(&mut c, SettingsCommand::Close, true, true);
    assert!(e.close_settings && !e.close_overlay);
    let e = apply_click(&mut c, SettingsCommand::Ignore, true, true);
    assert!(!e.close_settings && !e.save);
    assert_eq!(c, before);
}

#[test]
fn center_on_work_area() {
    let rc = Rect { left: 0, top: 0, right: 1920, bottom: 1040 };
    assert_eq!(center_on_monitor(Some(rc), 0, 0, 280, 282), (820, 379));
    let rc = Rect { left: -1280, top: 100, right: 0, bottom: 1124 };
    assert_eq!(center_on_monitor(Some(rc), 0, 0, 281, 283), (-1280 + 499, 100 + 370));
}

#[test]
fn center_falls_back_to_screen() {
    assert_eq!(center_on_monitor(None, 1920, 1080, 280, 282), (820, 399));
}

#[test]
fn center_wider_than_area_truncates_toward_zero() {
    let rc = Rect { left: 0, top: 0, right: 100, bottom: 100 };
    assert_eq!(center_on_monitor(Some(rc), 0, 0, 103, 100), (-1, 0));
    assert_eq!(center_on_monitor(None, 100, 100, 103, 103), ((100 - 103) / 2, (100 - 103) / 2));
}

#[test]
fn only_clicks_act() {
    assert_eq!(settings_command(2003, 0), SettingsCommand::Exit);
    assert_eq!(settings_command(2004, 0), SettingsCommand::Close);
    assert_eq!(settings_command((1 << 16) | 2003, 0), SettingsCommand::Ignore);
    assert_eq!(settings_command((5 << 16) | 2001, 0), SettingsCommand::Ignore);
    assert_eq!(settings_command(2001, 0), SettingsCommand::SetPerCore);
}
