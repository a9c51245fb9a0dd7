use rmeters::config::{
    autostart_value, config_path, data_dir, load_config, log_line, log_path, save_config, Config,
};

fn loaded(text: &str) -> Config {
    let mut c = Config::new();
    load_config(&mut c, Some(text), false);
    c
}

#[test]
fn load_config_reads_every_key() {
    let c = loaded("show_per_core: true\noverlay_x: 120\noverlay_y: -5\n");
    assert!(c.show_per_core);
    assert_eq!(c.overlay_x, 120);
    assert_eq!(c.overlay_y, -5);
}

#[test]
fn load_config_defaults_for_missing_keys() {
    let c = loaded("");
    assert!(!c.show_per_core);
    assert_eq!(c.overlay_x, -1);
    assert_eq!(c.overlay_y, -1);
    assert!(c.show_overlay);
    assert!(c.lock_to_taskbar);
    assert!(c.show_tray);
}

#[test]
fn load_config_keeps_switches_the_file_does_not_hold() {
    let mut c = Config::new();
    c.show_overlay = false;
    c.lock_to_taskbar = false;
    c.show_tray = false;
    load_config(&mut c, Some("show_overlay: true\nlock_to_taskbar: true\nshow_tray: true\nshow_per_core: true\n"), false);
    assert!(c.show_per_core);
    assert!(!c.show_overlay && !c.lock_to_taskbar && !c.show_tray);
}

#[test]
fn load_config_without_file_keeps_settings() {
    let mut c = Config { show_per_core: true, overlay_x: 7, overlay_y: 8, show_overlay: false, lock_to_taskbar: false, show_tray: false, autostart_enabled: false };
    load_config(&mut c, None, true);
    assert!(c.show_per_core);
    assert_eq!(c.overlay_x, 7);
    assert_eq!(c.overlay_y, 8);
    assert!(!c.show_overlay && !c.lock_to_taskbar && !c.show_tray);
    assert!(c.autostart_enabled);
}

#[test]
fn load_config_sets_autostart_from_registry() {
    let mut c = Config::new();
    load_config(&mut c, Some(""), true);
    assert!(c.autostart_enabled);
    load_config(&mut c, Some(""), false);
    assert!(!c.autostart_enabled);
}

#[test]
fn load_config_trims_keys_values_and_crlf() {
    let c = loaded("  show_per_core :   true  \r\n\toverlay_x:\t42\r\noverlay_y : 3\r\n");
    assert!(c.show_per_core);
    assert_eq!(c.overlay_x, 42);
    assert_eq!(c.overlay_y, 3);
}

#[test]
fn load_config_first_line_for_a_key_wins() {
    let c = loaded("overlay_x: 5\noverlay_x: 9\n");
    assert_eq!(c.overlay_x, 5);
}

#[test]
fn load_config_skips_lines_without_colon() {
    let c = loaded("overlay_x 5\nnonsense\noverlay_x: 6");
    assert_eq!(c.overlay_x, 6);
}

#[test]
fn load_config_show_per_core_only_for_true() {
    assert!(!loaded("show_per_core: TRUE").show_per_core);
    assert!(!loaded("show_per_core: yes").show_per_core);
    assert!(!loaded("show_per_core: false").show_per_core);
    assert!(loaded("show_per_core:true").show_per_core);
}

#[test]
fn load_config_bad_numbers_fall_back() {
    assert_eq!(loaded("overlay_x: abc").overlay_x, -1);
    assert_eq!(loaded("overlay_x: 12px").overlay_x, -1);
    assert_eq!(loaded("overlay_x: 1:2").overlay_x, -1);
    assert_eq!(loaded("overlay_x: 2147483648").overlay_x, -1);
    assert_eq!(loaded("overlay_x: -2147483649").overlay_x, -1);
    assert_eq!(loaded("overlay_x: 99999999999999999999").overlay_x, -1);
    assert_eq!(loaded("overlay_x: -").overlay_x, -1);
    assert_eq!(loaded("overlay_x: +").overlay_x, -1);
    assert_eq!(loaded("overlay_x:").overlay_x, -1);
}

#[test]
fn load_config_number_forms() {
    assert_eq!(loaded("overlay_x: +7").overlay_x, 7);
    assert_eq!(loaded("overlay_x: 007").overlay_x, 7);
    assert_eq!(loaded("overlay_x: -0").overlay_x, 0);
    assert_eq!(loaded("overlay_x: 2147483647").overlay_x, i32::MAX);
    assert_eq!(loaded("overlay_x: -2147483648").overlay_x, i32::MIN);
}

#[test]
fn load_config_agrees_with_std_parse() {
    for v in ["0", "+0", "-1", "12", "a", "", "+-1", "1_000", "٣", "-2147483648", "2147483647", "2147483648"] {
        let c = loaded(&format!("overlay_y: {}", v));
        assert_eq!(c.overlay_y, v.trim().parse::<i32>().unwrap_or(-1), "value {:?}", v);
    }
}

#[test]
fn save_config_writes_three_lines() {
    let mut c = Config::new();
    c.autostart_enabled = true;
    assert_eq!(save_config(&c), "show_per_core: false\noverlay_x: -1\noverlay_y: -1\n");
    let c = Config { show_per_core: true, overlay_x: 100, overlay_y: -1, show_overlay: false, lock_to_taskbar: true, show_tray: false, autostart_enabled: false };
    assert_eq!(save_config(&c), "show_per_core: true\noverlay_x: 100\noverlay_y: -1\n");
}

#[test]
fn save_config_matches_format() {
    for (b, x, y) in [(true, i32::MIN, i32::MAX), (false, 10, -10), (true, 0, 9), (false, -100000, 100000)] {
        let c = Config { show_per_core: b, overlay_x: x, overlay_y: y, show_overlay: !b, lock_to_taskbar: b, show_tray: !b, autostart_enabled: false };
        assert_eq!(
            save_config(&c),
            format!("show_per_core: {b}\noverlay_x: {x}\noverlay_y: {y}\n")
        );
    }
}

#[test]
fn save_then_load_gives_same_settings() {
    for (b, x, y) in [(true, i32::MIN, i32::MAX), (false, 10, -10), (true, 0, 9), (false, -1, -1)] {
        for (o, l, t) in [(true, true, true), (false, true, false), (true, false, false), (false, false, true)] {
            let c = Config { show_per_core: b, overlay_x: x, overlay_y: y, show_overlay: o, lock_to_taskbar: l, show_tray: t, autostart_enabled: false };
            let text = save_config(&c);
            let back = loaded(&text);
            assert_eq!((back.show_per_core, back.overlay_x, back.overlay_y), (b, x, y));
            let mut same = c;
            load_config(&mut same, Some(&text), false);
            assert_eq!(same, c);
        }
    }
}

#[test]
fn record_drag_keeps_top_when_locked() {
    let mut c = Config::new();
    c.record_drag(300, 500);
    assert_eq!(c.overlay_x, 300);
    assert_eq!(c.overlay_y, -1);
    c.lock_to_taskbar = false;
    c.record_drag(310, 520);
    assert_eq!(c.overlay_x, 310);
    assert_eq!(c.overlay_y, 520);
}

#[test]
fn paths_are_built_from_appdata() {
    assert_eq!(data_dir(Some("C:\\Users\\a\\AppData\\Roaming")), vec!["C:\\Users\\a\\AppData\\Roaming".to_string(), "rmeters".to_string()]);
    assert_eq!(data_dir(None), vec![".".to_string(), "rmeters".to_string()]);
    assert_eq!(config_path(None), vec![".".to_string(), "rmeters".to_string(), "config.txt".to_string()]);
    assert_eq!(log_path(Some("X")), vec!["X".to_string(), "rmeters".to_string(), "run_log.txt".to_string()]);
}

#[test]
fn log_line_prefixes_and_ends_line() {
    assert_eq!(log_line("rmeters starting..."), "[LOG] rmeters starting...\n");
    assert_eq!(log_line(""), "[LOG] \n");
}

#[test]
fn autostart_value_is_quoted_utf16_le() {
    let v = autostart_value("C:\\a");
    let expected: Vec<u8> = vec![b'"', 0, b'C', 0, b':', 0, b'\\', 0, b'a', 0, b'"', 0, 0, 0];
    assert_eq!(v, expected);
}

#[test]
fn autostart_value_encodes_surrogates_and_high_bytes() {
    let v = autostart_value("é😀");
    let units: Vec<u16> = "\"é😀\"".encode_utf16().chain(std::iter::once(0)).collect();
    let mut expected: Vec<u8> = Vec::new();
    for u in units {
        expected.extend_from_slice(&u.to_le_bytes());
    }
    assert_eq!(v, expected);
    assert_eq!(&v[2..4], &[0xE9, 0x00]);
    assert_eq!(&v[4..8], &[0x3D, 0xD8, 0x00, 0xDE]);
}
