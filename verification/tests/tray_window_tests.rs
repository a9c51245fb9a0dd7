use std::collections::VecDeque;
use rmeters::config::Config;
use rmeters::tray::{icon_columns, set_tooltip, NotifyOp, TrayState};
use rmeters::window::{
    is_fullscreen_app_running, reposition_window, window_pos_changing, ForegroundWindow,
    OverlayState, Placement, Rect, TaskbarGeometry,
};

#[test]
fn tooltip_short_text_is_terminated() {
    let mut tip = [7u16; 128];
    set_tooltip(&mut tip, "CPU: 12%");
    let w: Vec<u16> = "CPU: 12%".encode_utf16().collect();
    assert_eq!(&tip[..8], &w[..]);
    assert_eq!(tip[8], 0);
    assert_eq!(tip[9], 7);
    assert_eq!(tip[127], 7);
}

#[test]
fn tooltip_long_text_is_cut() {
    let mut tip = [7u16; 128];
    let text = "x".repeat(200);
    set_tooltip(&mut tip, &text);
    assert!(tip.iter().all(|&u| u == b'x' as u16));
    let mut tip = [7u16; 128];
    set_tooltip(&mut tip, &"y".repeat(127));
    assert_eq!(tip[126], b'y' as u16);
    assert_eq!(tip[127], 0);
}

#[test]
fn icon_columns_right_aligned_and_padded() {
    let h: VecDeque<u32> = (1..=3).collect();
    assert_eq!(icon_columns(&h, 5, 0), vec![0, 0, 1, 2, 3]);
    let h: VecDeque<u32> = (1..=60).collect();
    assert_eq!(icon_columns(&h, 4, 0), vec![57, 58, 59, 60]);
    assert_eq!(icon_columns(&h, 0, 0), Vec::<u32>::new());
    assert_eq!(icon_columns(&h, -3, 0), Vec::<u32>::new());
    let h: VecDeque<u32> = VecDeque::new();
    assert_eq!(icon_columns(&h, 2, 9), vec![9, 9]);
}

#[test]
fn tray_add_then_modify_then_remove() {
    let mut t = TrayState::new();
    assert!(!t.is_added());
    assert_eq!(t.remove_tray(), None);
    let u = t.update_tray(true, Some(11), Some(12));
    assert_eq!(u.op, NotifyOp::Add);
    assert!(u.destroy.is_empty());
    assert!(t.is_added());
    let u = t.update_tray(true, Some(21), Some(22));
    assert_eq!(u.op, NotifyOp::Modify);
    assert_eq!(u.destroy, vec![11, 12]);
    assert_eq!(t.remove_tray(), Some(vec![21, 22]));
    assert!(!t.is_added());
    assert_eq!(t.remove_tray(), None);
    let u = t.update_tray(true, Some(31), Some(32));
    assert_eq!(u.op, NotifyOp::Add);
    assert!(u.destroy.is_empty());
}

#[test]
fn tray_switched_off_is_removed() {
    let mut t = TrayState::new();
    t.update_tray(true, Some(11), Some(12));
    let u = t.update_tray(false, None, None);
    assert_eq!(u.op, NotifyOp::Delete);
    assert_eq!(u.destroy, vec![11, 12]);
    assert!(!t.is_added());
    let u = t.update_tray(false, None, None);
    assert_eq!(u.op, NotifyOp::Nothing);
    assert!(u.destroy.is_empty());
    let u = t.update_tray(false, Some(5), None);
    assert_eq!(u.op, NotifyOp::Nothing);
    assert_eq!(u.destroy, vec![5]);
}

#[test]
fn tray_failed_image_changes_nothing() {
    let mut t = TrayState::new();
    t.update_tray(true, Some(11), Some(12));
    let u = t.update_tray(true, Some(21), None);
    assert_eq!(u.op, NotifyOp::Nothing);
    assert_eq!(u.destroy, vec![21]);
    let u = t.update_tray(true, None, None);
    assert_eq!(u.op, NotifyOp::Nothing);
    assert!(u.destroy.is_empty());
    assert_eq!(t.remove_tray(), Some(vec![11, 12]));
}

fn fg(is_shell: bool, rect: Option<Rect>, monitor: Option<Rect>) -> Option<ForegroundWindow> {
    Some(ForegroundWindow { is_shell, rect, monitor })
}

#[test]
fn fullscreen_detection() {
    let m = Rect { left: 0, top: 0, right: 1920, bottom: 1080 };
    let big = Rect { left: -8, top: -8, right: 1928, bottom: 1088 };
    let small = Rect { left: 0, top: 0, right: 800, bottom: 600 };
    assert!(is_fullscreen_app_running(true, None));
    assert!(!is_fullscreen_app_running(false, None));
    assert!(is_fullscreen_app_running(false, fg(false, Some(m), Some(m))));
    assert!(is_fullscreen_app_running(false, fg(false, Some(big), Some(m))));
    assert!(!is_fullscreen_app_running(false, fg(false, Some(small), Some(m))));
    assert!(!is_fullscreen_app_running(false, fg(true, Some(m), Some(m))));
    assert!(!is_fullscreen_app_running(false, fg(false, None, Some(m))));
    assert!(!is_fullscreen_app_running(false, fg(false, Some(m), None)));
}

#[test]
fn timer_hides_while_fullscreen_and_shows_after() {
    let mut o = OverlayState::new();
    let a = o.on_timer(1, true, true);
    assert!(a.hide && !a.show && !a.reposition && o.hidden);
    let a = o.on_timer(1, true, true);
    assert!(!a.hide && !a.show && !a.reposition && o.hidden);
    let a = o.on_timer(2, false, true);
    assert!(!a.hide && !a.show && !a.reposition && o.hidden);
    let a = o.on_timer(1, false, true);
    assert!(!a.hide && a.show && a.reposition && !o.hidden);
    let a = o.on_timer(1, false, true);
    assert!(!a.show && a.reposition);
}

#[test]
fn timer_does_not_show_disabled_overlay() {
    let mut o = OverlayState::new();
    o.on_timer(1, true, false);
    let a = o.on_timer(1, false, false);
    assert!(!a.show && !a.reposition && !o.hidden);
}

#[test]
fn drag_state_follows_size_move() {
    let mut o = OverlayState::new();
    o.on_enter_size_move();
    assert!(o.dragging);
    o.on_exit_size_move();
    assert!(!o.dragging);
}

#[test]
fn window_pos_changing_holds_size() {
    let tb = Rect { left: 0, top: 1040, right: 1920, bottom: 1080 };
    assert_eq!(window_pos_changing(true, true, Some(tb), 5, 99, 48), (1040, 40));
    assert_eq!(window_pos_changing(true, false, Some(tb), 5, 99, 48), (5, 99));
    assert_eq!(window_pos_changing(true, true, None, 5, 99, 48), (5, 99));
    assert_eq!(window_pos_changing(false, true, Some(tb), 5, 99, 72), (5, 72));
}

fn geometry(menu_open: bool) -> TaskbarGeometry {
    TaskbarGeometry { taskbar: Rect { left: 0, top: 1040, right: 1920, bottom: 1080 }, tray_left: 1700, menu_open }
}

#[test]
fn reposition_unlocked() {
    assert_eq!(reposition_window(false, true, 10, 10, 140, 48, 10, Some(geometry(false))), None);
    assert_eq!(
        reposition_window(false, false, 10, 20, 140, 48, 10, Some(geometry(false))),
        Some(Placement { x: 10, y: 20, width: 140, height: 48, topmost: true })
    );
    assert_eq!(
        reposition_window(false, false, 10, -1, 140, 48, 10, Some(geometry(false))),
        Some(Placement { x: 10, y: 1040, width: 140, height: 40, topmost: true })
    );
    assert_eq!(reposition_window(false, false, -1, -1, 140, 48, 10, None), None);
}

#[test]
fn reposition_locked() {
    assert_eq!(
        reposition_window(true, true, -1, -1, 140, 48, 10, Some(geometry(false))),
        Some(Placement { x: 1550, y: 1040, width: 140, height: 40, topmost: true })
    );
    assert_eq!(
        reposition_window(true, false, 500, 3, 140, 48, 10, Some(geometry(true))),
        Some(Placement { x: 500, y: 1040, width: 140, height: 40, topmost: false })
    );
    assert_eq!(
        reposition_window(true, false, 1800, 3, 140, 48, 10, Some(geometry(false))),
        Some(Placement { x: 1550, y: 1040, width: 140, height: 40, topmost: true })
    );
    assert_eq!(
        reposition_window(true, false, 1780, 3, 140, 48, 10, Some(geometry(false))).unwrap().x,
        1780
    );
    assert_eq!(reposition_window(true, false, 500, 3, 140, 48, 10, None), None);
}

#[test]
fn dragged_position_is_restored() {
    let mut c = Config::new();
    c.lock_to_taskbar = false;
    c.record_drag(640, 300);
    assert_eq!(
        reposition_window(false, false, c.overlay_x, c.overlay_y, 210, 72, 15, None),
        Some(Placement { x: 640, y: 300, width: 210, height: 72, topmost: true })
    );
}

#[test]
fn overlay_switch_respects_fullscreen_hiding() {
    let mut o = OverlayState::new();
    let a = o.on_overlay_toggled(false);
    assert!(a.hide && !a.show && !a.reposition);
    let a = o.on_overlay_toggled(true);
    assert!(!a.hide && a.show && a.reposition);
    o.on_timer(1, true, true);
    let a = o.on_overlay_toggled(true);
    assert!(!a.hide && !a.show && !a.reposition);
}
