use rmeters::metrics::{MetricsState, HISTORY_LEN};
use rmeters::renderer::{FrameOutcome, Renderer, D2DERR_RECREATE_TARGET};
use rmeters::window::Rect;

#[test]
fn new_state_has_zero_histories() {
    let s: MetricsState<u32> = MetricsState::new(0);
    assert_eq!(s.cpu_history.len(), HISTORY_LEN);
    assert_eq!(s.ram_history.len(), HISTORY_LEN);
    assert!(s.cpu_history.iter().all(|&v| v == 0));
    assert!(s.cpu_cores_usage.is_empty());
}

#[test]
fn push_drops_oldest_and_appends_newest() {
    let mut s: MetricsState<u32> = MetricsState::new(0);
    for v in 1..=70u32 {
        s.push_cpu(v);
    }
    assert_eq!(s.cpu_history.len(), HISTORY_LEN);
    assert_eq!(*s.cpu_history.front().unwrap(), 11);
    assert_eq!(*s.cpu_history.back().unwrap(), 70);
    assert!(s.ram_history.iter().all(|&v| v == 0));
    s.push_ram(5);
    assert_eq!(*s.ram_history.back().unwrap(), 5);
    assert_eq!(s.ram_history.len(), HISTORY_LEN);
}

#[test]
fn history_is_last_samples_zero_padded() {
    let mut s: MetricsState<i64> = MetricsState::new(-1);
    for v in 0..3i64 {
        s.push_ram(v);
    }
    let h: Vec<i64> = s.ram_history.iter().copied().collect();
    let mut expected = vec![-1i64; HISTORY_LEN - 3];
    expected.extend([0, 1, 2]);
    assert_eq!(h, expected);
}

#[test]
fn record_updates_everything() {
    let mut s: MetricsState<f32> = MetricsState::new(0.0);
    s.record(12.5, 40.0, vec![1.0, 2.0]);
    assert_eq!(s.cpu_usage, 12.5);
    assert_eq!(s.ram_usage_pct, 40.0);
    assert_eq!(*s.cpu_history.back().unwrap(), 12.5);
    assert_eq!(*s.ram_history.back().unwrap(), 40.0);
    assert_eq!(s.cpu_cores_usage, vec![1.0, 2.0]);
}

#[test]
fn snapshot_copies_histories() {
    let mut s: MetricsState<u32> = MetricsState::new(0);
    s.record(3, 4, vec![9, 8, 7]);
    let snap = Renderer::snapshot(&s, 0);
    assert_eq!(snap.cpu, 3);
    assert_eq!(snap.ram, 4);
    assert_eq!(snap.cpu_arr[HISTORY_LEN - 1], 3);
    assert_eq!(snap.ram_arr[HISTORY_LEN - 1], 4);
    assert_eq!(snap.cpu_arr[0], 0);
    assert_eq!(snap.cpu_cores, vec![9, 8, 7]);
}

#[test]
fn snapshot_pads_short_history() {
    let mut s: MetricsState<u32> = MetricsState::new(0);
    s.cpu_history.clear();
    s.cpu_history.push_back(5);
    let snap = Renderer::snapshot(&s, 77);
    assert_eq!(snap.cpu_arr[0], 5);
    assert_eq!(snap.cpu_arr[1], 77);
    assert_eq!(snap.cpu_arr[HISTORY_LEN - 1], 77);
}

#[test]
fn client_size_skips_empty_areas() {
    assert_eq!(Renderer::client_size(Rect { left: 0, top: 0, right: 140, bottom: 40 }), Some((140, 40)));
    assert_eq!(Renderer::client_size(Rect { left: 10, top: 0, right: 10, bottom: 40 }), None);
    assert_eq!(Renderer::client_size(Rect { left: 0, top: 5, right: 3, bottom: 5 }), None);
}

#[test]
fn end_draw_outcomes() {
    assert_eq!(D2DERR_RECREATE_TARGET, 0x8899_000Cu32 as i32);
    assert_eq!(Renderer::end_draw_outcome(Ok(())), FrameOutcome::Drawn);
    assert_eq!(Renderer::end_draw_outcome(Err(D2DERR_RECREATE_TARGET)), FrameOutcome::RecreateResources);
    assert_eq!(Renderer::end_draw_outcome(Err(-5)), FrameOutcome::Failed(-5));
}

#[test]
fn core_gap_is_narrow_above_sixteen_cores() {
    assert_eq!(Renderer::core_gap_halves(4), 2);
    assert_eq!(Renderer::core_gap_halves(16), 2);
    assert_eq!(Renderer::core_gap_halves(17), 1);
}
