use bevy_prototype_egui_plugin::egui_plugin::{
    local_time_of_day, make_raw_input, time_of_day_nanos, EguiPluginState, RawInputSnapshot,
};
use egui::app::RunMode;

#[test]
fn raw_input_from_window_size() {
    let r = make_raw_input(1280, 720);
    assert_eq!(
        r,
        RawInputSnapshot { screen_width: 1280, screen_height: 720, time: 0, nanos_since_midnight: None }
    );
}

#[test]
fn time_of_day_formula() {
    assert_eq!(time_of_day_nanos(3723, 5), 3_723_000_000_005);
    assert_eq!(time_of_day_nanos(0, 0), 0);
    assert_eq!(time_of_day_nanos(86_399, 1_999_999_999), 86_400_999_999_999);
}

#[test]
fn local_time_of_day_is_within_a_day() {
    let t = local_time_of_day();
    assert!(t < 86_402 * 1_000_000_000);
}

#[test]
fn input_filled_once() {
    let mut s = EguiPluginState::new(RunMode::Continuous);
    assert!(s.needs_window());
    s.check_windows(800, 600);
    assert!(!s.needs_window());
    s.check_windows(1024, 768);
    assert_eq!(s.raw_input.unwrap().screen_width, 800);
}

#[test]
fn no_input_skips_the_frame() {
    let mut s = EguiPluginState::new(RunMode::Continuous);
    assert_eq!(s.begin_frame(10, 20), None);
    assert_eq!(s.frame_start, 10);
    s.end_frame(30);
    assert!(s.runner.frame_times.is_empty());
}

#[test]
fn frame_is_stamped_and_recorded() {
    let mut s = EguiPluginState::new(RunMode::Continuous);
    s.check_windows(800, 600);
    let inp = s.begin_frame(1_000, 42).unwrap();
    assert_eq!(inp.time, 1_000);
    assert_eq!(inp.nanos_since_midnight, Some(42));
    assert_eq!(inp.screen_height, 600);
    s.end_frame(1_500);
    assert_eq!(s.runner.cpu_time_nanos(), 500);
    s.begin_frame(17_000_000, 43);
    s.end_frame(17_000_300);
    assert_eq!(s.runner.cpu_time_nanos(), 400);
    assert_eq!(s.runner.frame_times.mean_time_interval(), Some(16_999_000));
}

#[test]
fn clock_going_back_records_zero_duration() {
    let mut s = EguiPluginState::new(RunMode::Continuous);
    s.check_windows(1, 1);
    s.begin_frame(100, 0);
    s.end_frame(50);
    assert_eq!(s.runner.cpu_time_nanos(), 0);
    assert_eq!(s.runner.frame_times.len(), 1);
}
