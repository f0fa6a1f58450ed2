use bunny_manager::manager::stats::{Durations, PluginStats, Stats, Timings, INITIAL_FRAMETIME_NANOS};
use bunny_manager::classic::stats::{FpsSample, Stats as ClassicStats};
use bunny_manager::classic::main_window::{background_alpha, MainWindow as ClassicWindow};
use bunny_manager::manager::ui::{cursor_painted, shortcut_capture_step, MainWindow};
use bunny_manager::manager::config::{autosave_due, retain_present};

#[test]
fn frame_measurement() {
    let mut s = Stats::new(1_000);
    assert_eq!(s.frametime(), INITIAL_FRAMETIME_NANOS);
    assert_eq!(s.lifetime_frames(), 0);
    s.frame_start(2_000);
    s.ui_end(2_500);
    s.frame_end(3_000);
    assert_eq!(s.lifetime_frames(), 1);
    assert_eq!(s.ui_time(), 500);
    assert_eq!(s.present_time, 1_000);
    assert_eq!(s.frametime(), 2_000);
    assert_eq!(s.start_time(), 1_000);
    // a clock reading earlier than the frame start gives a zero span
    s.ui_end(1_500);
    assert_eq!(s.ui_time(), 0);
}

#[test]
fn plugin_timings() {
    let mut t = Timings::new(10);
    t.start(100);
    t.pre_paint(160);
    t.end(200);
    let mut d = Durations::new();
    d.update(t);
    assert_eq!((d.pre_paint, d.paint, d.total), (60, 40, 100));
    assert_eq!(d.total, d.pre_paint + d.paint);
    let mut backwards = Timings::new(50);
    backwards.start(100);
    d.update(backwards);
    assert_eq!((d.pre_paint, d.paint, d.total), (0, 0, 0));

    let mut p = PluginStats::new(0);
    p.menu_timings().start(5);
    p.menu_timings().pre_paint(8);
    p.menu_timings().end(20);
    p.ui_timings().end(7);
    p.update();
    assert_eq!(p.menu_durations.total, 15);
    assert_eq!(p.menu_durations.pre_paint, 3);
    assert_eq!(p.ui_durations.total, 7);
}

#[test]
fn fps_sampled_twice_a_second_at_most() {
    let mut s = ClassicStats::new(0);
    s.frame_start(10);
    assert_eq!(s.update(20), None);
    assert_eq!(s.frames_since_last_fps_update, 0);
    for t in 0..30u64 {
        s.frame_start(30 + t);
    }
    assert_eq!(s.update(400_000_000), None);
    assert_eq!(s.frames_since_last_fps_update, 30);
    assert_eq!(s.update(500_000_020), Some(FpsSample { frames: 30, elapsed_nanos: 500_000_000 }));
    assert_eq!(s.frames_since_last_fps_update, 0);
    assert_eq!(s.lifetime_frames(), 31);
}

#[test]
fn game_present_time_is_present_minus_ui() {
    let mut s = ClassicStats::new(0);
    s.frame_start(100);
    s.ui_end(130);
    s.frame_end(190);
    assert_eq!(s.game_present_time(), 60);
    assert_eq!(s.frametime(), 190);
}

#[test]
fn background_alpha_matches_float_formula() {
    for o in 0..=255u8 {
        let float = (o as f32 / 100.0 * 255.0) as u8;
        assert_eq!(background_alpha(o), float, "opacity {o}");
    }
    assert_eq!(background_alpha(80), 204);
    assert_eq!(background_alpha(100), 255);
}

#[test]
fn windows_toggle() {
    let mut w = ClassicWindow::new(0);
    assert!(w.display);
    assert_eq!(w.opacity, 80);
    assert!(!w.handle_toggle(true));
    assert!(!w.handle_toggle(false));
    assert!(w.handle_toggle(true));
    w.close();
    assert!(!w.display);

    let mut m = MainWindow::new(false);
    m.toggle();
    assert!(m.open);
    m.toggle();
    assert!(!m.open);
    m.toggle();
    m.close();
    assert!(!m.open);
}

#[test]
fn cursor_rule() {
    assert!(!cursor_painted(false, false, true));
    assert!(cursor_painted(true, false, false));
    assert!(!cursor_painted(true, true, false));
    assert!(cursor_painted(true, true, true));
}

#[test]
fn autosave_rule() {
    assert!(!autosave_due(0, 0, u64::MAX));
    assert!(!autosave_due(60, 0, 60_000_000_000));
    assert!(autosave_due(60, 0, 60_000_000_001));
    assert!(!autosave_due(60, 10, 5));
    assert!(!autosave_due(u64::MAX, 0, u64::MAX));
}

#[test]
fn disabled_plugins_without_files_are_forgotten() {
    let disabled = vec!["a".to_string(), "gone".to_string(), "c".to_string()];
    let present = vec!["c".to_string(), "a".to_string(), "b".to_string()];
    assert_eq!(retain_present(&disabled, &present), vec!["a", "c"]);
    assert!(retain_present(&disabled, &Vec::new()).is_empty());
}

#[test]
fn shortcut_capture() {
    let s = shortcut_capture_step(false, true, false, Some('k'));
    assert!(!s.expecting);
    assert_eq!(s.captured, Some('k'));
    let s = shortcut_capture_step(false, true, false, None::<char>);
    assert!(s.expecting);
    assert_eq!(s.captured, None);
    let s = shortcut_capture_step(true, false, true, Some('k'));
    assert!(!s.expecting);
    assert_eq!(s.captured, None);
    let s = shortcut_capture_step(true, true, false, Some('k'));
    assert!(!s.expecting);
    assert_eq!(s.captured, None);
    let s = shortcut_capture_step(false, false, false, Some('k'));
    assert!(!s.expecting);
    assert_eq!(s.captured, None);
}
