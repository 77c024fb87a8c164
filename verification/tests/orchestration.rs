use ele_ds_client::ActivePage;
use ele_ds_client::audio::{AudioAction, AudioCmd, AudioState};
use ele_ds_client::button::{
    ClickDetector, DetectorState, KeyClickedType, PressedKeyInfo, scan_tick, DEBOUNCE_TICKS,
    RELEASE_GAP_TICKS,
};
use ele_ds_client::key_task::{map_key_event, KeyAction};
use ele_ds_client::power::{
    battery_band, battery_from_samples, next_minute_left_micros, plan_cycle, DeviceBatteryType,
    MAX_SLEEP_MICROS,
};
use ele_ds_client::screen::{
    screen_dimensions, AllSensorData, RedrawCommand, ScreenEvent, ScreenState,
};
use ele_ds_client::ui::PopupMsg;

fn run_detector(det: &mut ClickDetector, samples: &[bool]) -> Vec<KeyClickedType> {
    let mut out = Vec::new();
    for &pressed in samples {
        if let Some(kind) = det.step(pressed) {
            out.push(kind);
        }
    }
    out
}

fn waveform(presses: &[usize], gaps: &[usize]) -> Vec<bool> {
    assert_eq!(gaps.len() + 1, presses.len());
    let mut w = Vec::new();
    for (i, &p) in presses.iter().enumerate() {
        w.extend(std::iter::repeat(true).take(p));
        if i < gaps.len() {
            w.extend(std::iter::repeat(false).take(gaps[i]));
        }
    }
    w.extend(std::iter::repeat(false).take(RELEASE_GAP_TICKS as usize));
    w
}

#[test]
fn clean_single_press_emits_one_single_click() {
    let mut det = ClickDetector::new();
    let events = run_detector(&mut det, &waveform(&[DEBOUNCE_TICKS as usize], &[]));
    assert_eq!(events, vec![KeyClickedType::SingleClicked]);
    assert_eq!(det.state, DetectorState::Idle);
}

#[test]
fn clean_double_press_emits_one_double_click() {
    let mut det = ClickDetector::new();
    let events = run_detector(&mut det, &waveform(&[5, 4], &[6]));
    assert_eq!(events, vec![KeyClickedType::DoubleClicked]);
}

#[test]
fn clean_triple_press_emits_one_triple_click() {
    let mut det = ClickDetector::new();
    let events = run_detector(&mut det, &waveform(&[3, 8, 3], &[10, 2]));
    assert_eq!(events, vec![KeyClickedType::TripleClicked]);
}

#[test]
fn short_press_emits_nothing() {
    let mut det = ClickDetector::new();
    let mut samples = vec![true; DEBOUNCE_TICKS as usize - 1];
    samples.extend(std::iter::repeat(false).take(3 * RELEASE_GAP_TICKS as usize));
    let events = run_detector(&mut det, &samples);
    assert!(events.is_empty());
    assert_eq!(det.state, DetectorState::Idle);
}

#[test]
fn four_presses_emit_nothing() {
    let mut det = ClickDetector::new();
    let events = run_detector(&mut det, &waveform(&[3, 3, 3, 3], &[2, 2, 2]));
    assert!(events.is_empty());
}

#[test]
fn keys_polled_in_index_order() {
    let mut detectors = vec![ClickDetector::new(), ClickDetector::new(), ClickDetector::new()];
    // Bring keys 0 and 2 to the point where one more released tick fires.
    for _ in 0..DEBOUNCE_TICKS {
        let msgs = scan_tick(&mut detectors, &vec![true, false, true]);
        assert!(msgs.is_empty());
    }
    let mut fired = Vec::new();
    for _ in 0..RELEASE_GAP_TICKS {
        fired.extend(scan_tick(&mut detectors, &vec![false, false, false]));
    }
    assert_eq!(
        fired,
        vec![
            PressedKeyInfo { idx: 0, click_type: KeyClickedType::SingleClicked },
            PressedKeyInfo { idx: 2, click_type: KeyClickedType::SingleClicked },
        ]
    );
}

#[test]
fn refresh_same_periodic_page_redraws_twice() {
    let mut screen = ScreenState::new(ActivePage::Home);
    let first = screen.apply_event(ScreenEvent::Refresh(ActivePage::Home));
    assert!(matches!(first, RedrawCommand::Draw(ActivePage::Home, None)));
    let second = screen.apply_event(ScreenEvent::Refresh(ActivePage::Home));
    assert!(matches!(second, RedrawCommand::Draw(ActivePage::Home, None)));
}

#[test]
fn refresh_same_static_page_is_noop_second_time() {
    let mut screen = ScreenState::new(ActivePage::Home);
    let first = screen.apply_event(ScreenEvent::Refresh(ActivePage::About));
    assert!(matches!(first, RedrawCommand::Draw(ActivePage::About, None)));
    let second = screen.apply_event(ScreenEvent::Refresh(ActivePage::About));
    assert!(matches!(second, RedrawCommand::Skip));
    assert_eq!(screen.current_page, ActivePage::About);
}

#[test]
fn sensor_snapshot_updates_cache_without_redraw() {
    let mut screen = ScreenState::new(ActivePage::About);
    let data = AllSensorData { temperature_centi: 2345, humidity_centi: 5010 };
    let cmd = screen.apply_event(ScreenEvent::UpdateSensorsData(data));
    assert!(matches!(cmd, RedrawCommand::Skip));
    assert_eq!(screen.last_sensor_status, Some(data));
    assert_eq!(screen.current_page, ActivePage::About);
}

#[test]
fn popup_overlays_without_changing_page() {
    let mut screen = ScreenState::new(ActivePage::Image);
    let cmd = screen.apply_event(ScreenEvent::Popup(PopupMsg::new(
        "note".to_string(),
        "hello".to_string(),
    )));
    match cmd {
        RedrawCommand::Draw(page, Some(popup)) => {
            assert_eq!(page, ActivePage::Image);
            assert_eq!(popup.title, "note");
            assert_eq!(popup.msg, "hello");
        },
        _ => panic!("popup must draw over the current page"),
    }
    assert_eq!(screen.current_page, ActivePage::Image);
}

#[test]
fn beep_while_running_is_dropped() {
    let mut audio = AudioState::new();
    let first = audio.handle_cmd(AudioCmd::Beep(3, 100), 1000);
    assert!(matches!(first, AudioAction::StartBeep));
    assert_eq!(audio.beep_until, Some(1300));
    assert!(audio.beep_running(1000));
    let second = audio.handle_cmd(AudioCmd::Beep(5, 100), 1100);
    assert!(matches!(second, AudioAction::Ignore));
    assert_eq!(audio.beep_until, Some(1300));
}

#[test]
fn beep_clears_after_total_duration_and_next_is_honored() {
    let mut audio = AudioState::new();
    audio.handle_cmd(AudioCmd::Beep(3, 100), 1000);
    assert!(matches!(audio.tick(1299), AudioAction::Ignore));
    assert!(audio.beep_running(1299));
    assert!(matches!(audio.tick(1300), AudioAction::StopBeep));
    assert!(!audio.beep_running(1300));
    let again = audio.handle_cmd(AudioCmd::Beep(1, 50), 1301);
    assert!(matches!(again, AudioAction::StartBeep));
}

#[test]
fn music_preempts_and_leaves_beep_clock_alone() {
    let mut audio = AudioState::new();
    audio.handle_cmd(AudioCmd::Beep(2, 100), 0);
    let act = audio.handle_cmd(AudioCmd::Music("/fat/a.wav".to_string()), 10);
    match act {
        AudioAction::PlayMusic(path) => assert_eq!(path, "/fat/a.wav"),
        _ => panic!("music must play"),
    }
    assert_eq!(audio.beep_until, Some(200));
}

#[test]
fn triple_click_middle_key_navigates_to_about_with_beep() {
    let info = PressedKeyInfo { idx: 1, click_type: KeyClickedType::TripleClicked };
    let outcome = map_key_event(&info);
    assert!(matches!(outcome.action, KeyAction::Navigate(ActivePage::About)));
    assert!(outcome.beep);
}

#[test]
fn triple_click_first_key_syncs_network_and_suppresses_beep() {
    let info = PressedKeyInfo { idx: 0, click_type: KeyClickedType::TripleClicked };
    let outcome = map_key_event(&info);
    assert!(matches!(outcome.action, KeyAction::SyncNetwork));
    assert!(!outcome.beep);
}

#[test]
fn single_clicks_navigate_pages() {
    let pages = [ActivePage::Sensor, ActivePage::Home, ActivePage::Image];
    for (idx, expected) in pages.iter().enumerate() {
        let info = PressedKeyInfo { idx, click_type: KeyClickedType::SingleClicked };
        let outcome = map_key_event(&info);
        match outcome.action {
            KeyAction::Navigate(p) => assert_eq!(p, *expected),
            _ => panic!("single click must navigate"),
        }
        assert!(outcome.beep);
    }
}

#[test]
fn triple_click_third_key_plays_media_with_beep() {
    let info = PressedKeyInfo { idx: 2, click_type: KeyClickedType::TripleClicked };
    let outcome = map_key_event(&info);
    match outcome.action {
        KeyAction::PlayMedia(path) => assert_eq!(path, "/fat/system/media/test.wav"),
        _ => panic!("triple click on the third key must play media"),
    }
    assert!(outcome.beep);
}

#[test]
fn unbound_gesture_does_nothing_but_beeps() {
    let info = PressedKeyInfo { idx: 1, click_type: KeyClickedType::DoubleClicked };
    let outcome = map_key_event(&info);
    assert!(matches!(outcome.action, KeyAction::NoAction));
    assert!(outcome.beep);
}

#[test]
fn next_minute_left_is_bounded_and_exact() {
    assert_eq!(next_minute_left_micros(0, 0), 0);
    assert_eq!(next_minute_left_micros(59, 999_999_999), 1);
    assert_eq!(next_minute_left_micros(30, 500_000_000), 29_500_000);
    assert_eq!(next_minute_left_micros(0, 1), 0);
    assert_eq!(next_minute_left_micros(0, 1000), 59_999_999);
    for &(s, n) in &[(0u32, 0u32), (0, 1000), (59, 1_999_999_999), (12, 345_678_901)] {
        assert!(next_minute_left_micros(s, n) < 60_000_000);
    }
}

#[test]
fn leap_second_reading_counts_as_last_moment() {
    assert_eq!(
        next_minute_left_micros(59, 1_999_999_999),
        next_minute_left_micros(59, 999_999_999)
    );
}

#[test]
fn first_cycle_suppresses_refresh_second_sends_it() {
    // Boot with the default page: the first cycle must not double-draw.
    let first = plan_cycle(1, ActivePage::Home, true, 10, 0);
    assert_eq!(first.refresh, None);
    // The second cycle refreshes the home page and sleeps to the minute.
    let second = plan_cycle(2, ActivePage::Home, true, 10, 0);
    assert_eq!(second.refresh, Some(ActivePage::Home));
    assert_eq!(second.sleep_micros, next_minute_left_micros(10, 0));
    assert!(second.sleep_micros < 60_000_000);
    assert!(!second.deep_sleep);
}

#[test]
fn static_page_sleeps_unbounded_and_discharging_deep_sleeps() {
    let plan = plan_cycle(5, ActivePage::About, false, 10, 0);
    assert_eq!(plan.refresh, Some(ActivePage::About));
    assert_eq!(plan.sleep_micros, MAX_SLEEP_MICROS);
    assert!(plan.deep_sleep);
}

#[test]
fn battery_bands_follow_highest_comparator() {
    assert!(matches!(battery_band(false, false, true), DeviceBatteryType::PercentVbat100));
    assert!(matches!(battery_band(true, true, false), DeviceBatteryType::PercentVbat75_50));
    assert!(matches!(battery_band(true, false, false), DeviceBatteryType::PercentVbat50_25));
    assert!(matches!(battery_band(false, false, false), DeviceBatteryType::PercentVbat25_0));
}

#[test]
fn battery_samples_latch_any_active_reading() {
    let samples = vec![(false, false, false), (false, true, false), (false, false, false)];
    assert!(matches!(battery_from_samples(&samples), DeviceBatteryType::PercentVbat75_50));
    let empty: Vec<(bool, bool, bool)> = Vec::new();
    assert!(matches!(battery_from_samples(&empty), DeviceBatteryType::PercentVbat25_0));
}

#[test]
fn boot_to_second_cycle_end_to_end() {
    // Boot with the default config: the persisted page is Home.
    let config = <ele_ds_client::config::DeviceConfig as Default>::default();
    assert_eq!(config.current_page, ActivePage::Home);
    let mut screen = ScreenState::new(config.current_page);

    // First cycle: the snapshot goes out, the refresh is suppressed.
    let first = plan_cycle(1, config.current_page, true, 42, 0);
    let snapshot = AllSensorData { temperature_centi: 2000, humidity_centi: 5000 };
    assert!(matches!(
        screen.apply_event(ScreenEvent::UpdateSensorsData(snapshot)),
        RedrawCommand::Skip
    ));
    assert_eq!(first.refresh, None);

    // Second cycle: Refresh(Home) goes out, Home is periodic, so the
    // screen task performs a full redraw, and the sleep is minute-aligned.
    let second = plan_cycle(2, config.current_page, true, 42, 0);
    assert_eq!(second.refresh, Some(ActivePage::Home));
    let cmd = screen.apply_event(ScreenEvent::Refresh(ActivePage::Home));
    assert!(matches!(cmd, RedrawCommand::Draw(ActivePage::Home, None)));
    assert_eq!(second.sleep_micros, next_minute_left_micros(42, 0));
    assert!(second.sleep_micros < 60_000_000);
}

#[test]
fn screen_dimensions_are_clamped_to_the_panel() {
    assert_eq!(screen_dimensions(0, 0), (128, 296));
    assert_eq!(screen_dimensions(128, 296), (128, 296));
    assert_eq!(screen_dimensions(400, 300), (400, 300));
}
