use weather_clock::condition::Condition;
use weather_clock::display::{blink_on, quits, DisplayState, KeyPress, LoopAction};
use weather_clock::forecast::WeatherData;

fn weather(tenths: i64) -> WeatherData {
    WeatherData { current_temp_tenths: tenths, current_condition: Condition::Clear, forecast: vec![] }
}

#[test]
fn blink_phases() {
    assert!(blink_on(0));
    assert!(blink_on(499));
    assert!(!blink_on(500));
    assert!(!blink_on(999));
    assert!(blink_on(1000));
    assert!(!blink_on(-1));
    assert!(!blink_on(-500));
    assert!(blink_on(-501));
    assert!(blink_on(1_736_000_000_000));
}

#[test]
fn blink_repeats_every_second() {
    for t in [-100_000i64, -1_501, -1, 0, 1, 250, 499, 500, 777, 1_736_000_000_123] {
        assert_eq!(blink_on(t), blink_on(t + 1000), "t = {}", t);
        assert_ne!(blink_on(t), blink_on(t + 500), "t = {}", t);
    }
}

#[test]
fn quit_keys() {
    assert!(quits(KeyPress::Char('q')));
    assert!(quits(KeyPress::Esc));
    assert!(!quits(KeyPress::Char('Q')));
    assert!(!quits(KeyPress::Char('x')));
    assert!(!quits(KeyPress::Other));
}

#[test]
fn quit_key_ends_loop() {
    let s = DisplayState::new(None, 0);
    assert_eq!(s.next_action(Some(KeyPress::Char('q')), 100), LoopAction::Quit);
    assert_eq!(s.next_action(Some(KeyPress::Esc), 100), LoopAction::Quit);
    assert_eq!(s.next_action(Some(KeyPress::Char('q')), 1_800_000), LoopAction::Quit);
    assert_eq!(s.next_action(Some(KeyPress::Char('a')), 100), LoopAction::Continue);
    assert_eq!(s.next_action(None, 100), LoopAction::Continue);
}

#[test]
fn refresh_after_interval_once() {
    let mut s = DisplayState::new(Some(weather(100)), 5_000);
    assert_eq!(s.next_action(None, 1_804_999), LoopAction::Continue);
    assert!(!s.refresh_due(1_804_999));
    assert_eq!(s.next_action(None, 1_805_000), LoopAction::Refresh);
    assert_eq!(s.next_action(Some(KeyPress::Other), 2_000_000), LoopAction::Refresh);
    s.record_fetch(None, 2_000_000);
    assert_eq!(s.last_refresh_ms, 2_000_000);
    assert_eq!(s.weather.as_ref().map(|w| w.current_temp_tenths), Some(100));
    assert_eq!(s.next_action(None, 2_000_000), LoopAction::Continue);
    assert_eq!(s.next_action(None, 3_799_999), LoopAction::Continue);
    assert_eq!(s.next_action(None, 3_800_000), LoopAction::Refresh);
    s.record_fetch(Some(weather(250)), 3_800_000);
    assert_eq!(s.weather.as_ref().map(|w| w.current_temp_tenths), Some(250));
    assert_eq!(s.next_action(None, 3_800_001), LoopAction::Continue);
}

#[test]
fn clock_before_last_refresh_is_not_due() {
    let s = DisplayState::new(None, 10_000);
    assert!(!s.refresh_due(0));
}
