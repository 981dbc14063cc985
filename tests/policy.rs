use light_crud_api::config::DayNightConfig;
use light_crud_api::timing::{
    brightness_command, desired_brightness_at, get_day_night, timed_brightness_step,
    timed_brightness_tick, PolicyAction, TimedBrightness,
};

fn schedule() -> DayNightConfig {
    DayNightConfig { day_hour: 6, day_brightness: 1, night_hour: 15, night_brightness: 100, enabled: true }
}

#[test]
fn night_hour_sends_once() {
    let cfg = schedule();
    assert_eq!(brightness_command(&cfg, 16, 1), Some(100));
    assert_eq!(timed_brightness_step(false, Some(cfg), 16, 1), PolicyAction::Send(100));
    assert_eq!(brightness_command(&cfg, 16, 100), None);
    assert_eq!(timed_brightness_step(false, Some(cfg), 16, 100), PolicyAction::Wait);
}

#[test]
fn switching_hours_are_strict() {
    let cfg = schedule();
    assert_eq!(desired_brightness_at(&cfg, 15), Some(1));
    assert_eq!(desired_brightness_at(&cfg, 16), Some(100));
    assert_eq!(desired_brightness_at(&cfg, 6), None);
    assert_eq!(desired_brightness_at(&cfg, 7), Some(1));
    assert_eq!(desired_brightness_at(&cfg, 0), None);
    assert_eq!(desired_brightness_at(&cfg, 23), Some(100));
}

#[test]
fn disabled_policy_never_sends() {
    let mut cfg = schedule();
    cfg.enabled = false;
    for hour in 0..24u32 {
        for current in [0u8, 1, 50, 100, 255] {
            assert_eq!(brightness_command(&cfg, hour, current), None);
            assert_eq!(timed_brightness_step(false, Some(cfg), hour, current), PolicyAction::Wait);
        }
    }
    assert_eq!(timed_brightness_tick(false, Some(cfg), 7), PolicyAction::Wait);
}

#[test]
fn missing_schedule_waits() {
    assert_eq!(timed_brightness_step(false, None, 20, 0), PolicyAction::Wait);
    assert_eq!(timed_brightness_tick(false, None, 0), PolicyAction::Wait);
}

#[test]
fn shutdown_stops_policy() {
    assert_eq!(timed_brightness_step(true, Some(schedule()), 16, 1), PolicyAction::Stop);
    assert_eq!(timed_brightness_tick(true, Some(schedule()), 1), PolicyAction::Stop);
}

#[test]
fn tick_uses_an_hour_of_the_day() {
    let cfg = DayNightConfig { day_hour: 0, day_brightness: 1, night_hour: 30, night_brightness: 2, enabled: true };
    let r = timed_brightness_tick(false, Some(cfg), 9);
    assert!(r == PolicyAction::Send(1) || r == PolicyAction::Wait);
}

#[test]
fn day_night_entries() {
    let (day, night) = get_day_night(&schedule());
    assert_eq!(day, TimedBrightness { hour: 6, brightness: 1 });
    assert_eq!(night, TimedBrightness { hour: 15, brightness: 100 });
}
