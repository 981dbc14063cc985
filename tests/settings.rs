use light_crud_api::config::{
    change_setting, get_setting, CurrentAnimationData, DatabaseConfig, DayNightConfig,
    LoadModuleConfig, Setting, TOMLConfig, WebConfig,
};

#[test]
fn schedule_defaults() {
    let c = DayNightConfig::default();
    assert_eq!(
        c,
        DayNightConfig {
            day_hour: 6,
            day_brightness: 1,
            night_hour: 15,
            night_brightness: 100,
            enabled: true
        }
    );
}

#[test]
fn other_defaults() {
    assert_eq!(DatabaseConfig::default().file_path, "/home/pi/Lights/db/sqlite.db");
    let w = WebConfig::default();
    assert_eq!((w.port, w.interface.as_str()), (3000, "0.0.0.0"));
    let m = LoadModuleConfig::default();
    assert!(!m.on_raspberry_pi && !m.webserver && !m.lights && !m.timed_brightness);
    let t = TOMLConfig::default();
    assert_eq!(t.day_night, DayNightConfig::default());
    assert_eq!(t.web.port, 3000);
}

#[test]
fn live_state_defaults() {
    let l = CurrentAnimationData::default();
    assert_eq!(l.brightness, 100);
    assert_eq!(l.animation_index, 0);
    assert_eq!(l.frame_index, 0);
    assert_eq!(l.animation_speed, 24_000);
}

#[test]
fn setting_names_ignore_case() {
    assert_eq!(Setting::parse("day_hour"), Some(Setting::DayHour));
    assert_eq!(Setting::parse("NIGHT_Hour"), Some(Setting::NightHour));
    assert_eq!(Setting::parse("Day_Brightness"), Some(Setting::DayBrightness));
    assert_eq!(Setting::parse("night_brightness"), Some(Setting::NightBrightness));
    assert_eq!(Setting::parse("ENABLED"), Some(Setting::Enabled));
    assert_eq!(Setting::parse("speed"), None);
    assert_eq!(Setting::parse("day_hours"), None);
    assert_eq!(Setting::parse(""), None);
    assert_eq!(Setting::NightBrightness.name(), "night_brightness");
}

#[test]
fn change_setting_caps_hours_and_returns_old_value() {
    let mut c = DayNightConfig::default();
    assert_eq!(change_setting(&mut c, "day_hour", 30), Some("6".to_string()));
    assert_eq!(c.day_hour, 24);
    assert_eq!(change_setting(&mut c, "Night_Hour", 20), Some("15".to_string()));
    assert_eq!(c.night_hour, 20);
}

#[test]
fn change_setting_brightness_and_enabled() {
    let mut c = DayNightConfig::default();
    assert_eq!(change_setting(&mut c, "night_brightness", 255), Some("100".to_string()));
    assert_eq!(c.night_brightness, 255);
    assert_eq!(change_setting(&mut c, "enabled", 0), Some("true".to_string()));
    assert!(!c.enabled);
    assert_eq!(change_setting(&mut c, "enabled", 7), Some("false".to_string()));
    assert!(c.enabled);
}

#[test]
fn change_setting_unknown_name_changes_nothing() {
    let mut c = DayNightConfig::default();
    assert_eq!(change_setting(&mut c, "colour", 3), None);
    assert_eq!(c, DayNightConfig::default());
}

#[test]
fn get_setting_reads_values() {
    let c = DayNightConfig::default();
    assert_eq!(get_setting(&c, "day_brightness"), Some("1".to_string()));
    assert_eq!(get_setting(&c, "night_brightness"), Some("100".to_string()));
    assert_eq!(get_setting(&c, "night_hour"), Some("15".to_string()));
    assert_eq!(get_setting(&c, "nope"), None);
    assert_eq!(c.setting_value(Setting::Enabled), "true");
}
