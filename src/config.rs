//! Settings of the installation, the day/night schedule and the published
//! snapshot of what is playing.

use vstd::prelude::*;
use crate::animation::ONE_FPS;
use crate::text::{decimal, push_decimal};

verus! {

/// Where the animation store lives.
#[derive(Debug, Clone)]
pub struct DatabaseConfig {
    pub file_path: String,
}

/// Where the HTTP API listens.
#[derive(Debug, Clone)]
pub struct WebConfig {
    pub port: i32,
    pub interface: String,
}

/// Which parts of the program run.
#[derive(Debug, Clone, Copy, PartialEq, Eq, Structural)]
pub struct LoadModuleConfig {
    pub on_raspberry_pi: bool,
    pub webserver: bool,
    pub lights: bool,
    pub timed_brightness: bool,
}

/// The day/night brightness schedule: after `day_hour` the day brightness
/// applies, after `night_hour` the night brightness.
#[derive(Debug, Clone, Copy, PartialEq, Eq, Structural)]
pub struct DayNightConfig {
    pub day_hour: u32,
    pub day_brightness: u8,
    pub night_hour: u32,
    pub night_brightness: u8,
    pub enabled: bool,
}

/// The whole configuration file.
#[derive(Debug, Clone)]
pub struct TOMLConfig {
    pub database: DatabaseConfig,
    pub web: WebConfig,
    pub modules: LoadModuleConfig,
    pub day_night: DayNightConfig,
}

/// The published snapshot of what is playing. The rate is in thousandths of
/// a frame per second; `frame_index` is the frame that is shown next.
#[derive(Debug, Clone, Copy, PartialEq, Eq, Structural)]
pub struct CurrentAnimationData {
    pub brightness: u8,
    pub animation_index: i32,
    pub frame_index: usize,
    pub animation_speed: u64,
}

/// The schedule that applies when none is configured.
pub open spec fn default_day_night() -> DayNightConfig {
    DayNightConfig {
        day_hour: 6,
        day_brightness: 1,
        night_hour: 15,
        night_brightness: 100,
        enabled: true,
    }
}

/// The snapshot published before the coordinator has applied anything.
pub open spec fn default_live_state() -> CurrentAnimationData {
    CurrentAnimationData {
        brightness: 100,
        animation_index: 0,
        frame_index: 0,
        animation_speed: (24 * ONE_FPS) as u64,
    }
}

impl Default for DatabaseConfig {
    fn default() -> (r: Self)
        ensures
            r.file_path@ == seq![
                '/', 'h', 'o', 'm', 'e', '/', 'p', 'i', '/', 'L', 'i', 'g', 'h', 't', 's', '/',
                'd', 'b', '/', 's', 'q', 'l', 'i', 't', 'e', '.', 'd', 'b',
            ],
    {
        proof {
            reveal_strlit("/home/pi/Lights/db/sqlite.db");
        }
        DatabaseConfig { file_path: String::from_str("/home/pi/Lights/db/sqlite.db") }
    }
}

impl Default for WebConfig {
    fn default() -> (r: Self)
        ensures
            r.port == 3000,
            r.interface@ == seq!['0', '.', '0', '.', '0', '.', '0'],
    {
        proof {
            reveal_strlit("0.0.0.0");
        }
        WebConfig { port: 3000, interface: String::from_str("0.0.0.0") }
    }
}

impl Default for LoadModuleConfig {
    fn default() -> (r: Self)
        ensures
            !r.on_raspberry_pi && !r.webserver && !r.lights && !r.timed_brightness,
    {
        LoadModuleConfig {
            on_raspberry_pi: false,
            webserver: false,
            lights: false,
            timed_brightness: false,
        }
    }
}

impl Default for DayNightConfig {
    fn default() -> (r: Self)
        ensures
            r == default_day_night(),
    {
        DayNightConfig {
            day_hour: 6,
            day_brightness: 1,
            night_hour: 15,
            night_brightness: 100,
            enabled: true,
        }
    }
}

impl Default for TOMLConfig {
    fn default() -> (r: Self)
        ensures
            r.database.file_path@ == seq![
                '/', 'h', 'o', 'm', 'e', '/', 'p', 'i', '/', 'L', 'i', 'g', 'h', 't', 's', '/',
                'd', 'b', '/', 's', 'q', 'l', 'i', 't', 'e', '.', 'd', 'b',
            ],
            r.web.port == 3000,
            r.web.interface@ == seq!['0', '.', '0', '.', '0', '.', '0'],
            !r.modules.on_raspberry_pi && !r.modules.webserver && !r.modules.lights
                && !r.modules.timed_brightness,
            r.day_night == default_day_night(),
    {
        TOMLConfig {
            database: DatabaseConfig::default(),
            web: WebConfig::default(),
            modules: LoadModuleConfig::default(),
            day_night: DayNightConfig::default(),
        }
    }
}

impl Default for CurrentAnimationData {
    fn default() -> (r: Self)
        ensures
            r == default_live_state(),
    {
        CurrentAnimationData {
            brightness: 100,
            animation_index: 0,
            frame_index: 0,
            animation_speed: 24 * ONE_FPS,
        }
    }
}

/// A field of the day/night schedule that can be read and changed by name.
#[derive(Debug, Clone, Copy, PartialEq, Eq, Structural)]
pub enum Setting {
    DayHour,
    NightHour,
    DayBrightness,
    NightBrightness,
    Enabled,
}

/// The latest hour that a schedule accepts.
pub const MAX_HOUR: u8 = 24;

/// `a` is `lower`, or its ASCII upper-case form.
pub open spec fn char_matches(a: char, lower: char) -> bool {
    a == lower || ('A' <= a && a <= 'Z' && a as u32 + 32 == lower as u32)
}

/// `s` lower-cased (ASCII only) is `lower`.
pub open spec fn name_matches(s: Seq<char>, lower: Seq<char>) -> bool {
    s.len() == lower.len() && forall|i: int| 0 <= i < s.len() ==> char_matches(s[i], lower[i])
}

/// The name of each setting.
pub open spec fn setting_name(s: Setting) -> Seq<char> {
    match s {
        Setting::DayHour => seq!['d', 'a', 'y', '_', 'h', 'o', 'u', 'r'],
        Setting::NightHour => seq!['n', 'i', 'g', 'h', 't', '_', 'h', 'o', 'u', 'r'],
        Setting::DayBrightness => seq![
            'd', 'a', 'y', '_', 'b', 'r', 'i', 'g', 'h', 't', 'n', 'e', 's', 's',
        ],
        Setting::NightBrightness => seq![
            'n', 'i', 'g', 'h', 't', '_', 'b', 'r', 'i', 'g', 'h', 't', 'n', 'e', 's', 's',
        ],
        Setting::Enabled => seq!['e', 'n', 'a', 'b', 'l', 'e', 'd'],
    }
}

/// The setting that `name` names, ignoring ASCII case.
pub open spec fn setting_named(name: Seq<char>) -> Option<Setting> {
    if name_matches(name, setting_name(Setting::DayHour)) {
        Some(Setting::DayHour)
    } else if name_matches(name, setting_name(Setting::NightHour)) {
        Some(Setting::NightHour)
    } else if name_matches(name, setting_name(Setting::DayBrightness)) {
        Some(Setting::DayBrightness)
    } else if name_matches(name, setting_name(Setting::NightBrightness)) {
        Some(Setting::NightBrightness)
    } else if name_matches(name, setting_name(Setting::Enabled)) {
        Some(Setting::Enabled)
    } else {
        None
    }
}

/// The text of a setting's value: a decimal number, or `true` / `false`.
pub open spec fn setting_text(cfg: DayNightConfig, s: Setting) -> Seq<char> {
    match s {
        Setting::DayHour => decimal(cfg.day_hour as nat),
        Setting::NightHour => decimal(cfg.night_hour as nat),
        Setting::DayBrightness => decimal(cfg.day_brightness as nat),
        Setting::NightBrightness => decimal(cfg.night_brightness as nat),
        Setting::Enabled => if cfg.enabled {
            seq!['t', 'r', 'u', 'e']
        } else {
            seq!['f', 'a', 'l', 's', 'e']
        },
    }
}

/// The schedule after `s` is set from `value`: hours are capped at 24, and
/// `enabled` is true for any value but 0.
pub open spec fn with_setting(cfg: DayNightConfig, s: Setting, value: u8) -> DayNightConfig {
    let hour = (if value > MAX_HOUR { MAX_HOUR } else { value }) as u32;
    match s {
        Setting::DayHour => DayNightConfig { day_hour: hour, ..cfg },
        Setting::NightHour => DayNightConfig { night_hour: hour, ..cfg },
        Setting::DayBrightness => DayNightConfig { day_brightness: value, ..cfg },
        Setting::NightBrightness => DayNightConfig { night_brightness: value, ..cfg },
        Setting::Enabled => DayNightConfig { enabled: value != 0, ..cfg },
    }
}

fn name_is(s: &str, lower: &str) -> (r: bool)
    ensures
        r == name_matches(s@, lower@),
{
    let n = s.unicode_len();
    if n != lower.unicode_len() {
        return false;
    }
    let mut i: usize = 0;
    while i < n
        invariant
            n == s@.len() == lower@.len(),
            i <= n,
            forall|j: int| 0 <= j < i ==> char_matches(s@[j], lower@[j]),
        decreases n - i,
    {
        let a = s.get_char(i);
        let b = lower.get_char(i);
        if !(a == b || ('A' <= a && a <= 'Z' && a as u32 + 32 == b as u32)) {
            return false;
        }
        i = i + 1;
    }
    true
}

impl Setting {
    /// The setting's name, in lower case.
    pub fn name(&self) -> (r: &'static str)
        ensures
            r@ == setting_name(*self),
    {
        proof {
            reveal_strlit("day_hour");
            reveal_strlit("night_hour");
            reveal_strlit("day_brightness");
            reveal_strlit("night_brightness");
            reveal_strlit("enabled");
        }
        match self {
            Setting::DayHour => "day_hour",
            Setting::NightHour => "night_hour",
            Setting::DayBrightness => "day_brightness",
            Setting::NightBrightness => "night_brightness",
            Setting::Enabled => "enabled",
        }
    }

    /// The setting that `name` names, ignoring ASCII case.
    pub fn parse(name: &str) -> (r: Option<Setting>)
        ensures
            r == setting_named(name@),
    {
        if name_is(name, Setting::DayHour.name()) {
            Some(Setting::DayHour)
        } else if name_is(name, Setting::NightHour.name()) {
            Some(Setting::NightHour)
        } else if name_is(name, Setting::DayBrightness.name()) {
            Some(Setting::DayBrightness)
        } else if name_is(name, Setting::NightBrightness.name()) {
            Some(Setting::NightBrightness)
        } else if name_is(name, Setting::Enabled.name()) {
            Some(Setting::Enabled)
        } else {
            None
        }
    }
}

impl DayNightConfig {
    /// The text of the value of `s`.
    pub fn setting_value(&self, s: Setting) -> (r: String)
        ensures
            r@ == setting_text(*self, s),
    {
        let mut r = String::new();
        match s {
            Setting::DayHour => push_decimal(&mut r, self.day_hour),
            Setting::NightHour => push_decimal(&mut r, self.night_hour),
            Setting::DayBrightness => push_decimal(&mut r, self.day_brightness as u32),
            Setting::NightBrightness => push_decimal(&mut r, self.night_brightness as u32),
            Setting::Enabled => {
                proof {
                    reveal_strlit("true");
                    reveal_strlit("false");
                }
                if self.enabled {
                    r.append("true");
                } else {
                    r.append("false");
                }
            },
        }
        assert(r@ =~= setting_text(*self, s));
        r
    }

    /// Sets `s` from `value`: hours are capped at 24, and `enabled` becomes
    /// true for any value but 0.
    pub fn apply_setting(&mut self, s: Setting, value: u8)
        ensures
            *final(self) == with_setting(*old(self), s, value),
    {
        let hour = (if value > MAX_HOUR { MAX_HOUR } else { value }) as u32;
        match s {
            Setting::DayHour => self.day_hour = hour,
            Setting::NightHour => self.night_hour = hour,
            Setting::DayBrightness => self.day_brightness = value,
            Setting::NightBrightness => self.night_brightness = value,
            Setting::Enabled => self.enabled = value != 0,
        }
    }
}

/// Sets the setting named `setting` (ignoring ASCII case) from `value` and
/// returns the text of its previous value; an unknown name changes nothing
/// and gives `None`.
pub fn change_setting(cfg: &mut DayNightConfig, setting: &str, value: u8) -> (r: Option<String>)
    ensures
        match setting_named(setting@) {
            Some(s) => *final(cfg) == with_setting(*old(cfg), s, value) && r is Some
                && r->Some_0@ == setting_text(*old(cfg), s),
            None => *final(cfg) == *old(cfg) && r is None,
        },
{
    match Setting::parse(setting) {
        Some(s) => {
            let old_value = cfg.setting_value(s);
            cfg.apply_setting(s, value);
            Some(old_value)
        },
        None => None,
    }
}

/// The text of the value of the setting named `setting` (ignoring ASCII
/// case), or `None` for an unknown name.
pub fn get_setting(cfg: &DayNightConfig, setting: &str) -> (r: Option<String>)
    ensures
        match setting_named(setting@) {
            Some(s) => r is Some && r->Some_0@ == setting_text(*cfg, s),
            None => r is None,
        },
{
    match Setting::parse(setting) {
        Some(s) => Some(cfg.setting_value(s)),
        None => None,
    }
}

} // verus!
