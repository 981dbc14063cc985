//! The day/night brightness policy: from the hour of the day and a small
//! schedule, decide whether to send a brightness command.

use vstd::prelude::*;
use crate::animation::ChangeLighting;
use crate::config::DayNightConfig;
use crate::controller::{Applied, Coordinator};

verus! {

/// A brightness that applies after an hour of the day.
#[derive(Debug, Clone, Copy, PartialEq, Eq, Structural)]
pub struct TimedBrightness {
    pub hour: u32,
    pub brightness: u8,
}

/// What the policy loop does on one tick.
#[derive(Debug, Clone, Copy, PartialEq, Eq, Structural)]
pub enum PolicyAction {
    /// Shutdown was requested: leave the loop.
    Stop,
    /// Send a brightness command with this level.
    Send(u8),
    /// Send nothing and wait for the next tick.
    Wait,
}

/// The brightness the schedule asks for at `hour`. The comparisons are
/// strict: during the switching hour itself the earlier period's brightness
/// still applies, and before the day hour nothing is asked.
pub open spec fn desired_brightness(cfg: DayNightConfig, hour: u32) -> Option<u8> {
    if hour > cfg.night_hour {
        Some(cfg.night_brightness)
    } else if hour > cfg.day_hour {
        Some(cfg.day_brightness)
    } else {
        None
    }
}

/// The brightness command the policy sends at `hour` when `current` is
/// shown: only when the schedule is enabled, asks for a level, and that
/// level differs from the current one.
pub open spec fn policy_command(cfg: DayNightConfig, hour: u32, current: u8) -> Option<u8> {
    if !cfg.enabled {
        None
    } else {
        match desired_brightness(cfg, hour) {
            Some(v) => if v != current {
                Some(v)
            } else {
                None
            },
            None => None,
        }
    }
}

/// One tick of the policy loop; a missing schedule counts as disabled.
pub open spec fn policy_step(shutdown: bool, config: Option<DayNightConfig>, hour: u32, current: u8) -> PolicyAction {
    if shutdown {
        PolicyAction::Stop
    } else {
        match config {
            Some(cfg) => match policy_command(cfg, hour, current) {
                Some(v) => PolicyAction::Send(v),
                None => PolicyAction::Wait,
            },
            None => PolicyAction::Wait,
        }
    }
}

/// The day and night entries of the schedule.
pub fn get_day_night(cfg: &DayNightConfig) -> (r: (TimedBrightness, TimedBrightness))
    ensures
        r.0 == (TimedBrightness { hour: cfg.day_hour, brightness: cfg.day_brightness }),
        r.1 == (TimedBrightness { hour: cfg.night_hour, brightness: cfg.night_brightness }),
{
    let day = TimedBrightness { hour: cfg.day_hour, brightness: cfg.day_brightness };
    let night = TimedBrightness { hour: cfg.night_hour, brightness: cfg.night_brightness };
    (day, night)
}

/// The brightness the schedule asks for at `hour`.
pub fn desired_brightness_at(cfg: &DayNightConfig, hour: u32) -> (r: Option<u8>)
    ensures
        r == desired_brightness(*cfg, hour),
{
    let (day, night) = get_day_night(cfg);
    if hour > night.hour {
        Some(night.brightness)
    } else if hour > day.hour {
        Some(day.brightness)
    } else {
        None
    }
}

/// The brightness command to send at `hour` when `current` is shown, if any.
/// A disabled schedule never sends one.
pub fn brightness_command(cfg: &DayNightConfig, hour: u32, current: u8) -> (r: Option<u8>)
    ensures
        r == policy_command(*cfg, hour, current),
        !cfg.enabled ==> r is None,
        r matches Some(v) ==> v != current,
{
    if !cfg.enabled {
        return None;
    }
    match desired_brightness_at(cfg, hour) {
        Some(v) => if v != current {
            Some(v)
        } else {
            None
        },
        None => None,
    }
}

/// One tick of the policy loop at `hour`: stop on shutdown, otherwise send
/// the brightness command that the schedule calls for, if any. A missing
/// schedule counts as disabled.
pub fn timed_brightness_step(shutdown: bool, config: Option<DayNightConfig>, hour: u32, current: u8) -> (r: PolicyAction)
    ensures
        r == policy_step(shutdown, config, hour, current),
        shutdown ==> r == PolicyAction::Stop,
        !shutdown && (config is None || !config->Some_0.enabled) ==> r == PolicyAction::Wait,
{
    if shutdown {
        return PolicyAction::Stop;
    }
    match config {
        Some(cfg) => match brightness_command(&cfg, hour, current) {
            Some(v) => PolicyAction::Send(v),
            None => PolicyAction::Wait,
        },
        None => PolicyAction::Wait,
    }
}

/// Relies on `chrono::Local::now` and `Timelike::hour`: the hour of the local
/// time now, from 0 to 23.
#[verifier::external_body]
fn local_hour() -> (r: u32)
    ensures
        r < 24,
{
    chrono::Timelike::hour(&chrono::Local::now().time())
}

/// One tick of the policy loop at the current local hour.
pub fn timed_brightness_tick(shutdown: bool, config: Option<DayNightConfig>, current: u8) -> (r: PolicyAction)
    ensures
        exists|hour: u32| hour < 24 && r == policy_step(shutdown, config, hour, current),
        shutdown ==> r == PolicyAction::Stop,
        !shutdown && (config is None || !config->Some_0.enabled) ==> r == PolicyAction::Wait,
{
    if shutdown {
        assert(policy_step(shutdown, config, 0, current) == PolicyAction::Stop);
        return PolicyAction::Stop;
    }
    let hour = local_hour();
    timed_brightness_step(shutdown, config, hour, current)
}

/// When the policy sends a brightness and the coordinator applies it, the
/// policy sends nothing more at that hour: a repeated tick finds the level
/// already shown.
pub proof fn law_policy_settles(
    cfg: DayNightConfig,
    hour: u32,
    pre: Coordinator,
    post: Coordinator,
    v: u8,
    r: Applied,
)
    requires
        pre.wf(),
        policy_command(cfg, hour, pre.live_state().brightness) == Some(v),
        Coordinator::command_effect(pre, post, ChangeLighting::Brightness(v), r),
    ensures
        post.live_state().brightness == v,
        policy_command(cfg, hour, post.live_state().brightness) is None,
{
}

} // verus!
