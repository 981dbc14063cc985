//! The render coordinator: the single owner of the LED output. It applies at
//! most one command per iteration, advances the working animation one frame
//! per iteration, and keeps the published snapshot up to date. The caller
//! runs the loop: it waits for a command with a short timeout, hands the
//! outcome to [`Coordinator::step`], writes the current frame to the
//! hardware, calls [`Coordinator::advance_frame`] and sleeps for the period
//! that it returns.

use vstd::prelude::*;
use crate::animation::{Animation, ChangeLighting, ONE_FPS, STRIP_PIXELS};
use crate::config::{default_live_state, CurrentAnimationData};
use crate::converter::ByteRGB;
use crate::frame::DataFrame;

verus! {

/// Colour of the animation shown before the first command arrives.
pub const DEFAULT_COLOR: u32 = 255;

/// Milliseconds per second, times the thousandths in which rates are kept.
pub const PERIOD_SCALE: u64 = 1_000_000;

/// Time between frames at `mfps` thousandths of a frame per second, in whole
/// milliseconds (rounded down).
pub open spec fn frame_period_of(mfps: u64) -> u64 {
    if mfps == 0 {
        0
    } else {
        (PERIOD_SCALE / mfps) as u64
    }
}

/// The frame index reached from `start` after `n` frame advances through an
/// animation of `len` frames.
pub open spec fn ticks_from(start: nat, n: nat, len: nat) -> nat
    decreases n,
{
    if n == 0 {
        start
    } else {
        (ticks_from(start, (n - 1) as nat, len) + 1) % len
    }
}

/// Why a command was discarded.
#[derive(Debug, Clone, Copy, PartialEq, Eq, Structural)]
pub enum CommandError {
    /// An animation without frames.
    NoFrames,
    /// A playback rate of zero.
    ZeroSpeed,
}

/// What applying a command did.
#[derive(Debug, Clone, Copy, PartialEq, Eq, Structural)]
pub enum Applied {
    /// No command was pending.
    Nothing,
    /// A new animation was installed.
    Animation,
    /// The brightness changed; the hardware channels must be set to it.
    Brightness(u8),
    /// The playback rate changed.
    Speed,
    /// The command was invalid and was discarded; nothing changed.
    Rejected(CommandError),
}

/// What a bounded wait on the command channel gave.
#[derive(Debug)]
pub enum Received {
    /// A command arrived.
    Command(ChangeLighting),
    /// No command arrived within the wait.
    Idle,
    /// Every sender is gone: no command can ever arrive.
    Closed,
}

/// What the loop does after a step.
#[derive(Debug, Clone, Copy, PartialEq, Eq, Structural)]
pub enum Action {
    /// Shutdown was requested: leave the loop without writing a frame.
    Stop,
    /// The command channel closed: request shutdown and leave the loop
    /// without writing a frame.
    StopAndSignal,
    /// Write the current frame, advance, and sleep.
    Render(Applied),
}

/// The render coordinator's working state.
#[derive(Debug)]
pub struct Coordinator {
    animation: Animation,
    frame_index: usize,
    speed_mfps: u64,
    frame_period_ms: u64,
    live: CurrentAnimationData,
}

impl Coordinator {
    /// The animation being played.
    pub closed spec fn animation(&self) -> Animation {
        self.animation
    }

    /// The index of the frame shown next.
    pub closed spec fn index(&self) -> nat {
        self.frame_index as nat
    }

    /// The playback rate, in thousandths of a frame per second.
    pub closed spec fn speed(&self) -> u64 {
        self.speed_mfps
    }

    /// The time between frames, in milliseconds.
    pub closed spec fn period(&self) -> u64 {
        self.frame_period_ms
    }

    /// The published snapshot.
    pub closed spec fn live_state(&self) -> CurrentAnimationData {
        self.live
    }

    /// The number of frames of the working animation.
    pub open spec fn len(&self) -> nat {
        self.animation().frames@.len()
    }

    /// The working state is usable: the animation has a frame, the index is
    /// in range, the rate is positive and the period derives from it, and the
    /// snapshot shows the index.
    pub open spec fn wf(&self) -> bool {
        &&& self.len() > 0
        &&& self.index() < self.len()
        &&& self.speed() > 0
        &&& self.period() == frame_period_of(self.speed())
        &&& self.live_state().frame_index as nat == self.index()
    }

    /// `post` is `pre` after `cmd`, which reported `r`.
    pub open spec fn command_effect(pre: Coordinator, post: Coordinator, cmd: ChangeLighting, r: Applied) -> bool {
        match cmd {
            ChangeLighting::Brightness(b) => {
                &&& r == Applied::Brightness(b)
                &&& post.animation() == pre.animation()
                &&& post.index() == pre.index()
                &&& post.speed() == pre.speed()
                &&& post.period() == pre.period()
                &&& post.live_state() == CurrentAnimationData { brightness: b, ..pre.live_state() }
            },
            ChangeLighting::Animation(a) => if a.frames@.len() == 0 {
                r == Applied::Rejected(CommandError::NoFrames) && post == pre
            } else if a.speed_mfps == 0 {
                r == Applied::Rejected(CommandError::ZeroSpeed) && post == pre
            } else {
                &&& r == Applied::Animation
                &&& post.animation() == a
                &&& post.index() == 0
                &&& post.speed() == a.speed_mfps
                &&& post.period() == frame_period_of(a.speed_mfps)
                &&& post.live_state() == CurrentAnimationData {
                    animation_index: a.id,
                    animation_speed: a.speed_mfps,
                    frame_index: 0,
                    ..pre.live_state()
                }
            },
            ChangeLighting::Speed(s) => if s == 0 {
                r == Applied::Rejected(CommandError::ZeroSpeed) && post == pre
            } else {
                &&& r == Applied::Speed
                &&& post.animation() == pre.animation()
                &&& post.index() == pre.index()
                &&& post.speed() == s
                &&& post.period() == frame_period_of(s)
                &&& post.live_state() == CurrentAnimationData { animation_speed: s, ..pre.live_state() }
            },
        }
    }

    /// A coordinator that plays a one-frame animation of [`DEFAULT_COLOR`]
    /// at 1.5 fps, with the default snapshot.
    pub fn new() -> (r: Coordinator)
        ensures
            r.wf(),
            r.len() == 1,
            r.index() == 0,
            r.speed() == 3 * ONE_FPS / 2,
            r.period() == 666,
            r.animation().id == -1,
            r.animation().frames@[0].data@ == Seq::new(STRIP_PIXELS as nat, |i: int| DEFAULT_COLOR),
            r.live_state() == default_live_state(),
    {
        assert(PERIOD_SCALE as int / (3 * ONE_FPS as int / 2) == 666) by (nonlinear_arith);
        let mut animation = Animation::new_with_single_frame(DEFAULT_COLOR);
        animation.speed_mfps = 3 * ONE_FPS / 2;
        Coordinator {
            animation,
            frame_index: 0,
            speed_mfps: 3 * ONE_FPS / 2,
            frame_period_ms: PERIOD_SCALE / (3 * ONE_FPS / 2),
            live: CurrentAnimationData::default(),
        }
    }

    /// The index of the frame shown next.
    pub fn frame_index(&self) -> (r: usize)
        ensures
            r as nat == self.index(),
    {
        self.frame_index
    }

    /// The time between frames, in milliseconds.
    pub fn frame_period_ms(&self) -> (r: u64)
        ensures
            r == self.period(),
    {
        self.frame_period_ms
    }

    /// The playback rate, in thousandths of a frame per second.
    pub fn speed_mfps(&self) -> (r: u64)
        ensures
            r == self.speed(),
    {
        self.speed_mfps
    }

    /// The published snapshot.
    pub fn live(&self) -> (r: CurrentAnimationData)
        ensures
            r == self.live_state(),
    {
        self.live
    }

    /// The number of frames of the working animation.
    pub fn frame_count(&self) -> (r: usize)
        ensures
            r as nat == self.len(),
    {
        self.animation.frames.len()
    }

    /// The id of the working animation.
    pub fn animation_id(&self) -> (r: i32)
        ensures
            r == self.animation().id,
    {
        self.animation.id
    }

    /// The frame shown next.
    pub fn current_frame(&self) -> (r: &DataFrame)
        requires
            self.wf(),
        ensures
            *r == self.animation().frames@[self.index() as int],
    {
        &self.animation.frames[self.frame_index]
    }

    /// Applies one command. An animation without frames, or a rate of zero,
    /// is discarded and leaves the state as it was.
    pub fn apply(&mut self, cmd: ChangeLighting) -> (r: Applied)
        requires
            old(self).wf(),
        ensures
            final(self).wf(),
            Coordinator::command_effect(*old(self), *final(self), cmd, r),
    {
        match cmd {
            ChangeLighting::Brightness(b) => {
                self.live.brightness = b;
                Applied::Brightness(b)
            },
            ChangeLighting::Animation(a) => {
                if a.frames.len() == 0 {
                    Applied::Rejected(CommandError::NoFrames)
                } else if a.speed_mfps == 0 {
                    Applied::Rejected(CommandError::ZeroSpeed)
                } else {
                    let speed = a.speed_mfps;
                    let id = a.id;
                    self.animation = a;
                    self.frame_index = 0;
                    self.speed_mfps = speed;
                    self.frame_period_ms = PERIOD_SCALE / speed;
                    self.live.animation_index = id;
                    self.live.animation_speed = speed;
                    self.live.frame_index = 0;
                    Applied::Animation
                }
            },
            ChangeLighting::Speed(s) => {
                if s == 0 {
                    Applied::Rejected(CommandError::ZeroSpeed)
                } else {
                    self.speed_mfps = s;
                    self.frame_period_ms = PERIOD_SCALE / s;
                    self.live.animation_speed = s;
                    Applied::Speed
                }
            },
        }
    }

    /// Moves to the next frame, wrapping after the last, publishes the new
    /// index, and returns the time to sleep before the next iteration.
    pub fn advance_frame(&mut self) -> (sleep_ms: u64)
        requires
            old(self).wf(),
        ensures
            final(self).wf(),
            final(self).index() == ticks_from(old(self).index(), 1, old(self).len()),
            final(self).animation() == old(self).animation(),
            final(self).speed() == old(self).speed(),
            final(self).period() == old(self).period(),
            final(self).live_state() == (CurrentAnimationData {
                frame_index: final(self).index() as usize,
                ..old(self).live_state()
            }),
            sleep_ms == old(self).period(),
    {
        proof {
            reveal_with_fuel(ticks_from, 2);
        }
        let n = self.animation.frames.len();
        self.frame_index = (self.frame_index + 1) % n;
        self.live.frame_index = self.frame_index;
        self.frame_period_ms
    }

    /// One iteration's decision. A requested shutdown stops the loop, and a
    /// closed channel stops it and asks for shutdown, both before anything
    /// is written; otherwise the pending command, if any, is applied and the
    /// current frame is to be rendered.
    pub fn step(&mut self, shutdown: bool, received: Received) -> (r: Action)
        requires
            old(self).wf(),
        ensures
            final(self).wf(),
            shutdown ==> r == Action::Stop && *final(self) == *old(self),
            !shutdown ==> (match received {
                Received::Closed => r == Action::StopAndSignal && *final(self) == *old(self),
                Received::Idle => r == Action::Render(Applied::Nothing) && *final(self)
                    == *old(self),
                Received::Command(cmd) => exists|a: Applied|
                    r == Action::Render(a) && Coordinator::command_effect(
                        *old(self),
                        *final(self),
                        cmd,
                        a,
                    ),
            }),
    {
        if shutdown {
            return Action::Stop;
        }
        match received {
            Received::Closed => Action::StopAndSignal,
            Received::Idle => Action::Render(Applied::Nothing),
            Received::Command(cmd) => {
                let a = self.apply(cmd);
                Action::Render(a)
            },
        }
    }
}

/// The four bytes written to one LED for a packed colour: red, green, blue,
/// then an unused byte.
pub open spec fn led_bytes(p: u32) -> Seq<u8> {
    let c = ByteRGB::spec_from_u32(p);
    seq![c.red, c.green, c.blue, 0u8]
}

/// Writes `frame` to a channel's LED buffer. Pixels and LEDs are paired in
/// order up to the shorter of the two: extra pixels are ignored, and LEDs
/// beyond the frame keep what they held.
pub fn write_frame(frame: &DataFrame, leds: &mut Vec<[u8; 4]>)
    ensures
        final(leds)@.len() == old(leds)@.len(),
        forall|i: int|
            0 <= i < final(leds)@.len() ==> #[trigger] final(leds)@[i]@ == if i < frame.data@.len() {
                led_bytes(frame.data@[i])
            } else {
                old(leds)@[i]@
            },
{
    let n = if frame.data.len() < leds.len() {
        frame.data.len()
    } else {
        leds.len()
    };
    let mut i: usize = 0;
    while i < n
        invariant
            n <= frame.data@.len(),
            n <= old(leds)@.len(),
            n == frame.data@.len() || n == old(leds)@.len(),
            i <= n,
            leds@.len() == old(leds)@.len(),
            forall|j: int|
                0 <= j < leds@.len() ==> #[trigger] leds@[j]@ == if j < i {
                    led_bytes(frame.data@[j])
                } else {
                    old(leds)@[j]@
                },
        decreases n - i,
    {
        let bytes = ByteRGB::from_u32(frame.data[i]);
        let word: [u8; 4] = [bytes.red, bytes.green, bytes.blue, 0];
        assert(word@ =~= led_bytes(frame.data@[i as int]));
        leds.set(i, word);
        i = i + 1;
    }
}

/// `n` frame advances from index 0 land on `n` modulo the frame count.
pub proof fn lemma_ticks_from_zero(n: nat, len: nat)
    requires
        len > 0,
    ensures
        ticks_from(0, n, len) == n % len,
    decreases n,
{
    if n > 0 {
        let m = (n - 1) as nat;
        lemma_ticks_from_zero(m, len);
        vstd::arithmetic::div_mod::lemma_add_mod_noop_right(1, m as int, len as int);
    } else {
        vstd::arithmetic::div_mod::lemma_small_mod(0, len);
    }
}

/// Once an animation of `N > 0` frames and a positive rate is installed, the
/// snapshot shows its rate at once, before any frame is advanced, and exactly
/// `N` frame advances bring the frame index back to 0.
pub proof fn law_installed_animation_cycles(pre: Coordinator, post: Coordinator, a: Animation, r: Applied)
    requires
        pre.wf(),
        a.frames@.len() > 0,
        a.speed_mfps > 0,
        Coordinator::command_effect(pre, post, ChangeLighting::Animation(a), r),
    ensures
        post.index() == 0,
        post.live_state().animation_speed == a.speed_mfps,
        post.live_state().animation_index == a.id,
        ticks_from(post.index(), a.frames@.len(), post.len()) == 0,
{
    lemma_ticks_from_zero(a.frames@.len(), a.frames@.len());
    vstd::arithmetic::div_mod::lemma_mod_self_0(a.frames@.len() as int);
}

/// Setting the same brightness twice in a row leaves the same state, and the
/// same published brightness, as setting it once.
pub proof fn law_brightness_idempotent(
    c0: Coordinator,
    c1: Coordinator,
    c2: Coordinator,
    b: u8,
    r1: Applied,
    r2: Applied,
)
    requires
        c0.wf(),
        Coordinator::command_effect(c0, c1, ChangeLighting::Brightness(b), r1),
        Coordinator::command_effect(c1, c2, ChangeLighting::Brightness(b), r2),
    ensures
        c2 == c1,
        c2.live_state().brightness == c1.live_state().brightness,
        c1.live_state().brightness == b,
{
    assert(c2.frame_index == c1.frame_index);
}

/// A rate change never moves the frame index, in the state or in the
/// snapshot.
pub proof fn law_speed_keeps_frame_index(pre: Coordinator, post: Coordinator, s: u64, r: Applied)
    requires
        pre.wf(),
        Coordinator::command_effect(pre, post, ChangeLighting::Speed(s), r),
    ensures
        post.index() == pre.index(),
        post.live_state().frame_index == pre.live_state().frame_index,
{
}

} // verus!
