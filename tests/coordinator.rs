use light_crud_api::animation::{Animation, ChangeLighting};
use light_crud_api::config::CurrentAnimationData;
use light_crud_api::controller::{
    write_frame, Action, Applied, CommandError, Coordinator, Received,
};
use light_crud_api::frame::DataFrame;

fn frame(pixels: Vec<u32>) -> DataFrame {
    DataFrame { id: -1, parent_id: 0, frame_id: 0, data: pixels }
}

fn animation(id: i32, speed_mfps: u64, n: usize) -> Animation {
    let mut frames = Vec::new();
    for i in 0..n {
        frames.push(frame(vec![i as u32; 3]));
    }
    Animation { id, name: "test".to_string(), speed_mfps, frames }
}

#[test]
fn initial_state_is_default_animation() {
    let c = Coordinator::new();
    assert_eq!(c.frame_count(), 1);
    assert_eq!(c.frame_index(), 0);
    assert_eq!(c.speed_mfps(), 1500);
    assert_eq!(c.frame_period_ms(), 666);
    assert_eq!(c.animation_id(), -1);
    assert_eq!(c.live(), CurrentAnimationData::default());
    assert_eq!(c.current_frame().data, vec![255u32; 250]);
}

#[test]
fn installed_animation_cycles_after_n_ticks() {
    let mut c = Coordinator::new();
    assert_eq!(c.apply(ChangeLighting::Animation(animation(9, 3000, 4))), Applied::Animation);
    assert_eq!(c.live().animation_speed, 3000);
    assert_eq!(c.live().animation_index, 9);
    assert_eq!(c.frame_index(), 0);
    assert_eq!(c.frame_period_ms(), 333);
    for _ in 0..4 {
        assert_eq!(c.advance_frame(), 333);
    }
    assert_eq!(c.frame_index(), 0);
    assert_eq!(c.live().frame_index, 0);
}

#[test]
fn brightness_twice_equals_once() {
    let mut once = Coordinator::new();
    once.apply(ChangeLighting::Brightness(42));
    let mut twice = Coordinator::new();
    assert_eq!(twice.apply(ChangeLighting::Brightness(42)), Applied::Brightness(42));
    assert_eq!(twice.apply(ChangeLighting::Brightness(42)), Applied::Brightness(42));
    assert_eq!(once.live(), twice.live());
    assert_eq!(twice.live().brightness, 42);
    for b in [0u8, 255] {
        twice.apply(ChangeLighting::Brightness(b));
        twice.apply(ChangeLighting::Brightness(b));
        assert_eq!(twice.live().brightness, b);
    }
}

#[test]
fn speed_change_keeps_frame_index() {
    let mut c = Coordinator::new();
    c.apply(ChangeLighting::Animation(animation(1, 24_000, 5)));
    c.advance_frame();
    c.advance_frame();
    assert_eq!(c.frame_index(), 2);
    assert_eq!(c.apply(ChangeLighting::Speed(10_000)), Applied::Speed);
    assert_eq!(c.frame_index(), 2);
    assert_eq!(c.live().frame_index, 2);
    assert_eq!(c.live().animation_speed, 10_000);
    assert_eq!(c.frame_period_ms(), 100);
    assert_eq!(c.animation_id(), 1);
}

#[test]
fn two_frame_animation_after_three_ticks() {
    let mut c = Coordinator::new();
    let a = Animation {
        id: 3,
        name: "two".to_string(),
        speed_mfps: 2000,
        frames: vec![frame(vec![0xFF0000]), frame(vec![0x00FF00])],
    };
    assert_eq!(c.step(false, Received::Command(ChangeLighting::Animation(a))), Action::Render(Applied::Animation));
    assert_eq!(c.frame_period_ms(), 500);
    let mut shown = Vec::new();
    for _ in 0..3 {
        shown.push(c.current_frame().data[0]);
        c.advance_frame();
    }
    assert_eq!(shown, vec![0xFF0000, 0x00FF00, 0xFF0000]);
    assert_eq!(c.frame_index(), 1);
    assert_eq!(c.live().animation_index, 3);
    assert_eq!(c.live().frame_index, 1);
}

#[test]
fn closed_channel_stops_without_rendering() {
    let mut c = Coordinator::new();
    c.apply(ChangeLighting::Animation(animation(5, 1000, 3)));
    c.advance_frame();
    let before = c.live();
    assert_eq!(c.step(false, Received::Closed), Action::StopAndSignal);
    assert_eq!(c.live(), before);
    assert_eq!(c.frame_index(), 1);
}

#[test]
fn shutdown_stops_before_applying() {
    let mut c = Coordinator::new();
    assert_eq!(c.step(true, Received::Command(ChangeLighting::Brightness(3))), Action::Stop);
    assert_eq!(c.live().brightness, 100);
    assert_eq!(c.step(true, Received::Idle), Action::Stop);
    assert_eq!(c.step(true, Received::Closed), Action::Stop);
}

#[test]
fn idle_step_changes_nothing() {
    let mut c = Coordinator::new();
    assert_eq!(c.step(false, Received::Idle), Action::Render(Applied::Nothing));
    assert_eq!(c.live(), CurrentAnimationData::default());
}

#[test]
fn invalid_commands_are_discarded() {
    let mut c = Coordinator::new();
    c.apply(ChangeLighting::Animation(animation(2, 5000, 2)));
    c.advance_frame();
    let before = c.live();
    assert_eq!(
        c.apply(ChangeLighting::Animation(animation(7, 5000, 0))),
        Applied::Rejected(CommandError::NoFrames)
    );
    assert_eq!(
        c.apply(ChangeLighting::Animation(animation(7, 0, 2))),
        Applied::Rejected(CommandError::ZeroSpeed)
    );
    assert_eq!(c.apply(ChangeLighting::Speed(0)), Applied::Rejected(CommandError::ZeroSpeed));
    assert_eq!(c.live(), before);
    assert_eq!(c.animation_id(), 2);
    assert_eq!(c.frame_index(), 1);
    assert_eq!(c.frame_period_ms(), 200);
}

#[test]
fn very_fast_rate_gives_zero_period() {
    let mut c = Coordinator::new();
    assert_eq!(c.apply(ChangeLighting::Speed(2_000_000)), Applied::Speed);
    assert_eq!(c.frame_period_ms(), 0);
}

#[test]
fn write_frame_pairs_up_to_shorter() {
    let mut leds = vec![[9u8, 9, 9, 9]; 4];
    write_frame(&frame(vec![0x112233, 0xFF00FF]), &mut leds);
    assert_eq!(leds, vec![[0x11, 0x22, 0x33, 0], [0xFF, 0, 0xFF, 0], [9, 9, 9, 9], [9, 9, 9, 9]]);

    let mut short = vec![[0u8; 4]; 2];
    write_frame(&frame(vec![1, 2, 3, 4]), &mut short);
    assert_eq!(short, vec![[0, 0, 1, 0], [0, 0, 2, 0]]);

    let mut none: Vec<[u8; 4]> = Vec::new();
    write_frame(&frame(vec![1]), &mut none);
    assert!(none.is_empty());
}
