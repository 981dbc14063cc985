//! Animations and the control commands that producers send to the render
//! coordinator.

use vstd::prelude::*;
use crate::frame::{decoded_pixels, DataFrame, Frame};

verus! {

/// Pixels per strip in the default installation.
pub const STRIP_PIXELS: usize = 250;

/// A playback rate of one frame per second, in thousandths of a frame per
/// second.
pub const ONE_FPS: u64 = 1000;

/// A stored animation. The rate is kept in thousandths of a frame per second
/// (`1500` is 1.5 fps), so that it is exact.
#[derive(Debug, Clone)]
pub struct Animation {
    pub id: i32,
    pub name: String,
    pub speed_mfps: u64,
    pub frames: Vec<DataFrame>,
}

/// A control intent sent to the render coordinator.
#[derive(Debug)]
pub enum ChangeLighting {
    /// Global brightness of every channel.
    Brightness(u8),
    /// Replace the whole playback state.
    Animation(Animation),
    /// Replace only the playback rate, in thousandths of a frame per second.
    Speed(u64),
}

/// The stored header of an animation; the rate is in thousandths of a frame
/// per second.
#[derive(Debug, Clone)]
pub struct FrameMetadata {
    pub id: i32,
    pub name: String,
    pub speed_mfps: u64,
}

impl Animation {
    /// The animation made of a stored header and its stored frames, in the
    /// order given, each frame's pixels decoded from its text.
    pub fn from_metadata(meta: FrameMetadata, frames: &Vec<Frame>) -> (r: Animation)
        ensures
            r.id == meta.id,
            r.name == meta.name,
            r.speed_mfps == meta.speed_mfps,
            r.frames@.len() == frames@.len(),
            forall|i: int|
                0 <= i < frames@.len() ==> {
                    &&& (#[trigger] r.frames@[i]).id == frames@[i].id
                    &&& r.frames@[i].parent_id == frames@[i].parent_id
                    &&& r.frames@[i].frame_id == frames@[i].frame_id
                    &&& r.frames@[i].data@ == decoded_pixels(frames@[i].data@)
                },
    {
        let mut out: Vec<DataFrame> = Vec::new();
        let mut i: usize = 0;
        while i < frames.len()
            invariant
                i <= frames@.len(),
                out@.len() == i,
                forall|j: int|
                    0 <= j < i ==> {
                        &&& (#[trigger] out@[j]).id == frames@[j].id
                        &&& out@[j].parent_id == frames@[j].parent_id
                        &&& out@[j].frame_id == frames@[j].frame_id
                        &&& out@[j].data@ == decoded_pixels(frames@[j].data@)
                    },
            decreases frames@.len() - i,
        {
            out.push(DataFrame::from_frame(&frames[i]));
            i = i + 1;
        }
        Animation { id: meta.id, name: meta.name, speed_mfps: meta.speed_mfps, frames: out }
    }

    /// An unsaved animation with no frames at 24 fps.
    pub fn new() -> (r: Animation)
        ensures
            r.id == -1,
            r.name@ == Seq::<char>::empty(),
            r.speed_mfps == 24 * ONE_FPS,
            r.frames@.len() == 0,
    {
        Animation { id: -1, name: String::new(), speed_mfps: 24 * ONE_FPS, frames: Vec::new() }
    }

    /// An unsaved animation at 24 fps with one frame that shows `color` on
    /// every pixel of a strip.
    pub fn new_with_single_frame(color: u32) -> (r: Animation)
        ensures
            r.id == -1,
            r.name@ == Seq::<char>::empty(),
            r.speed_mfps == 24 * ONE_FPS,
            r.frames@.len() == 1,
            r.frames@[0].id == -1 && r.frames@[0].parent_id == -1 && r.frames@[0].frame_id == -1,
            r.frames@[0].data@ == Seq::new(STRIP_PIXELS as nat, |i: int| color),
    {
        let mut data: Vec<u32> = Vec::new();
        let mut i: usize = 0;
        while i < STRIP_PIXELS
            invariant
                i <= STRIP_PIXELS,
                data@ == Seq::new(i as nat, |j: int| color),
            decreases STRIP_PIXELS - i,
        {
            data.push(color);
            i = i + 1;
            assert(data@ =~= Seq::new(i as nat, |j: int| color));
        }
        let frame = DataFrame { id: -1, parent_id: -1, frame_id: -1, data };
        let mut frames: Vec<DataFrame> = Vec::new();
        frames.push(frame);
        Animation { id: -1, name: String::new(), speed_mfps: 24 * ONE_FPS, frames }
    }
}

} // verus!
