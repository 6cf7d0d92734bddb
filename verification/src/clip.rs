//! Shared immutable PCM clips and the linear-interpolating sampler.

use vstd::prelude::*;

use std::sync::Arc;

use crate::fp;
use crate::weak::arc_clone;
use crate::{frame_lerp, Frame};

verus! {

struct ClipInner {
    frames: Vec<Frame>,
    sample_rate: u32,
}

/// What a clip holds: its frame sequence and the rate it was authored at.
pub struct ClipView {
    pub frames: Seq<Frame>,
    pub sample_rate: u32,
}

/// A shared immutable buffer of stereo frames together with the sample rate
/// (frames per second) it was authored at. Cloning shares the buffer.
pub struct AudioClip(Arc<ClipInner>);

impl View for AudioClip {
    type V = ClipView;

    closed spec fn view(&self) -> ClipView {
        ClipView { frames: self.0.frames@, sample_rate: self.0.sample_rate }
    }
}

impl Clone for AudioClip {
    /// A new handle to the same frames and rate.
    fn clone(&self) -> (r: Self)
        ensures
            r@ == self@,
    {
        AudioClip(arc_clone(&self.0))
    }
}

/// Where `sample` reads, as a position in frames: the position in seconds
/// times the clip's own rate.
pub open spec fn sample_point(c: ClipView, position: u32) -> u32 {
    fp::mul32(position, fp::of_uint32(c.sample_rate as u64))
}

/// What `sample` returns: with `x` the position in frames and `i = trunc(x)`,
/// the frame at `i` interpolated towards the one after it (or towards itself
/// at the end of the clip) by `x - i`; nothing once `i` is past the last
/// frame.
pub open spec fn clip_sample(c: ClipView, position: u32) -> Option<Frame> {
    let x = sample_point(c, position);
    let i = fp::to_usize32(x) as int;
    if i < c.frames.len() {
        let next = if i + 1 < c.frames.len() {
            c.frames[i + 1]
        } else {
            c.frames[i]
        };
        Some(frame_lerp(c.frames[i], next, fp::sub32(x, fp::of_uint32(i as u64))))
    } else {
        None
    }
}

/// The clip's length in seconds: frame count divided by sample rate.
pub open spec fn clip_length(c: ClipView) -> u32 {
    fp::div32(fp::of_uint32(c.frames.len() as u64), fp::of_uint32(c.sample_rate as u64))
}

impl AudioClip {
    /// Wraps an already-decoded frame buffer and its sample rate.
    pub fn from_raw(frames: Vec<Frame>, sample_rate: u32) -> (r: Self)
        ensures
            r@.frames == frames@,
            r@.sample_rate == sample_rate,
    {
        AudioClip(Arc::new(ClipInner { frames, sample_rate }))
    }

    /// Samples the clip at a time in seconds, interpolating linearly between
    /// neighbouring frames; returns nothing once the position is past the
    /// last frame.
    pub fn sample(&self, position: u32) -> (r: Option<Frame>)
        ensures
            r == clip_sample(self@, position),
    {
        let x = fp::f32_mul(position, fp::f32_of_uint(self.0.sample_rate as u64));
        let i = fp::f32_to_usize(x);
        let frames = &self.0.frames;
        if i < frames.len() {
            let frame = frames[i];
            let next = if i < frames.len() - 1 {
                frames[i + 1]
            } else {
                frame
            };
            Some(frame.interpolate(&next, fp::f32_sub(x, fp::f32_of_uint(i as u64))))
        } else {
            None
        }
    }

    /// The decoded frames.
    pub fn frames(&self) -> (r: &Vec<Frame>)
        ensures
            r@ == self@.frames,
    {
        &self.0.frames
    }

    /// The rate, in frames per second, the clip was authored at.
    pub fn sample_rate(&self) -> (r: u32)
        ensures
            r == self@.sample_rate,
    {
        self.0.sample_rate
    }

    /// How many frames the clip holds.
    pub fn frame_count(&self) -> (r: usize)
        ensures
            r == self@.frames.len(),
    {
        self.0.frames.len()
    }

    /// The clip's length in seconds.
    pub fn length(&self) -> (r: u32)
        ensures
            r == clip_length(self@),
    {
        fp::f32_div(
            fp::f32_of_uint(self.0.frames.len() as u64),
            fp::f32_of_uint(self.0.sample_rate as u64),
        )
    }
}

} // verus!
