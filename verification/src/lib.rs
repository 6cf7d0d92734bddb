//! A low-latency mixing audio engine.
//!
//! The engine mixes long-running music sources and pooled one-shot sound
//! effects into an interleaved output buffer, under control of lock-free
//! command queues, and keeps a moving average of callback latency.
//!
//! Every audio sample is carried as the bit pattern of an IEEE-754 binary32
//! value (a `u32`), and every arithmetic step on samples goes through the
//! sample arithmetic in [`fp`], so that each renderer's exact output can be
//! stated in its contract.
//!
//! The trusted boundary is small: the IEEE-754 operations of [`fp`], the
//! queue ends of [`spsc`], and the reference counting of [`weak`]. Everything
//! else is verified against those contracts.

use vstd::prelude::*;

pub mod backend;
pub mod clip;
pub mod fp;
pub mod latency;
pub mod manager;
pub mod mixer;
pub mod music;
pub mod sfx;
pub mod spsc;
pub mod stretcher;
pub mod weak;

pub use backend::Backend;
pub use clip::AudioClip;
pub use latency::LatencyRecorder;
pub use manager::AudioManager;
pub use music::{Music, MusicParams};
pub use sfx::{PlaySfxParams, Sfx};
pub use stretcher::StretcherCore;

verus! {

/// Bit pattern of the IEEE-754 binary32 value 1.0.
pub const F32_ONE: u32 = 0x3F80_0000;

/// Bit pattern of the IEEE-754 binary32 value 2.0.
pub const F32_TWO: u32 = 0x4000_0000;

/// Bit pattern of the IEEE-754 binary32 value 4.0.
pub const F32_FOUR: u32 = 0x4080_0000;

/// Bit pattern of the IEEE-754 binary32 value 0.0 (positive zero).
pub const F32_ZERO: u32 = 0x0000_0000;

/// Bit pattern of the IEEE-754 binary32 value -1.0.
pub const F32_NEG_ONE: u32 = 0xBF80_0000;

/// Bit pattern of the IEEE-754 binary64 value 1.0.
pub const F64_ONE: u64 = 0x3FF0_0000_0000_0000;

/// One stereo sample pair; each field is the bit pattern of a binary32 value.
#[derive(Clone, Copy, Debug, PartialEq, Eq, Structural)]
pub struct Frame(pub u32, pub u32);

/// The sum of two frames, per channel.
pub open spec fn frame_plus(a: Frame, b: Frame) -> Frame {
    Frame(fp::add32(a.0, b.0), fp::add32(a.1, b.1))
}

/// A frame scaled by a gain factor, per channel.
pub open spec fn frame_gain(a: Frame, k: u32) -> Frame {
    Frame(fp::mul32(a.0, k), fp::mul32(a.1, k))
}

/// Linear interpolation from `a` towards `b` by fraction `f`, per channel:
/// `a + (b - a) * f`.
pub open spec fn frame_lerp(a: Frame, b: Frame, f: u32) -> Frame {
    Frame(
        fp::add32(a.0, fp::mul32(fp::sub32(b.0, a.0), f)),
        fp::add32(a.1, fp::mul32(fp::sub32(b.1, a.1), f)),
    )
}

/// The average of the two channels: `(l + r) / 2`.
pub open spec fn frame_avg(a: Frame) -> u32 {
    fp::div32(fp::add32(a.0, a.1), F32_TWO)
}

impl Frame {
    /// Mixes both channels down to one mono sample.
    pub fn avg(&self) -> (r: u32)
        ensures
            r == frame_avg(*self),
    {
        fp::f32_div(fp::f32_add(self.0, self.1), F32_TWO)
    }

    /// Interpolates linearly towards `other` by fraction `f`, per channel.
    pub fn interpolate(&self, other: &Frame, f: u32) -> (r: Frame)
        ensures
            r == frame_lerp(*self, *other, f),
    {
        Frame(
            fp::f32_add(self.0, fp::f32_mul(fp::f32_sub(other.0, self.0), f)),
            fp::f32_add(self.1, fp::f32_mul(fp::f32_sub(other.1, self.1), f)),
        )
    }

    /// Adds another frame, per channel.
    pub fn plus(&self, other: &Frame) -> (r: Frame)
        ensures
            r == frame_plus(*self, *other),
    {
        Frame(fp::f32_add(self.0, other.0), fp::f32_add(self.1, other.1))
    }

    /// Scales both channels by a gain factor.
    pub fn gain(&self, k: u32) -> (r: Frame)
        ensures
            r == frame_gain(*self, k),
    {
        Frame(fp::f32_mul(self.0, k), fp::f32_mul(self.1, k))
    }
}

impl Default for Frame {
    /// The silent frame: both channels hold the bits of 0.0.
    fn default() -> (r: Self)
        ensures
            r == Frame(F32_ZERO, F32_ZERO),
    {
        Frame(F32_ZERO, F32_ZERO)
    }
}

/// Why an engine operation failed.
#[derive(Clone, Copy, Debug, PartialEq, Eq)]
pub enum Error {
    /// A handle tried to post a command onto a saturated queue; the string
    /// names the operation that was refused.
    BufferFull(&'static str),
    /// The platform backend refused to open or start its stream.
    BackendStartFailure(&'static str),
}

impl Error {
    /// The operation or cause this error was raised with.
    pub fn context(&self) -> (r: &'static str)
        ensures
            *self matches Error::BufferFull(c) ==> r == c,
            *self matches Error::BackendStartFailure(c) ==> r == c,
    {
        match self {
            Error::BufferFull(c) => c,
            Error::BackendStartFailure(c) => c,
        }
    }

    /// True iff this is a saturated-queue error.
    pub fn is_buffer_full(&self) -> (r: bool)
        ensures
            r == (*self matches Error::BufferFull(_)),
    {
        match self {
            Error::BufferFull(_) => true,
            Error::BackendStartFailure(_) => false,
        }
    }
}

/// Turns a rejected queue element into the saturated-queue error for the
/// operation named by `context`.
pub fn buffer_is_full<E>(_rejected: E, context: &'static str) -> (r: Error)
    ensures
        r == Error::BufferFull(context),
{
    Error::BufferFull(context)
}

} // verus!
