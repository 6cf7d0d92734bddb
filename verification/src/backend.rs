//! The contract between the engine and a platform audio backend.
//!
//! A backend owns the driver stream. At setup it receives the consuming end
//! of the mixer's command queue and the latency recorder; on every driver
//! callback it is expected to inform the mixer of the stream's sample rate
//! before the first buffer, render into the driver's buffer through the
//! mixer, push the callback's scheduling delay into the recorder, and set
//! its broken flag on unrecoverable stream errors.

use vstd::prelude::*;

use crate::latency::LatencyRecorder;
use crate::mixer::MixerCommand;
use crate::spsc::SpscConsumer;
use crate::Error;

verus! {

/// What a backend receives at setup.
pub struct BackendSetup {
    /// The consuming end of the manager-to-mixer command queue.
    pub mixer_cons: SpscConsumer<MixerCommand>,
    /// The recorder the backend pushes per-callback latency into.
    pub latency_rec: LatencyRecorder,
}

/// A platform audio backend; implementations live outside the engine and
/// perform the stream I/O the engine never touches.
pub trait Backend {
    /// Stores the setup; called once before `start`.
    fn setup(&mut self, setup: BackendSetup) -> Result<(), Error>;

    /// Opens and starts the stream; called again to recover a broken one.
    fn start(&mut self) -> Result<(), Error>;

    /// Atomically reads and clears the broken flag.
    fn consume_broken(&self) -> bool;
}

/// Configuration of a desktop-driver backend.
#[derive(Clone, Copy, Debug)]
pub struct CpalSettings {
    /// Requested stream buffer size in frames; the driver's default when
    /// absent.
    pub buffer_size: Option<u32>,
}

impl Default for CpalSettings {
    /// The driver's default buffer size.
    fn default() -> (r: Self)
        ensures
            r == (CpalSettings { buffer_size: None }),
    {
        CpalSettings { buffer_size: None }
    }
}

/// Configuration of an embedded-OS-driver backend.
#[derive(Clone, Copy, Debug)]
pub struct OhosSettings {
    /// Requested stream buffer size in frames; the driver's default when
    /// absent.
    pub buffer_size: Option<u32>,
    /// Requested stream sample rate; the driver's default when absent.
    pub sample_rate: Option<u32>,
    /// Output channel count.
    pub channels: u16,
}

impl Default for OhosSettings {
    /// The driver's defaults, stereo.
    fn default() -> (r: Self)
        ensures
            r == (OhosSettings { buffer_size: None, sample_rate: None, channels: 2u16 }),
    {
        OhosSettings { buffer_size: None, sample_rate: None, channels: 2 }
    }
}

} // verus!
