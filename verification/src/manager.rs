//! The application-facing facade: builds the mixer/backend pair and issues
//! handles.

use vstd::prelude::*;

use core::sync::atomic::{AtomicU32, Ordering};
use std::sync::Arc;

use crate::backend::{Backend, BackendSetup};
use crate::clip::AudioClip;
use crate::latency::LatencyRecorder;
use crate::mixer::{MixerCommand, Source};
use crate::music::{Music, MusicParams};
use crate::sfx::Sfx;
use crate::spsc::{spsc_channel, SpscProducer};
use crate::weak::arc_clone;
use crate::{buffer_is_full, Error};

verus! {

/// Owns the backend and the producing end of the mixer's command queue, and
/// shares the atomic the latency recorder publishes into.
pub struct AudioManager<B: Backend> {
    backend: B,
    latency: Arc<AtomicU32>,
    prod: SpscProducer<MixerCommand>,
}

impl<B: Backend> AudioManager<B> {
    /// Allocates the mixer command queue (16 slots) and the latency
    /// recorder, hands both to the backend, and starts the stream; fails
    /// when the backend refuses either step.
    pub fn new(backend: B) -> (r: Result<AudioManager<B>, Error>) {
        let mut backend = backend;
        let (prod, cons) = spsc_channel(16);
        let latency = Arc::new(AtomicU32::new(0));
        let latency_rec = LatencyRecorder::new(arc_clone(&latency));
        match backend.setup(BackendSetup { mixer_cons: cons, latency_rec }) {
            Ok(()) => {},
            Err(e) => {
                return Err(e);
            },
        }
        match backend.start() {
            Ok(()) => {},
            Err(e) => {
                return Err(e);
            },
        }
        Ok(AudioManager { backend, latency, prod })
    }

    /// Creates a sound-effect handle over `clip` and posts its renderer to
    /// the mixer; fails with `BufferFull` when the command queue is
    /// saturated.
    pub fn create_sfx(&mut self, clip: AudioClip, buffer_size: Option<usize>) -> (r: Result<
        Sfx,
        Error,
    >)
        requires
            buffer_size matches Some(n) ==> n >= 1,
        ensures
            r matches Err(e) ==> e == Error::BufferFull("add renderer"),
    {
        let (sfx, renderer) = Sfx::new(clip, buffer_size);
        match self.add_renderer(Source::Sfx(renderer)) {
            Ok(()) => Ok(sfx),
            Err(e) => Err(e),
        }
    }

    /// Creates a music handle over `clip` and posts its renderer to the
    /// mixer; fails with `BufferFull` when the command queue is saturated.
    pub fn create_music(&mut self, clip: AudioClip, settings: MusicParams) -> (r: Result<
        Music,
        Error,
    >)
        requires
            settings.command_buffer_size >= 1,
        ensures
            r matches Err(e) ==> e == Error::BufferFull("add renderer"),
    {
        let (music, renderer) = Music::new(clip, settings);
        match self.add_renderer(Source::Music(renderer)) {
            Ok(()) => Ok(music),
            Err(e) => Err(e),
        }
    }

    /// Posts any source to the mixer; fails with `BufferFull` when the
    /// command queue is saturated.
    pub fn add_renderer(&mut self, source: Source) -> (r: Result<(), Error>)
        ensures
            r matches Err(e) ==> e == Error::BufferFull("add renderer"),
    {
        match self.prod.push(MixerCommand::AddSource(source)) {
            Ok(()) => Ok(()),
            Err(c) => Err(buffer_is_full(c, "add renderer")),
        }
    }

    /// Reads the latest published latency average (seconds, binary32 bits).
    pub fn estimate_latency(&self) -> u32 {
        self.latency.load(Ordering::SeqCst)
    }

    /// Atomically reads and clears the backend's broken flag.
    pub fn consume_broken(&self) -> bool {
        self.backend.consume_broken()
    }

    /// Starts (or restarts) the backend's stream.
    pub fn start(&mut self) -> Result<(), Error> {
        self.backend.start()
    }

    /// Restarts the stream when the backend has flagged itself broken,
    /// reusing the existing mixer state.
    pub fn recover_if_needed(&mut self) -> Result<(), Error> {
        if self.consume_broken() {
            self.start()
        } else {
            Ok(())
        }
    }
}

} // verus!
