use std::sync::atomic::{AtomicBool, AtomicU32, Ordering};
use std::sync::{Arc, Mutex};

use sasa::backend::BackendSetup;
use sasa::mixer::{Mixer, MixerCommand, Source};
use sasa::spsc::spsc_channel;
use sasa::{AudioClip, AudioManager, Backend, Error, Frame, Music, MusicParams, PlaySfxParams};

fn bits(x: f32) -> u32 {
    x.to_bits()
}

fn vals(data: &[u32]) -> Vec<f32> {
    data.iter().map(|b| f32::from_bits(*b)).collect()
}

fn frame(l: f32, r: f32) -> Frame {
    Frame(bits(l), bits(r))
}

fn square_clip() -> AudioClip {
    AudioClip::from_raw(
        vec![frame(1.0, 0.0), frame(0.0, 1.0), frame(-1.0, 0.0), frame(0.0, -1.0)],
        2,
    )
}

#[test]
fn p2_dropped_handle_is_pruned() {
    let (mut prod, cons) = spsc_channel(16);
    let mut mixer = Mixer::new(2, cons);
    let (mut music, renderer) = Music::new(square_clip(), MusicParams::default());
    assert!(prod.push(MixerCommand::AddSource(Source::Music(renderer))).is_ok());
    music.play().unwrap();
    let mut data = vec![0u32; 4];
    mixer.render_stereo(&mut data);
    assert_eq!(mixer.source_count(), 1);
    assert_eq!(vals(&data), vec![1.0, 0.0, 0.0, 1.0]);
    drop(music);
    let mut next = vec![0u32; 4];
    mixer.render_stereo(&mut next);
    assert_eq!(mixer.source_count(), 0, "the dead source leaves after one callback");
    mixer.render_stereo(&mut next);
    assert_eq!(vals(&next), vec![0.0; 4], "the mixer zeroes the buffer first");
}

#[test]
fn p1_mix_is_sum_of_sources_rendered_alone() {
    let make = |amp: f32| {
        let (mut music, renderer) = Music::new(
            square_clip(),
            MusicParams { amplifier: bits(amp), ..MusicParams::default() },
        );
        music.play().unwrap();
        (music, renderer)
    };

    // Both sources rendered together by one mixer.
    let (mut prod, cons) = spsc_channel(16);
    let mut mixer = Mixer::new(2, cons);
    let (_m1, r1) = make(0.5);
    let (_m2, r2) = make(0.25);
    prod.push(MixerCommand::AddSource(Source::Music(r1))).ok().unwrap();
    prod.push(MixerCommand::AddSource(Source::Music(r2))).ok().unwrap();
    let mut mixed = vec![0u32; 8];
    mixer.render_stereo(&mut mixed);

    // Each source rendered alone into a zeroed buffer.
    let render_alone = |amp: f32| {
        let (prod2, cons2) = spsc_channel(16);
        let mut solo_mixer = Mixer::new(2, cons2);
        let mut prod2 = prod2;
        let (_m, r) = make(amp);
        prod2.push(MixerCommand::AddSource(Source::Music(r))).ok().unwrap();
        let mut alone = vec![0u32; 8];
        solo_mixer.render_stereo(&mut alone);
        vals(&alone)
    };
    let alone1 = render_alone(0.5);
    let alone2 = render_alone(0.25);
    let summed: Vec<f32> = alone1.iter().zip(alone2.iter()).map(|(a, b)| a + b).collect();
    assert_eq!(vals(&mixed), summed);
}

#[test]
fn mixer_mixes_music_and_sfx_mono() {
    let (mut prod, cons) = spsc_channel(16);
    let mut mixer = Mixer::new(2, cons);
    let (mut music, renderer) = Music::new(square_clip(), MusicParams::default());
    music.play().unwrap();
    let (mut sfx, sfx_renderer) = sasa::Sfx::new(square_clip(), None);
    sfx.play(PlaySfxParams::default()).unwrap();
    prod.push(MixerCommand::AddSource(Source::Music(renderer))).ok().unwrap();
    prod.push(MixerCommand::AddSource(Source::Sfx(sfx_renderer))).ok().unwrap();
    let mut data = vec![0u32; 2];
    mixer.render_mono(&mut data);
    // At this rate both sources advance half a second per output sample,
    // so both contribute the averages of the first two frames.
    let music_part = [0.5f32, 0.5];
    let sfx_part = [0.5f32, 0.5];
    let expected: Vec<f32> = music_part.iter().zip(sfx_part.iter()).map(|(a, b)| a + b).collect();
    assert_eq!(vals(&data), expected);
    assert_eq!(mixer.source_count(), 2);
}

struct TestBackend {
    handed: Arc<Mutex<Option<BackendSetup>>>,
    broken: Arc<AtomicBool>,
    starts: Arc<AtomicU32>,
    refuse_start: bool,
}

impl Backend for TestBackend {
    fn setup(&mut self, setup: BackendSetup) -> Result<(), Error> {
        *self.handed.lock().unwrap() = Some(setup);
        Ok(())
    }

    fn start(&mut self) -> Result<(), Error> {
        if self.refuse_start {
            Err(Error::BackendStartFailure("no output device"))
        } else {
            self.starts.fetch_add(1, Ordering::SeqCst);
            Ok(())
        }
    }

    fn consume_broken(&self) -> bool {
        self.broken.swap(false, Ordering::SeqCst)
    }
}

fn test_backend() -> (TestBackend, Arc<Mutex<Option<BackendSetup>>>, Arc<AtomicBool>, Arc<AtomicU32>)
{
    let handed = Arc::new(Mutex::new(None));
    let broken = Arc::new(AtomicBool::new(false));
    let starts = Arc::new(AtomicU32::new(0));
    let backend = TestBackend {
        handed: Arc::clone(&handed),
        broken: Arc::clone(&broken),
        starts: Arc::clone(&starts),
        refuse_start: false,
    };
    (backend, handed, broken, starts)
}

#[test]
fn manager_drives_backend_end_to_end() {
    let (backend, handed, broken, starts) = test_backend();
    let mut manager = AudioManager::new(backend).unwrap();
    assert_eq!(starts.load(Ordering::SeqCst), 1);

    let mut music = manager
        .create_music(square_clip(), MusicParams { amplifier: bits(0.5), ..MusicParams::default() })
        .unwrap();
    music.play().unwrap();

    // The backend adapter side: build the mixer from the handed setup and
    // run one callback.
    let setup = handed.lock().unwrap().take().unwrap();
    let mut mixer = Mixer::new(0, setup.mixer_cons);
    let mut latency_rec = setup.latency_rec;
    mixer.set_sample_rate(2);
    let mut data = vec![0u32; 6];
    mixer.render_stereo(&mut data);
    assert_eq!(vals(&data), vec![0.5, 0.0, 0.0, 0.5, -0.5, 0.0]);
    latency_rec.push(0.25f32.to_bits());
    assert_eq!(f32::from_bits(manager.estimate_latency()), 0.25);

    // Recovery: nothing happens while the stream is healthy, one restart
    // once the backend flags itself broken.
    assert!(!manager.consume_broken());
    manager.recover_if_needed().unwrap();
    assert_eq!(starts.load(Ordering::SeqCst), 1);
    broken.store(true, Ordering::SeqCst);
    manager.recover_if_needed().unwrap();
    assert_eq!(starts.load(Ordering::SeqCst), 2);
}

#[test]
fn manager_command_queue_saturates() {
    let (backend, _handed, _, _) = test_backend();
    let mut manager = AudioManager::new(backend).unwrap();
    // The mixer command queue holds 16 sources; the seventeenth is refused
    // while no callback drains them.
    for _ in 0..16 {
        manager.create_sfx(square_clip(), None).unwrap();
    }
    let err = match manager.create_sfx(square_clip(), None) {
        Ok(_) => panic!("expected a saturated queue"),
        Err(e) => e,
    };
    assert_eq!(err, Error::BufferFull("add renderer"));
}

#[test]
fn backend_settings_defaults() {
    let cpal = sasa::backend::CpalSettings::default();
    assert_eq!(cpal.buffer_size, None);
    let ohos = sasa::backend::OhosSettings::default();
    assert_eq!(ohos.buffer_size, None);
    assert_eq!(ohos.sample_rate, None);
    assert_eq!(ohos.channels, 2);
}

#[test]
fn manager_reports_backend_start_failure() {
    let (mut backend, _, _, _) = test_backend();
    backend.refuse_start = true;
    let err = match AudioManager::new(backend) {
        Ok(_) => panic!("expected the backend to refuse"),
        Err(e) => e,
    };
    assert_eq!(err, Error::BackendStartFailure("no output device"));
    assert_eq!(err.context(), "no output device");
    assert!(!err.is_buffer_full());
}

#[test]
fn manager_creates_sfx_sources() {
    let (backend, handed, _, _) = test_backend();
    let mut manager = AudioManager::new(backend).unwrap();
    let mut sfx = manager.create_sfx(square_clip(), Some(4)).unwrap();
    sfx.play(PlaySfxParams::default()).unwrap();
    let setup = handed.lock().unwrap().take().unwrap();
    let mut mixer = Mixer::new(2, setup.mixer_cons);
    let mut data = vec![0u32; 2];
    mixer.render_mono(&mut data);
    assert_eq!(mixer.source_count(), 1);
    assert_eq!(vals(&data), vec![0.5, 0.5]);
}
