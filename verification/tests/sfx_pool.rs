use sasa::{AudioClip, Frame, PlaySfxParams, Sfx};

fn bits(x: f32) -> u32 {
    x.to_bits()
}

fn vals(data: &[u32]) -> Vec<f32> {
    data.iter().map(|b| f32::from_bits(*b)).collect()
}

fn frame(l: f32, r: f32) -> Frame {
    Frame(bits(l), bits(r))
}

#[test]
fn s6_two_voices_mono() {
    let clip = AudioClip::from_raw(vec![frame(0.5, 1.0), frame(0.25, 0.75)], 1);
    let (mut sfx, mut renderer) = Sfx::new(clip, None);
    sfx.play(PlaySfxParams::default()).unwrap();
    sfx.play(PlaySfxParams::default()).unwrap();
    let mut data = vec![0u32; 4];
    renderer.render_mono(1, &mut data);
    // avg of frame 0 is 0.75, of frame 1 is 0.5; both voices add both.
    assert_eq!(vals(&data), vec![1.5, 1.0, 0.0, 0.0]);
    // Both voices finished; once the handle drops nothing keeps the
    // renderer alive.
    assert!(renderer.alive());
    drop(sfx);
    assert!(!renderer.alive());
}

#[test]
fn p9_voices_finish_in_submission_order() {
    let clip = AudioClip::from_raw(
        vec![frame(1.0, 1.0), frame(2.0, 2.0), frame(4.0, 4.0)],
        1,
    );
    let (mut sfx, mut renderer) = Sfx::new(clip, None);
    sfx.play(PlaySfxParams::default()).unwrap();
    let mut first = vec![0u32; 2];
    renderer.render_mono(1, &mut first);
    // The first voice plays two frames and stays queued mid-clip.
    assert_eq!(vals(&first), vec![1.0, 2.0]);
    sfx.play(PlaySfxParams::default()).unwrap();
    let mut second = vec![0u32; 2];
    renderer.render_mono(1, &mut second);
    // The older voice finishes its last frame and leaves; the newer one,
    // though it started later, stays behind it with two frames played.
    assert_eq!(vals(&second), vec![4.0 + 1.0, 2.0]);
    drop(sfx);
    assert!(renderer.alive(), "an unfinished voice keeps the renderer alive");
    let mut third = vec![0u32; 2];
    renderer.render_mono(1, &mut third);
    assert_eq!(vals(&third), vec![4.0, 0.0]);
    assert!(!renderer.alive(), "all voices finished and the handle is gone");
}

#[test]
fn stereo_voice_applies_amplifier() {
    let clip = AudioClip::from_raw(vec![frame(1.0, -1.0), frame(0.5, 0.25)], 1);
    let (mut sfx, mut renderer) = Sfx::new(clip, Some(8));
    sfx.play(PlaySfxParams { amplifier: bits(2.0) }).unwrap();
    let mut data = vec![0u32; 6];
    renderer.render_stereo(1, &mut data);
    assert_eq!(vals(&data), vec![2.0, -2.0, 1.0, 0.5, 0.0, 0.0]);
}

#[test]
fn saturated_trigger_queue_reports_context() {
    let clip = AudioClip::from_raw(vec![frame(1.0, 1.0)], 1);
    let (mut sfx, _renderer) = Sfx::new(clip, Some(1));
    assert!(sfx.play(PlaySfxParams::default()).is_ok());
    let err = sfx.play(PlaySfxParams::default()).unwrap_err();
    assert!(err.is_buffer_full());
    assert_eq!(err.context(), "play sfx");
}
