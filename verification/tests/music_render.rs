use sasa::{AudioClip, Frame, Music, MusicParams};

fn bits(x: f32) -> u32 {
    x.to_bits()
}

fn vals(data: &[u32]) -> Vec<f32> {
    data.iter().map(|b| f32::from_bits(*b)).collect()
}

fn frame(l: f32, r: f32) -> Frame {
    Frame(bits(l), bits(r))
}

fn square_clip() -> AudioClip {
    AudioClip::from_raw(
        vec![frame(1.0, 0.0), frame(0.0, 1.0), frame(-1.0, 0.0), frame(0.0, -1.0)],
        2,
    )
}

fn half_gain_params() -> MusicParams {
    MusicParams { amplifier: bits(0.5), ..MusicParams::default() }
}

#[test]
fn s2_stereo_render() {
    let (mut music, mut renderer) = Music::new(square_clip(), half_gain_params());
    music.play().unwrap();
    let mut data = vec![0u32; 6];
    renderer.render_stereo(2, &mut data);
    assert_eq!(vals(&data), vec![0.5, 0.0, 0.0, 0.5, -0.5, 0.0]);
}

#[test]
fn s3_seek_then_render() {
    let (mut music, mut renderer) = Music::new(square_clip(), half_gain_params());
    music.play().unwrap();
    music.seek_to(bits(1.0)).unwrap();
    let mut data = vec![0u32; 4];
    renderer.render_stereo(2, &mut data);
    assert_eq!(vals(&data), vec![-0.5, 0.0, 0.0, -0.5]);
}

#[test]
fn s4_fade_in_envelope() {
    let clip = AudioClip::from_raw(vec![frame(1.0, 1.0); 8], 4);
    let (mut music, mut renderer) = Music::new(clip, MusicParams::default());
    music.fade_in(bits(1.0)).unwrap();
    music.play().unwrap();
    let mut data = vec![0u32; 8];
    renderer.render_stereo(4, &mut data);
    assert_eq!(vals(&data), vec![0.25, 0.25, 0.5, 0.5, 0.75, 0.75, 1.0, 1.0]);
}

#[test]
fn fade_out_scales_then_pauses() {
    let clip = AudioClip::from_raw(vec![frame(1.0, 1.0); 8], 4);
    let (mut music, mut renderer) = Music::new(clip, MusicParams::default());
    music.play().unwrap();
    music.fade_out(bits(0.5)).unwrap();
    let mut data = vec![0u32; 8];
    renderer.render_stereo(4, &mut data);
    // fade_time = -round(0.5 * 4) = -2: one frame at gain 1 - 1/2, then the
    // fade completes and the renderer pauses mid-buffer.
    assert_eq!(vals(&data), vec![0.5, 0.5, 0.0, 0.0, 0.0, 0.0, 0.0, 0.0]);
    assert!(music.paused());
}

#[test]
fn p6_pause_is_idempotent() {
    let (mut music, mut renderer) = Music::new(square_clip(), half_gain_params());
    music.play().unwrap();
    let mut data = vec![0u32; 2];
    renderer.render_stereo(2, &mut data);
    music.pause().unwrap();
    music.pause().unwrap();
    let mut silent = vec![0u32; 6];
    renderer.render_stereo(2, &mut silent);
    assert_eq!(vals(&silent), vec![0.0; 6]);
    assert!(music.paused());
    music.pause().unwrap();
    let mut still = vec![0u32; 6];
    renderer.render_stereo(2, &mut still);
    assert_eq!(vals(&still), vec![0.0; 6]);
    assert!(music.paused());
}

#[test]
fn p7_position_survives_rate_change() {
    let clip = AudioClip::from_raw(vec![frame(1.0, 1.0); 32], 4);
    let (mut music, mut renderer) = Music::new(clip, MusicParams::default());
    music.play().unwrap();
    let mut data = vec![0u32; 8];
    renderer.render_stereo(4, &mut data);
    let before = f32::from_bits(music.position());
    assert_eq!(before, 1.0);
    // The next callback arrives at twice the rate with an empty buffer: the
    // index is rescaled and the published position stays within one frame.
    let mut empty: Vec<u32> = Vec::new();
    renderer.render_stereo(8, &mut empty);
    let after = f32::from_bits(music.position());
    assert!((after - before).abs() <= 1.0 / 8.0);
}

#[test]
fn looping_wraps_to_clip_head() {
    let params = MusicParams { loop_mix_time: bits(0.0), ..MusicParams::default() };
    let (mut music, mut renderer) = Music::new(square_clip(), params);
    music.play().unwrap();
    let mut data = vec![0u32; 12];
    renderer.render_stereo(2, &mut data);
    assert_eq!(
        vals(&data),
        vec![1.0, 0.0, 0.0, 1.0, -1.0, 0.0, 0.0, -1.0, 1.0, 0.0, 0.0, 1.0],
    );
}

#[test]
fn loop_cross_mix_adds_head_onto_tail() {
    let params = MusicParams { loop_mix_time: bits(1.0), ..MusicParams::default() };
    let (mut music, mut renderer) = Music::new(square_clip(), params);
    music.play().unwrap();
    let mut data = vec![0u32; 12];
    renderer.render_stereo(2, &mut data);
    // From one second in, the head of the clip is mixed onto its tail:
    // frames two and three cancel against frames zero and one; past the end
    // the source wraps to the one-second point and replays the tail.
    assert_eq!(
        vals(&data),
        vec![1.0, 0.0, 0.0, 1.0, 0.0, 0.0, 0.0, 0.0, -1.0, 0.0, 0.0, -1.0],
    );
}

#[test]
fn playback_rate_scales_position() {
    let params = MusicParams { playback_rate: bits(2.0), ..MusicParams::default() };
    let (mut music, mut renderer) = Music::new(square_clip(), params);
    music.play().unwrap();
    let mut data = vec![0u32; 4];
    renderer.render_stereo(2, &mut data);
    // One second per output frame: every second clip frame plays.
    assert_eq!(vals(&data), vec![1.0, 0.0, -1.0, 0.0]);
}

#[test]
fn low_pass_smooths_output() {
    let clip = AudioClip::from_raw(vec![frame(1.0, 1.0); 8], 4);
    let (mut music, mut renderer) = Music::new(clip, MusicParams::default());
    music.play().unwrap();
    music.set_low_pass(bits(0.5)).unwrap();
    let mut data = vec![0u32; 4];
    renderer.render_stereo(4, &mut data);
    // One-pole filter from a zero state: 0.5, then 0.5 * 0.5 + 1 * 0.5.
    assert_eq!(vals(&data), vec![0.5, 0.5, 0.75, 0.75]);
}

#[test]
fn amplifier_command_rescales() {
    let (mut music, mut renderer) = Music::new(square_clip(), MusicParams::default());
    music.play().unwrap();
    music.set_amplifier(bits(2.0)).unwrap();
    let mut data = vec![0u32; 2];
    renderer.render_stereo(2, &mut data);
    assert_eq!(vals(&data), vec![2.0, 0.0]);
}

#[test]
fn saturated_command_queue_reports_context() {
    let params = MusicParams { command_buffer_size: 1, ..MusicParams::default() };
    let (mut music, _renderer) = Music::new(square_clip(), params);
    assert!(music.play().is_ok());
    let err = music.pause().unwrap_err();
    assert!(err.is_buffer_full());
    assert_eq!(err.context(), "pause");
    let err = music.seek_to(bits(1.0)).unwrap_err();
    assert_eq!(err.context(), "seek to");
    let err = music.set_low_pass(bits(0.5)).unwrap_err();
    assert_eq!(err.context(), "set low pass");
    let err = music.fade_in(bits(1.0)).unwrap_err();
    assert_eq!(err.context(), "fade in");
    let err = music.fade_out(bits(1.0)).unwrap_err();
    assert_eq!(err.context(), "fade out");
    let err = music.set_amplifier(bits(1.0)).unwrap_err();
    assert_eq!(err.context(), "set amplifier");
    let err = music.play().unwrap_err();
    assert_eq!(err.context(), "play music");
}
