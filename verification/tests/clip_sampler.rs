use sasa::{AudioClip, Frame};

fn bits(x: f32) -> u32 {
    x.to_bits()
}

fn val(b: u32) -> f32 {
    f32::from_bits(b)
}

fn frame(l: f32, r: f32) -> Frame {
    Frame(bits(l), bits(r))
}

fn square_clip() -> AudioClip {
    AudioClip::from_raw(
        vec![frame(1.0, 0.0), frame(0.0, 1.0), frame(-1.0, 0.0), frame(0.0, -1.0)],
        2,
    )
}

fn assert_frame(got: Option<Frame>, l: f32, r: f32) {
    let f = got.expect("expected a frame");
    assert_eq!(val(f.0), l);
    assert_eq!(val(f.1), r);
}

#[test]
fn s1_sampler_values() {
    let clip = square_clip();
    assert_frame(clip.sample(bits(0.0)), 1.0, 0.0);
    assert_frame(clip.sample(bits(0.25)), 0.5, 0.5);
    assert_frame(clip.sample(bits(0.5)), 0.0, 1.0);
    assert!(clip.sample(bits(2.0)).is_none());
    assert_eq!(val(clip.length()), 2.0);
}

#[test]
fn sampler_hits_frames_at_integer_indices() {
    let clip = square_clip();
    let expected = [(1.0, 0.0), (0.0, 1.0), (-1.0, 0.0), (0.0, -1.0)];
    for (i, (l, r)) in expected.iter().enumerate() {
        let t = i as f32 / 2.0;
        assert_frame(clip.sample(bits(t)), *l, *r);
    }
}

#[test]
fn sampler_interpolates_midpoints() {
    let clip = square_clip();
    assert_frame(clip.sample(bits(0.75)), -0.5, 0.5);
    assert_frame(clip.sample(bits(1.25)), -0.5, -0.5);
}

#[test]
fn sampler_boundary() {
    let clip = square_clip();
    let length = val(clip.length());
    assert_eq!(length, 2.0);
    assert!(clip.sample(bits(length)).is_none());
    // The largest binary32 value below the clip's length: the final frame
    // interpolated against itself.
    let just_below = f32::from_bits(bits(length) - 1);
    assert_frame(clip.sample(bits(just_below)), 0.0, -1.0);
}

#[test]
fn clip_accessors_and_sharing() {
    let clip = square_clip();
    assert_eq!(clip.frame_count(), 4);
    assert_eq!(clip.sample_rate(), 2);
    assert_eq!(clip.frames().len(), 4);
    let other = clip.clone();
    assert_eq!(val(other.length()), 2.0);
    assert_frame(other.sample(bits(0.25)), 0.5, 0.5);
}

#[test]
fn frame_operations() {
    let a = frame(0.25, -1.5);
    let b = frame(0.5, 0.5);
    let sum = a.plus(&b);
    assert_eq!(val(sum.0), 0.75);
    assert_eq!(val(sum.1), -1.0);
    let scaled = a.gain(bits(2.0));
    assert_eq!(val(scaled.0), 0.5);
    assert_eq!(val(scaled.1), -3.0);
    assert_eq!(val(a.avg()), (0.25f32 + -1.5f32) / 2.0);
    let mid = a.interpolate(&b, bits(0.5));
    assert_eq!(val(mid.0), 0.375);
    assert_eq!(val(mid.1), -0.5);
    let silent = Frame::default();
    assert_eq!(val(silent.0), 0.0);
    assert_eq!(val(silent.1), 0.0);
}
