use std::sync::atomic::{AtomicU32, Ordering};
use std::sync::Arc;

use sasa::LatencyRecorder;

fn published(result: &Arc<AtomicU32>) -> f32 {
    f32::from_bits(result.load(Ordering::SeqCst))
}

#[test]
fn s5_three_pushes_average() {
    let result = Arc::new(AtomicU32::new(0));
    let mut rec = LatencyRecorder::new(Arc::clone(&result));
    rec.push(0.01f32.to_bits());
    rec.push(0.02f32.to_bits());
    rec.push(0.03f32.to_bits());
    // The recorder accumulates its sum one push at a time.
    let expected = ((0.01f32 + 0.02f32) + 0.03f32) / 3.0f32;
    let got = published(&result);
    assert_eq!(got.to_bits(), expected.to_bits());
    assert!((got - 0.02).abs() <= f32::EPSILON);
}

#[test]
fn average_tracks_each_push() {
    let result = Arc::new(AtomicU32::new(0));
    let mut rec = LatencyRecorder::new(Arc::clone(&result));
    rec.push(0.5f32.to_bits());
    assert_eq!(published(&result), 0.5);
    rec.push(0.25f32.to_bits());
    assert_eq!(published(&result), (0.5f32 + 0.25f32) / 2.0);
}

#[test]
fn window_keeps_latest_sixty_four() {
    let result = Arc::new(AtomicU32::new(0));
    let mut rec = LatencyRecorder::new(Arc::clone(&result));
    // Mirror the recorder arithmetic: a 64-slot ring and a running sum.
    let mut ring = [0.0f32; 64];
    let mut sum = 0.0f32;
    let mut expected = 0.0f32;
    for k in 0..70usize {
        let x = (k as f32 + 1.0) / 128.0;
        rec.push(x.to_bits());
        let slot = k % 64;
        sum += x - ring[slot];
        ring[slot] = x;
        let divisor = if k >= 63 { 64 } else { k + 1 };
        expected = sum / divisor as f32;
    }
    let got = published(&result);
    assert_eq!(got.to_bits(), expected.to_bits());
    // After 70 pushes the published value is the mean of the latest 64
    // measurements, up to accumulation error.
    let mean: f32 = (7..71).map(|k| k as f32 / 128.0).sum::<f32>() / 64.0;
    assert!((got - mean).abs() <= 1e-5);
}
