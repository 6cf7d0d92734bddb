use sasa::StretcherCore;

fn bits(x: f32) -> u32 {
    x.to_bits()
}

fn vals(data: &[u32]) -> Vec<f32> {
    data.iter().map(|b| f32::from_bits(*b)).collect()
}

fn to_bits(data: &[f32]) -> Vec<u32> {
    data.iter().map(|x| x.to_bits()).collect()
}

#[test]
fn overlap_add_and_emission() {
    let input: Vec<u32> = to_bits(&(1..=12).map(|i| i as f32).collect::<Vec<f32>>());
    let env = vec![bits(1.0); 4];
    let mut core = StretcherCore::new(44100, input, bits(2.0), 8, env);
    assert_eq!(core.sample_rate(), 44100);
    // One step consumes trunc(8 / (2 * 2)) = 2 input samples.
    assert_eq!(core.sample_step_len(), 2);
    assert!(!core.is_done());
    assert!(core.needs_step());
    assert!(core.emit_window().is_none(), "no window before enough steps");

    let window = core.input_window();
    assert_eq!(vals(&window), (1..=8).map(|i| i as f32).collect::<Vec<f32>>());
    assert!(!core.is_done());

    // The amplitude correction factor is max(4, 2 / 4) = 4: the first half
    // window is (fft + previous) * envelope * 4, the second half is appended.
    core.spectral_step(&vec![bits(10.0); 8]);
    assert!(core.needs_step());

    let second = core.input_window();
    assert_eq!(vals(&second), (3..=10).map(|i| i as f32).collect::<Vec<f32>>());
    core.spectral_step(&vec![bits(1.0); 8]);
    assert!(!core.needs_step());

    let emitted = core.emit_window().expect("two steps fill one window");
    assert_eq!(
        vals(&emitted),
        vec![40.0, 40.0, 40.0, 40.0, 44.0, 44.0, 44.0, 44.0],
    );

    // The fade-out tail stays behind for the next overlap-add.
    assert!(core.needs_step());
    let third = core.input_window();
    assert_eq!(vals(&third), (5..=12).map(|i| i as f32).collect::<Vec<f32>>());
    core.spectral_step(&vec![bits(2.0); 8]);
    // (2 + 44) * 1 * 4 = 184 on the overlap half.
    let fourth = core.input_window();
    assert_eq!(vals(&fourth), vec![7.0, 8.0, 9.0, 10.0, 11.0, 12.0, 0.0, 0.0]);
    assert!(core.is_done(), "a short input is zero-padded and ends the run");
    core.spectral_step(&vec![bits(0.0); 8]);
    let last = core.emit_window().expect("ready again after two more steps");
    assert_eq!(
        vals(&last),
        vec![184.0, 184.0, 184.0, 184.0, 4.0, 4.0, 4.0, 4.0],
    );
}

#[test]
fn amp_correction_follows_factor() {
    // factor 32: the correction factor is max(4, 32 / 4) = 8.
    let input = to_bits(&[0.0; 8]);
    let env = vec![bits(0.5); 4];
    let mut core = StretcherCore::new(8000, input, bits(32.0), 8, env);
    assert_eq!(core.sample_step_len(), 0, "a deep stretch consumes no input per step");
    let w = core.input_window();
    assert_eq!(vals(&w), vec![0.0; 8]);
    core.spectral_step(&vec![bits(3.0); 8]);
    assert!(core.needs_step());
    core.spectral_step(&vec![bits(0.0); 8]);
    let emitted = core.emit_window().unwrap();
    // (3 + 0) * 0.5 * 8 = 12 over the first half; the appended tail 3
    // merges once more with a zero window: (0 + 3) * 0.5 * 8 = 12.
    assert_eq!(vals(&emitted), vec![12.0, 12.0, 12.0, 12.0, 12.0, 12.0, 12.0, 12.0]);
}

#[test]
fn stretching_is_deterministic_given_the_same_spectra() {
    let run = || {
        let input: Vec<u32> = to_bits(&(1..=16).map(|i| i as f32 / 16.0).collect::<Vec<f32>>());
        let env: Vec<u32> = to_bits(&[0.25, 0.5, 0.75, 1.0]);
        let mut core = StretcherCore::new(22050, input, bits(1.5), 8, env);
        let mut out: Vec<f32> = Vec::new();
        let mut rounds = 0;
        while !core.is_done() && rounds < 8 {
            while core.needs_step() {
                let w = core.input_window();
                if core.is_done() {
                    break;
                }
                // A stand-in for the spectral resynthesis: any function of
                // the window produces the same stretched output both times.
                let fake: Vec<u32> =
                    w.iter().map(|b| (f32::from_bits(*b) * 0.125).to_bits()).collect();
                core.spectral_step(&fake);
            }
            if let Some(win) = core.emit_window() {
                out.extend(vals(&win));
            }
            rounds += 1;
        }
        out
    };
    let a = run();
    let b = run();
    assert_eq!(a, b);
    assert!(!a.is_empty());
}
