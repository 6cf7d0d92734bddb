//! The phase-vocoder time-stretcher's buffer engine.
//!
//! Stretching alternates two kinds of work: a spectral resynthesis step
//! (windowed forward transform, phase randomization, inverse transform) that
//! the engine cannot perform itself, and the bookkeeping around it — feeding
//! input windows, overlap-adding each resynthesized half window with the
//! amplitude-correction envelope, draining the input, and emitting finished
//! windows. The bookkeeping lives here, verified; a driver outside the
//! engine runs the loop, handing each input window to its transform and the
//! result back to [`StretcherCore::spectral_step`].

use vstd::prelude::*;

use crate::{fp, F32_FOUR, F32_TWO, F32_ZERO};

verus! {

/// The core's state, as contracts speak of it.
pub struct StretcherView {
    pub sample_rate: u32,
    pub input: Seq<u32>,
    pub output: Seq<u32>,
    pub corrected_amp_factor: u32,
    pub amp_correction_envelope: Seq<u32>,
    pub window_len: int,
    pub half_window_len: int,
    pub samples_needed_per_window: int,
    pub sample_step_len: int,
    pub step_pos: int,
    pub done: bool,
}

/// A core state is well formed when the window is split in two equal
/// halves, the envelope covers one half, and the next overlap-add fits
/// inside the output buffer.
pub open spec fn stretcher_wf(m: StretcherView) -> bool {
    &&& m.window_len == 2 * m.half_window_len
    &&& m.half_window_len >= 1
    &&& m.samples_needed_per_window == m.window_len
    &&& m.amp_correction_envelope.len() == m.half_window_len
    &&& m.step_pos >= 0
    &&& m.step_pos + m.half_window_len <= m.output.len()
    &&& 3 * m.half_window_len <= usize::MAX
}

/// `input` padded with zero samples up to length `n`.
pub open spec fn padded(input: Seq<u32>, n: int) -> Seq<u32> {
    input + Seq::new((n - input.len()) as nat, |i: int| F32_ZERO)
}

/// The overlap-add of one resynthesized window into the output at `pos`:
/// for the first `half` cells from `pos`,
/// `(fft[i] + output[pos + i]) * envelope[i] * amp`; the rest unchanged.
pub open spec fn merge_overlap(
    output: Seq<u32>,
    fft: Seq<u32>,
    envelope: Seq<u32>,
    amp: u32,
    pos: int,
    half: int,
) -> Seq<u32> {
    Seq::new(
        output.len(),
        |i: int|
            if pos <= i < pos + half {
                fp::mul32(fp::mul32(fp::add32(fft[i - pos], output[i]), envelope[i - pos]), amp)
            } else {
                output[i]
            },
    )
}

/// Produces successive windows of time-stretched audio from one input
/// slice: the spectral steps of its driver land in `spectral_step`, and
/// every finished window leaves through `emit_window`.
pub struct StretcherCore {
    /// The input's sample rate, for the driver's reference.
    sample_rate: u32,
    input_buf: Vec<u32>,
    output_buf: Vec<u32>,
    corrected_amp_factor: u32,
    amp_correction_envelope: Vec<u32>,
    window_len: usize,
    half_window_len: usize,
    samples_needed_per_window: usize,
    sample_step_len: usize,
    step_pos: usize,
    done: bool,
}

impl View for StretcherCore {
    type V = StretcherView;

    closed spec fn view(&self) -> StretcherView {
        StretcherView {
            sample_rate: self.sample_rate,
            input: self.input_buf@,
            output: self.output_buf@,
            corrected_amp_factor: self.corrected_amp_factor,
            amp_correction_envelope: self.amp_correction_envelope@,
            window_len: self.window_len as int,
            half_window_len: self.half_window_len as int,
            samples_needed_per_window: self.samples_needed_per_window as int,
            sample_step_len: self.sample_step_len as int,
            step_pos: self.step_pos as int,
            done: self.done,
        }
    }
}

impl StretcherCore {
    /// A core over `input` with stretch factor `factor` (binary32 bits;
    /// above 1 slower, below 1 faster): the amplitude correction factor is
    /// `max(4, factor / 4)`, one spectral step consumes
    /// `trunc(window_len / (factor * 2))` input samples, and the output
    /// starts with half a window of silence for the first overlap-add.
    pub fn new(
        sample_rate: u32,
        input: Vec<u32>,
        factor: u32,
        window_len: usize,
        amp_correction_envelope: Vec<u32>,
    ) -> (r: StretcherCore)
        requires
            window_len >= 2,
            window_len % 2 == 0,
            window_len <= usize::MAX / 2,
            amp_correction_envelope@.len() == window_len as int / 2,
        ensures
            stretcher_wf(r@),
            r@ == (StretcherView {
                sample_rate,
                input: input@,
                output: Seq::new((window_len / 2) as nat, |i: int| F32_ZERO),
                corrected_amp_factor: (if fp::lt32(F32_FOUR, fp::div32(factor, F32_FOUR)) {
                    fp::div32(factor, F32_FOUR)
                } else {
                    F32_FOUR
                }),
                amp_correction_envelope: amp_correction_envelope@,
                window_len: window_len as int,
                half_window_len: window_len as int / 2,
                samples_needed_per_window: window_len as int,
                sample_step_len: fp::to_usize32(
                    fp::div32(fp::of_uint32(window_len as u64), fp::mul32(factor, F32_TWO)),
                ) as int,
                step_pos: 0,
                done: false,
            }),
    {
        let half_window_len = window_len / 2;
        let mut output_buf: Vec<u32> = Vec::new();
        while output_buf.len() < half_window_len
            invariant
                output_buf@ =~= Seq::new(output_buf.len() as nat, |i: int| F32_ZERO),
                output_buf.len() <= half_window_len,
            decreases half_window_len - output_buf.len(),
        {
            output_buf.push(F32_ZERO);
        }
        let r = StretcherCore {
            sample_rate,
            input_buf: input,
            output_buf,
            corrected_amp_factor: fp::f32_max_four(fp::f32_div(factor, F32_FOUR)),
            amp_correction_envelope,
            window_len,
            half_window_len,
            samples_needed_per_window: window_len,
            sample_step_len: fp::f32_to_usize(
                fp::f32_div(fp::f32_of_uint(window_len as u64), fp::f32_mul(factor, F32_TWO)),
            ),
            step_pos: 0,
            done: false,
        };
        proof {
            assert(r@.output =~= Seq::new((window_len / 2) as nat, |i: int| F32_ZERO));
        }
        r
    }

    /// The input's sample rate.
    pub fn sample_rate(&self) -> (r: u32)
        ensures
            r == self@.sample_rate,
    {
        self.sample_rate
    }

    /// True once the input has run dry and been zero-padded; the driver
    /// yields no further window after that.
    pub fn is_done(&self) -> (r: bool)
        ensures
            r == self@.done,
    {
        self.done
    }

    /// How many input samples one spectral step consumes.
    pub fn sample_step_len(&self) -> (r: usize)
        ensures
            r == self@.sample_step_len,
    {
        self.sample_step_len
    }

    /// True while more spectral steps are needed before a window can leave.
    pub fn needs_step(&self) -> (r: bool)
        requires
            stretcher_wf(self@),
        ensures
            r == (self@.output.len() < self@.samples_needed_per_window + self@.half_window_len),
    {
        self.output_buf.len() < self.samples_needed_per_window + self.half_window_len
    }

    /// Pads the input with zero samples up to `n` when it is shorter, and
    /// marks the stretcher done; a long enough input is left untouched.
    pub fn ensure_input_samples_available(&mut self, n: usize)
        ensures
            final(self)@ == (if old(self)@.input.len() < n {
                StretcherView { input: padded(old(self)@.input, n as int), done: true, ..old(
                    self,
                )@ }
            } else {
                old(self)@
            }),
    {
        if self.input_buf.len() < n {
            let ghost input0 = self.input_buf@;
            while self.input_buf.len() < n
                invariant
                    input0.len() <= self.input_buf@.len() <= n,
                    self.input_buf@ =~= padded(input0, self.input_buf@.len() as int),
                    self@ == (StretcherView { input: self.input_buf@, ..old(self)@ }),
                decreases n - self.input_buf.len(),
            {
                self.input_buf.push(F32_ZERO);
                proof {
                    assert(self.input_buf@ =~= padded(input0, self.input_buf@.len() as int));
                }
            }
            self.done = true;
            proof {
                assert(self@.input =~= padded(input0, n as int));
            }
        }
    }

    /// The next window of input samples for the driver's transform, padding
    /// with silence (and marking the stretcher done) when the input is
    /// shorter than one window.
    pub fn input_window(&mut self) -> (r: Vec<u32>)
        ensures
            final(self)@ == (if old(self)@.input.len() < old(self)@.window_len {
                StretcherView {
                    input: padded(old(self)@.input, old(self)@.window_len),
                    done: true,
                    ..old(self)@
                }
            } else {
                old(self)@
            }),
            r@ == final(self)@.input.take(old(self)@.window_len),
    {
        let window_len = self.window_len;
        self.ensure_input_samples_available(window_len);
        let ghost mid = self@;
        let mut r: Vec<u32> = Vec::new();
        let mut i: usize = 0;
        while i < window_len
            invariant
                i <= window_len,
                window_len as int <= self@.input.len(),
                r@ =~= self@.input.take(i as int),
                self@ == mid,
            decreases window_len - i,
        {
            let v = self.input_buf[i];
            r.push(v);
            i = i + 1;
            proof {
                assert(r@ =~= self@.input.take(i as int));
            }
        }
        r
    }

    /// Takes one resynthesized window from the driver: overlap-adds its
    /// first half into the output at the current step position with the
    /// amplitude correction, appends its second half, consumes
    /// `sample_step_len` input samples from the front, and advances the
    /// step position by half a window.
    pub fn spectral_step(&mut self, fft_result: &Vec<u32>)
        requires
            stretcher_wf(old(self)@),
            fft_result@.len() == old(self)@.window_len,
            old(self)@.sample_step_len <= old(self)@.input.len(),
        ensures
            stretcher_wf(final(self)@),
            final(self)@ == (StretcherView {
                input: old(self)@.input.skip(old(self)@.sample_step_len),
                output: merge_overlap(
                    old(self)@.output,
                    fft_result@,
                    old(self)@.amp_correction_envelope,
                    old(self)@.corrected_amp_factor,
                    old(self)@.step_pos,
                    old(self)@.half_window_len,
                ) + fft_result@.skip(old(self)@.half_window_len),
                step_pos: old(self)@.step_pos + old(self)@.half_window_len,
                ..old(self)@
            }),
    {
        let half = self.half_window_len;
        let amp = self.corrected_amp_factor;
        let pos = self.step_pos;
        let out_len0 = self.output_buf.len();
        let ghost out0 = self.output_buf@;
        proof {
            assert(out0.len() <= usize::MAX);
        }
        let mut i: usize = 0;
        while i < half
            invariant
                i <= half,
                pos + half <= self.output_buf@.len(),
                self.output_buf@.len() == out0.len(),
                out0.len() <= usize::MAX,
                half == self@.half_window_len,
                half < fft_result@.len(),
                half == self.amp_correction_envelope@.len(),
                amp == self@.corrected_amp_factor,
                pos == self@.step_pos,
                forall|k: int|
                    0 <= k < out0.len() ==> self.output_buf@[k] == (if pos <= k < pos + i {
                        fp::mul32(
                            fp::mul32(
                                fp::add32(fft_result@[k - pos], out0[k]),
                                self.amp_correction_envelope@[k - pos],
                            ),
                            amp,
                        )
                    } else {
                        out0[k]
                    }),
                self@ == (StretcherView { output: self.output_buf@, ..old(self)@ }),
            decreases half - i,
        {
            let merged = fp::f32_mul(
                fp::f32_mul(
                    fp::f32_add(fft_result[i], self.output_buf[pos + i]),
                    self.amp_correction_envelope[i],
                ),
                amp,
            );
            self.output_buf.set(pos + i, merged);
            i = i + 1;
        }
        proof {
            assert(self.output_buf@ =~= merge_overlap(
                out0,
                fft_result@,
                old(self)@.amp_correction_envelope,
                amp,
                pos as int,
                half as int,
            ));
        }
        let ghost out1 = self.output_buf@;
        let window_len = self.window_len;
        let mut i: usize = half;
        while i < window_len
            invariant
                half <= i <= window_len,
                window_len == fft_result@.len(),
                half == old(self)@.half_window_len,
                self.output_buf@ =~= out1 + fft_result@.subrange(half as int, i as int),
                self@ == (StretcherView { output: self.output_buf@, ..old(self)@ }),
            decreases window_len - i,
        {
            let v = fft_result[i];
            self.output_buf.push(v);
            i = i + 1;
            proof {
                assert(self.output_buf@ =~= out1 + fft_result@.subrange(half as int, i as int));
            }
        }
        proof {
            assert(fft_result@.subrange(half as int, window_len as int) =~= fft_result@.skip(
                half as int,
            ));
        }
        let step = self.sample_step_len;
        let input_len = self.input_buf.len();
        let mut rest: Vec<u32> = Vec::new();
        let mut i: usize = step;
        while i < input_len
            invariant
                step <= i <= input_len,
                input_len == self.input_buf@.len(),
                rest@ =~= self.input_buf@.subrange(step as int, i as int),
                self@ == (StretcherView { output: self.output_buf@, ..old(self)@ }),
            decreases input_len - i,
        {
            let v = self.input_buf[i];
            rest.push(v);
            i = i + 1;
            proof {
                assert(rest@ =~= self.input_buf@.subrange(step as int, i as int));
            }
        }
        proof {
            assert(rest@ =~= old(self)@.input.skip(step as int));
        }
        self.input_buf = rest;
        let grown_len = self.output_buf.len();
        proof {
            assert(self.step_pos + half <= grown_len);
        }
        self.step_pos = self.step_pos + half;
        proof {
            assert(final(self)@.output =~= merge_overlap(
                old(self)@.output,
                fft_result@,
                old(self)@.amp_correction_envelope,
                old(self)@.corrected_amp_factor,
                old(self)@.step_pos,
                old(self)@.half_window_len,
            ) + fft_result@.skip(old(self)@.half_window_len));
        }
    }

    /// Hands out the finished window — the first `samples_needed_per_window`
    /// output samples — and drops half a window from the output's front,
    /// leaving the fade-out tail for the next overlap-add; nothing leaves
    /// while more spectral steps are needed.
    pub fn emit_window(&mut self) -> (r: Option<Vec<u32>>)
        requires
            stretcher_wf(old(self)@),
        ensures
            stretcher_wf(final(self)@),
            ({
                let m = old(self)@;
                if m.output.len() < m.samples_needed_per_window + m.half_window_len {
                    r is None && final(self)@ == m
                } else {
                    &&& r matches Some(w) && w@ == m.output.take(m.samples_needed_per_window)
                    &&& final(self)@ == (StretcherView {
                        output: m.output.skip(m.half_window_len),
                        step_pos: 0,
                        ..m
                    })
                }
            }),
    {
        if self.output_buf.len() < self.samples_needed_per_window + self.half_window_len {
            return None;
        }
        let needed = self.samples_needed_per_window;
        let mut result: Vec<u32> = Vec::new();
        let mut i: usize = 0;
        while i < needed
            invariant
                i <= needed,
                needed as int <= self.output_buf@.len(),
                result@ =~= self.output_buf@.take(i as int),
                self@ == old(self)@,
            decreases needed - i,
        {
            let v = self.output_buf[i];
            result.push(v);
            i = i + 1;
            proof {
                assert(result@ =~= self.output_buf@.take(i as int));
            }
        }
        let half = self.half_window_len;
        let out_len = self.output_buf.len();
        let mut kept: Vec<u32> = Vec::new();
        let mut i: usize = half;
        while i < out_len
            invariant
                half <= i <= out_len,
                out_len == self.output_buf@.len(),
                kept@ =~= self.output_buf@.subrange(half as int, i as int),
                self@ == old(self)@,
            decreases out_len - i,
        {
            let v = self.output_buf[i];
            kept.push(v);
            i = i + 1;
            proof {
                assert(kept@ =~= self.output_buf@.subrange(half as int, i as int));
            }
        }
        proof {
            assert(kept@ =~= old(self)@.output.skip(half as int));
        }
        self.output_buf = kept;
        self.step_pos = 0;
        Some(result)
    }
}

} // verus!
