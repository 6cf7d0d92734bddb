//! The music renderer and its application-thread handle.
//!
//! One `MusicRenderer` plays a single long-running clip: it supports pause
//! and resume, seeking, playback-rate scaling, looping with head/tail
//! cross-mixing, amplitude and fade envelopes, and a one-pole low-pass
//! filter. The paired `Music` handle posts commands over a bounded
//! single-producer single-consumer queue; the renderer drains them at the
//! start of every callback.
//!
//! Every step of the renderer is mirrored by a spec function over
//! [`MusicView`], its scalar state, and each callback's exact effect is
//! stated in terms of those mirrors.

use vstd::prelude::*;

use core::sync::atomic::{AtomicBool, AtomicU32, Ordering};
use std::sync::Arc;

use crate::clip::{clip_length, clip_sample, AudioClip, ClipView};
use crate::spsc::{spsc_channel, SpscConsumer, SpscProducer};
use crate::weak::{downgrade, WeakRef};
use crate::{buffer_is_full, fp, frame_gain, frame_plus, Error, Frame};
use crate::{F32_NEG_ONE, F32_ONE, F32_ZERO, F64_ONE};

verus! {

/// Configuration of a music source.
#[derive(Clone, Copy, Debug)]
pub struct MusicParams {
    /// Bits of the cross-mix time in seconds; a negative value means the
    /// source does not loop.
    pub loop_mix_time: u32,
    /// Bits of the linear gain multiplier.
    pub amplifier: u32,
    /// Bits of the playback-rate scale (1.0 plays at the clip's own speed).
    pub playback_rate: u32,
    /// Capacity of the handle's command queue.
    pub command_buffer_size: usize,
}

impl Default for MusicParams {
    /// Non-looping, unit gain, the clip's own speed, 16 queued commands.
    fn default() -> (r: Self)
        ensures
            r == (MusicParams {
                loop_mix_time: F32_NEG_ONE,
                amplifier: F32_ONE,
                playback_rate: F32_ONE,
                command_buffer_size: 16,
            }),
    {
        MusicParams {
            loop_mix_time: F32_NEG_ONE,
            amplifier: F32_ONE,
            playback_rate: F32_ONE,
            command_buffer_size: 16,
        }
    }
}

/// A control command posted by the handle; every time or gain argument is
/// the bit pattern of a binary32 value.
#[derive(Clone, Copy, Debug)]
pub enum MusicCommand {
    Pause,
    Resume,
    SetAmplifier(u32),
    SeekTo(u32),
    SetLowPass(u32),
    FadeIn(u32),
    FadeOut(u32),
}

/// State shared between the handle and the renderer: the playing position in
/// seconds (binary32 bits) and the paused flag.
pub struct SharedMusicState {
    pub position: AtomicU32,
    pub paused: AtomicBool,
}

/// The renderer's scalar state, as contracts speak of it.
pub struct MusicView {
    pub clip: ClipView,
    pub loop_mix_time: u32,
    pub amplifier: u32,
    pub playback_rate: u32,
    pub paused: bool,
    pub index: usize,
    pub last_sample_rate: u32,
    pub low_pass: u32,
    pub last_output: Frame,
    pub fade_time: i32,
    pub fade_current: i32,
}

/// `i + 1`, stopping at the type's ceiling instead of overflowing.
pub open spec fn sat_inc_usize(i: usize) -> usize {
    if i == usize::MAX {
        i
    } else {
        (i + 1) as usize
    }
}

/// `i + 1`, stopping at the type's ceiling instead of overflowing.
pub open spec fn sat_inc_i32(i: i32) -> i32 {
    if i == i32::MAX {
        i
    } else {
        (i + 1) as i32
    }
}

/// `i - 1`, stopping at the type's floor instead of overflowing.
pub open spec fn sat_dec_i32(i: i32) -> i32 {
    if i == i32::MIN {
        i
    } else {
        (i - 1) as i32
    }
}

/// Sample-rate adaptation: when the callback rate differs from the one last
/// seen, the frame index and both fade counters are rescaled by the ratio of
/// the rates, so the musical position is preserved.
pub open spec fn rescale(m: MusicView, sample_rate: u32) -> MusicView {
    if m.last_sample_rate != sample_rate {
        let factor = fp::div32(
            fp::of_uint32(sample_rate as u64),
            fp::of_uint32(m.last_sample_rate as u64),
        );
        MusicView {
            index: fp::to_usize32(fp::round32(fp::mul32(fp::of_uint32(m.index as u64), factor))),
            last_sample_rate: sample_rate,
            fade_time: fp::to_i32_32(
                fp::round32(fp::mul32(fp::of_int32(m.fade_time as i64), factor)),
            ),
            fade_current: fp::to_i32_32(
                fp::round32(fp::mul32(fp::of_int32(m.fade_current as i64), factor)),
            ),
            ..m
        }
    } else {
        m
    }
}

/// What one command does to the renderer state at callback rate
/// `sample_rate`: pause and resume flip the paused flag, a seek re-places
/// the frame index at `round(position * rate / playback_rate)`, a fade-in
/// unpauses and arms a positive fade counter of `round(time * rate)` frames,
/// a fade-out arms a negative one.
pub open spec fn apply_command(m: MusicView, cmd: MusicCommand, sample_rate: u32) -> MusicView {
    match cmd {
        MusicCommand::Pause => MusicView { paused: true, ..m },
        MusicCommand::Resume => MusicView { paused: false, ..m },
        MusicCommand::SetAmplifier(amp) => MusicView { amplifier: amp, ..m },
        MusicCommand::SeekTo(position) => MusicView {
            index: fp::to_usize32(
                fp::round32(
                    fp::div32(
                        fp::mul32(position, fp::of_uint32(sample_rate as u64)),
                        m.playback_rate,
                    ),
                ),
            ),
            ..m
        },
        MusicCommand::SetLowPass(low_pass) => MusicView { low_pass, ..m },
        MusicCommand::FadeIn(time) => MusicView {
            paused: false,
            fade_time: fp::to_i32_32(
                fp::round32(fp::mul32(time, fp::of_uint32(sample_rate as u64))),
            ),
            fade_current: 0,
            ..m
        },
        MusicCommand::FadeOut(time) => MusicView {
            fade_time: fp::to_i32_32(
                fp::round32(fp::mul32(fp::neg32(time), fp::of_uint32(sample_rate as u64))),
            ),
            fade_current: 0,
            ..m
        },
    }
}

/// The commands of `cmds` applied in order.
pub open spec fn apply_commands(m: MusicView, cmds: Seq<MusicCommand>, sample_rate: u32) -> MusicView
    decreases cmds.len(),
{
    if cmds.len() == 0 {
        m
    } else {
        apply_commands(apply_command(m, cmds[0], sample_rate), cmds.skip(1), sample_rate)
    }
}

pub proof fn lemma_apply_commands_snoc(
    m: MusicView,
    cmds: Seq<MusicCommand>,
    c: MusicCommand,
    sample_rate: u32,
)
    ensures
        apply_commands(m, cmds.push(c), sample_rate) == apply_command(
            apply_commands(m, cmds, sample_rate),
            c,
            sample_rate,
        ),
    decreases cmds.len(),
{
    let snoc = cmds.push(c);
    assert(snoc.len() == cmds.len() + 1);
    assert(apply_commands(m, snoc, sample_rate) == apply_commands(
        apply_command(m, snoc[0], sample_rate),
        snoc.skip(1),
        sample_rate,
    ));
    if cmds.len() == 0 {
        assert(snoc[0] == c);
        assert(snoc.skip(1) =~= Seq::<MusicCommand>::empty());
    } else {
        assert(snoc[0] == cmds[0]);
        lemma_apply_commands_snoc(
            apply_command(m, cmds[0], sample_rate),
            cmds.skip(1),
            c,
            sample_rate,
        );
        assert(snoc.skip(1) =~= cmds.skip(1).push(c));
        assert(apply_commands(m, cmds, sample_rate) == apply_commands(
            apply_command(m, cmds[0], sample_rate),
            cmds.skip(1),
            sample_rate,
        ));
    }
}

/// Pausing is idempotent: one `Pause` leaves the renderer paused, and a
/// second `Pause` changes nothing further.
pub proof fn lemma_pause_idempotent(m: MusicView, sample_rate: u32)
    ensures
        apply_command(m, MusicCommand::Pause, sample_rate).paused,
        apply_command(
            apply_command(m, MusicCommand::Pause, sample_rate),
            MusicCommand::Pause,
            sample_rate,
        ) == apply_command(m, MusicCommand::Pause, sample_rate),
{
}

/// What one output frame does to the state, and what it emits.
///
/// With a frame at `position`: the loop cross-mix adds the sample from
/// `position + loop_mix_time - length` once that point is reached, the index
/// advances, and the fade envelope scales the amplifier — a completed
/// fade-out pauses the renderer and emits nothing. With no frame at
/// `position`: a looping source wraps to `position - length +
/// loop_mix_time`, re-places its index there and emits that sample amplified
/// (silence if even the wrapped point is exhausted); a non-looping source
/// pauses and emits nothing.
pub open spec fn music_frame(m: MusicView, position: u32, delta: u32) -> (MusicView, Option<
    Frame,
>) {
    match clip_sample(m.clip, position) {
        Some(frame0) => {
            let frame = if fp::le32(F32_ZERO, m.loop_mix_time) {
                let pos = fp::sub32(fp::add32(position, m.loop_mix_time), clip_length(m.clip));
                if fp::le32(F32_ZERO, pos) {
                    match clip_sample(m.clip, pos) {
                        Some(new_frame) => frame_plus(frame0, new_frame),
                        None => frame0,
                    }
                } else {
                    frame0
                }
            } else {
                frame0
            };
            let m1 = MusicView { index: sat_inc_usize(m.index), ..m };
            if m1.fade_time != 0 {
                if m1.fade_time > 0 {
                    let fc = sat_inc_i32(m1.fade_current);
                    if fc >= m1.fade_time {
                        (
                            MusicView { fade_current: fc, fade_time: 0, ..m1 },
                            Some(frame_gain(frame, m1.amplifier)),
                        )
                    } else {
                        let amp = fp::mul32(
                            m1.amplifier,
                            fp::div32(fp::of_int32(fc as i64), fp::of_int32(m1.fade_time as i64)),
                        );
                        (MusicView { fade_current: fc, ..m1 }, Some(frame_gain(frame, amp)))
                    }
                } else {
                    let fc = sat_dec_i32(m1.fade_current);
                    if fc <= m1.fade_time {
                        (MusicView { fade_current: fc, fade_time: 0, paused: true, ..m1 }, None)
                    } else {
                        let amp = fp::mul32(
                            m1.amplifier,
                            fp::sub32(
                                F32_ONE,
                                fp::div32(
                                    fp::of_int32(fc as i64),
                                    fp::of_int32(m1.fade_time as i64),
                                ),
                            ),
                        );
                        (MusicView { fade_current: fc, ..m1 }, Some(frame_gain(frame, amp)))
                    }
                }
            } else {
                (m1, Some(frame_gain(frame, m1.amplifier)))
            }
        },
        None => {
            if fp::le32(F32_ZERO, m.loop_mix_time) {
                let position2 = fp::add32(fp::sub32(position, clip_length(m.clip)), m.loop_mix_time);
                let m1 = MusicView {
                    index: fp::to_usize32(fp::round32(fp::div32(position2, delta))),
                    ..m
                };
                let out = match clip_sample(m.clip, position2) {
                    Some(f) => frame_gain(f, m.amplifier),
                    None => Frame(F32_ZERO, F32_ZERO),
                };
                (m1, Some(out))
            } else {
                (MusicView { paused: true, ..m }, None)
            }
        },
    }
}

/// The one-pole low-pass filter: the emitted frame is
/// `last_output * k + frame * (1 - k)` per channel, and becomes the new
/// `last_output`.
pub open spec fn lowpass(m: MusicView, frame: Frame) -> (MusicView, Frame) {
    let out = frame_plus(
        frame_gain(m.last_output, m.low_pass),
        frame_gain(frame, fp::sub32(F32_ONE, m.low_pass)),
    );
    (MusicView { last_output: out, ..m }, out)
}

/// Seconds advanced per output frame, as a binary64 value:
/// `1 / sample_rate * playback_rate`.
pub open spec fn music_delta64(m: MusicView, sample_rate: u32) -> u64 {
    fp::mul64(fp::div64(F64_ONE, fp::of_uint64(sample_rate as u64)), fp::widen64(m.playback_rate))
}

/// Where rendering starts, in seconds as a binary64 value: `index * delta`.
pub open spec fn music_pos0(m: MusicView, sample_rate: u32) -> u64 {
    fp::mul64(fp::of_uint64(m.index as u64), music_delta64(m, sample_rate))
}

/// Renders output frames `j..` of a mono buffer: each frame is produced by
/// [`music_frame`], passed through the low-pass filter, mixed down to one
/// channel and added into its cell; rendering stops at the buffer's end or
/// as soon as a frame yields nothing.
pub open spec fn music_render_mono(
    m: MusicView,
    pos: u64,
    delta64: u64,
    delta32: u32,
    data: Seq<u32>,
    j: int,
) -> (MusicView, Seq<u32>)
    decreases data.len() - j,
{
    if j < 0 || j >= data.len() {
        (m, data)
    } else {
        let stepped = music_frame(m, fp::narrow32(pos), delta32);
        match stepped.1 {
            None => (stepped.0, data),
            Some(frame) => {
                let filtered = lowpass(stepped.0, frame);
                let data2 = data.update(j, fp::add32(data[j], crate::frame_avg(filtered.1)));
                music_render_mono(
                    filtered.0,
                    fp::add64(pos, delta64),
                    delta64,
                    delta32,
                    data2,
                    j + 1,
                )
            },
        }
    }
}

/// Renders output frames `j..` of an interleaved stereo buffer, as
/// [`music_render_mono`] does, adding the filtered frame's channels into
/// cells `2j` and `2j + 1`.
pub open spec fn music_render_stereo(
    m: MusicView,
    pos: u64,
    delta64: u64,
    delta32: u32,
    data: Seq<u32>,
    j: int,
) -> (MusicView, Seq<u32>)
    decreases data.len() / 2 - j,
{
    if j < 0 || j >= data.len() / 2 {
        (m, data)
    } else {
        let stepped = music_frame(m, fp::narrow32(pos), delta32);
        match stepped.1 {
            None => (stepped.0, data),
            Some(frame) => {
                let filtered = lowpass(stepped.0, frame);
                let data2 = data.update(2 * j, fp::add32(data[2 * j], filtered.1.0)).update(
                    2 * j + 1,
                    fp::add32(data[2 * j + 1], filtered.1.1),
                );
                music_render_stereo(
                    filtered.0,
                    fp::add64(pos, delta64),
                    delta64,
                    delta32,
                    data2,
                    j + 1,
                )
            },
        }
    }
}

/// Renders one clip as a long-running source.
pub struct MusicRenderer {
    clip: AudioClip,
    settings: MusicParams,
    state: WeakRef<SharedMusicState>,
    cons: SpscConsumer<MusicCommand>,
    paused: bool,
    index: usize,
    last_sample_rate: u32,
    low_pass: u32,
    last_output: Frame,
    fade_time: i32,
    fade_current: i32,
}

impl View for MusicRenderer {
    type V = MusicView;

    closed spec fn view(&self) -> MusicView {
        MusicView {
            clip: self.clip@,
            loop_mix_time: self.settings.loop_mix_time,
            amplifier: self.settings.amplifier,
            playback_rate: self.settings.playback_rate,
            paused: self.paused,
            index: self.index,
            last_sample_rate: self.last_sample_rate,
            low_pass: self.low_pass,
            last_output: self.last_output,
            fade_time: self.fade_time,
            fade_current: self.fade_current,
        }
    }
}

impl MusicRenderer {
    /// Mirrors the local paused flag into the shared state, so the handle's
    /// `paused()` observes it.
    fn publish_paused(&self, value: bool) {
        if let Some(state) = self.state.upgrade() {
            state.paused.store(value, Ordering::SeqCst);
        }
    }

    /// Adapts to the callback's sample rate and drains pending commands;
    /// returns (as ghost data) the commands that were applied, in order.
    pub(crate) fn prepare(&mut self, sample_rate: u32) -> (cmds: Ghost<Seq<MusicCommand>>)
        ensures
            final(self)@ == apply_commands(rescale(old(self)@, sample_rate), cmds@, sample_rate),
    {
        if self.last_sample_rate != sample_rate {
            let factor = fp::f32_div(
                fp::f32_of_uint(sample_rate as u64),
                fp::f32_of_uint(self.last_sample_rate as u64),
            );
            self.index = fp::f32_to_usize(
                fp::f32_round(fp::f32_mul(fp::f32_of_uint(self.index as u64), factor)),
            );
            self.last_sample_rate = sample_rate;
            self.fade_time = fp::f32_to_i32(
                fp::f32_round(fp::f32_mul(fp::f32_of_int(self.fade_time as i64), factor)),
            );
            self.fade_current = fp::f32_to_i32(
                fp::f32_round(fp::f32_mul(fp::f32_of_int(self.fade_current as i64), factor)),
            );
        }
        let ghost m0 = self@;
        let ghost mut cmds: Seq<MusicCommand> = Seq::empty();
        proof {
            assert(m0 == rescale(old(self)@, sample_rate));
        }
        let budget = self.cons.len();
        let mut i: usize = 0;
        while i < budget
            invariant
                self@ == apply_commands(m0, cmds, sample_rate),
            decreases budget - i,
        {
            let ghost before = self@;
            match self.cons.pop() {
                None => {
                    break ;
                },
                Some(cmd) => {
                    match cmd {
                        MusicCommand::Pause => {
                            self.paused = true;
                            self.publish_paused(true);
                        },
                        MusicCommand::Resume => {
                            self.paused = false;
                            self.publish_paused(false);
                        },
                        MusicCommand::SetAmplifier(amp) => {
                            self.settings.amplifier = amp;
                        },
                        MusicCommand::SeekTo(position) => {
                            self.index = fp::f32_to_usize(
                                fp::f32_round(
                                    fp::f32_div(
                                        fp::f32_mul(position, fp::f32_of_uint(sample_rate as u64)),
                                        self.settings.playback_rate,
                                    ),
                                ),
                            );
                        },
                        MusicCommand::SetLowPass(low_pass) => {
                            self.low_pass = low_pass;
                        },
                        MusicCommand::FadeIn(time) => {
                            if self.paused {
                                self.paused = false;
                                self.publish_paused(false);
                            }
                            self.fade_time = fp::f32_to_i32(
                                fp::f32_round(
                                    fp::f32_mul(time, fp::f32_of_uint(sample_rate as u64)),
                                ),
                            );
                            self.fade_current = 0;
                        },
                        MusicCommand::FadeOut(time) => {
                            self.fade_time = fp::f32_to_i32(
                                fp::f32_round(
                                    fp::f32_mul(
                                        fp::f32_neg(time),
                                        fp::f32_of_uint(sample_rate as u64),
                                    ),
                                ),
                            );
                            self.fade_current = 0;
                        },
                    }
                    proof {
                        assert(self@ == apply_command(before, cmd, sample_rate));
                        lemma_apply_commands_snoc(m0, cmds, cmd, sample_rate);
                        cmds = cmds.push(cmd);
                    }
                },
            }
            i = i + 1;
        }
        Ghost(cmds)
    }

    /// Produces one output frame at `position`, exactly as [`music_frame`]
    /// says, publishing the paused flag when a fade-out completes or a
    /// non-looping clip is exhausted.
    pub(crate) fn frame(&mut self, position: u32, delta: u32) -> (r: Option<Frame>)
        ensures
            final(self)@ == music_frame(old(self)@, position, delta).0,
            r == music_frame(old(self)@, position, delta).1,
    {
        let loop_mix_time = self.settings.loop_mix_time;
        if let Some(frame0) = self.clip.sample(position) {
            let mut frame = frame0;
            if fp::f32_le(F32_ZERO, loop_mix_time) {
                let pos = fp::f32_sub(fp::f32_add(position, loop_mix_time), self.clip.length());
                if fp::f32_le(F32_ZERO, pos) {
                    if let Some(new_frame) = self.clip.sample(pos) {
                        frame = frame.plus(&new_frame);
                    }
                }
            }
            self.index = if self.index == usize::MAX {
                usize::MAX
            } else {
                self.index + 1
            };
            let mut amp = self.settings.amplifier;
            if self.fade_time != 0 {
                if self.fade_time > 0 {
                    self.fade_current = if self.fade_current == i32::MAX {
                        i32::MAX
                    } else {
                        self.fade_current + 1
                    };
                    if self.fade_current >= self.fade_time {
                        self.fade_time = 0;
                    } else {
                        amp = fp::f32_mul(
                            amp,
                            fp::f32_div(
                                fp::f32_of_int(self.fade_current as i64),
                                fp::f32_of_int(self.fade_time as i64),
                            ),
                        );
                    }
                } else {
                    self.fade_current = if self.fade_current == i32::MIN {
                        i32::MIN
                    } else {
                        self.fade_current - 1
                    };
                    if self.fade_current <= self.fade_time {
                        self.fade_time = 0;
                        self.paused = true;
                        self.publish_paused(true);
                        return None;
                    } else {
                        amp = fp::f32_mul(
                            amp,
                            fp::f32_sub(
                                F32_ONE,
                                fp::f32_div(
                                    fp::f32_of_int(self.fade_current as i64),
                                    fp::f32_of_int(self.fade_time as i64),
                                ),
                            ),
                        );
                    }
                }
            }
            Some(frame.gain(amp))
        } else if fp::f32_le(F32_ZERO, loop_mix_time) {
            let position2 = fp::f32_add(fp::f32_sub(position, self.clip.length()), loop_mix_time);
            self.index = fp::f32_to_usize(fp::f32_round(fp::f32_div(position2, delta)));
            Some(
                match self.clip.sample(position2) {
                    Some(f) => f.gain(self.settings.amplifier),
                    None => Frame(F32_ZERO, F32_ZERO),
                },
            )
        } else {
            self.paused = true;
            self.publish_paused(true);
            None
        }
    }

    /// Applies the one-pole low-pass filter and returns the filtered frame.
    pub(crate) fn update_and_get(&mut self, frame: Frame) -> (r: Frame)
        ensures
            final(self)@ == lowpass(old(self)@, frame).0,
            r == lowpass(old(self)@, frame).1,
    {
        let k = self.low_pass;
        self.last_output = self.last_output.gain(k).plus(&frame.gain(fp::f32_sub(F32_ONE, k)));
        self.last_output
    }

    /// True while the application still holds the paired `Music` handle;
    /// the mixer prunes this renderer once it turns false.
    pub fn alive(&self) -> (r: bool) {
        self.state.strong_count() != 0
    }

    /// One callback on a mono buffer: adapts to the sample rate, applies the
    /// drained commands (returned as ghost data), and — unless left paused —
    /// adds its output into the buffer exactly as [`music_render_mono`]
    /// says, then publishes the new position.
    pub fn render_mono(&mut self, sample_rate: u32, data: &mut Vec<u32>) -> (cmds: Ghost<
        Seq<MusicCommand>,
    >)
        ensures
            ({
                let p = apply_commands(rescale(old(self)@, sample_rate), cmds@, sample_rate);
                if p.paused {
                    final(self)@ == p && final(data)@ == old(data)@
                } else {
                    let d64 = music_delta64(p, sample_rate);
                    let r = music_render_mono(
                        p,
                        music_pos0(p, sample_rate),
                        d64,
                        fp::narrow32(d64),
                        old(data)@,
                        0,
                    );
                    final(self)@ == r.0 && final(data)@ == r.1
                }
            }),
    {
        let cmds = self.prepare(sample_rate);
        if !self.paused {
            let delta64 = fp::f64_mul(
                fp::f64_div(F64_ONE, fp::f64_of_uint(sample_rate as u64)),
                fp::f32_widen(self.settings.playback_rate),
            );
            let delta32 = fp::f64_narrow(delta64);
            let mut pos: u64 = fp::f64_mul(fp::f64_of_uint(self.index as u64), delta64);
            let ghost p = self@;
            let ghost pos0 = pos;
            let ghost data0 = data@;
            let n = data.len();
            let mut j: usize = 0;
            let mut stopped = false;
            while j < n && !stopped
                invariant
                    j <= n,
                    n == data@.len(),
                    n == data0.len(),
                    delta64 == music_delta64(p, sample_rate),
                    delta32 == fp::narrow32(delta64),
                    !stopped ==> music_render_mono(p, pos0, delta64, delta32, data0, 0)
                        == music_render_mono(self@, pos, delta64, delta32, data@, j as int),
                    stopped ==> music_render_mono(p, pos0, delta64, delta32, data0, 0) == (
                        self@,
                        data@,
                    ),
                decreases n - j, (if stopped { 0int } else { 1int }),
            {
                let ghost self_pre = self@;
                let ghost data_pre = data@;
                let ghost pos_pre = pos;
                let ghost j_pre = j as int;
                let pos32 = fp::f64_narrow(pos);
                match self.frame(pos32, delta32) {
                    Some(frame) => {
                        let filtered = self.update_and_get(frame);
                        let v = fp::f32_add(data[j], filtered.avg());
                        data.set(j, v);
                        pos = fp::f64_add(pos, delta64);
                        j = j + 1;
                        proof {
                            assert(music_render_mono(
                                self_pre,
                                pos_pre,
                                delta64,
                                delta32,
                                data_pre,
                                j_pre,
                            ) == music_render_mono(self@, pos, delta64, delta32, data@, j as int));
                        }
                    },
                    None => {
                        stopped = true;
                        proof {
                            assert(music_render_mono(
                                self_pre,
                                pos_pre,
                                delta64,
                                delta32,
                                data_pre,
                                j_pre,
                            ) == (self@, data@));
                        }
                    },
                }
            }
            if let Some(state) = self.state.upgrade() {
                state.position.store(
                    fp::f32_mul(fp::f32_of_uint(self.index as u64), delta32),
                    Ordering::SeqCst,
                );
            }
        }
        cmds
    }

    /// One callback on an interleaved stereo buffer, as [`render_mono`] but
    /// adding each filtered frame's channels into cells `2j` and `2j + 1`,
    /// exactly as [`music_render_stereo`] says.
    pub fn render_stereo(&mut self, sample_rate: u32, data: &mut Vec<u32>) -> (cmds: Ghost<
        Seq<MusicCommand>,
    >)
        ensures
            ({
                let p = apply_commands(rescale(old(self)@, sample_rate), cmds@, sample_rate);
                if p.paused {
                    final(self)@ == p && final(data)@ == old(data)@
                } else {
                    let d64 = music_delta64(p, sample_rate);
                    let r = music_render_stereo(
                        p,
                        music_pos0(p, sample_rate),
                        d64,
                        fp::narrow32(d64),
                        old(data)@,
                        0,
                    );
                    final(self)@ == r.0 && final(data)@ == r.1
                }
            }),
    {
        let cmds = self.prepare(sample_rate);
        if !self.paused {
            let delta64 = fp::f64_mul(
                fp::f64_div(F64_ONE, fp::f64_of_uint(sample_rate as u64)),
                fp::f32_widen(self.settings.playback_rate),
            );
            let delta32 = fp::f64_narrow(delta64);
            let mut pos: u64 = fp::f64_mul(fp::f64_of_uint(self.index as u64), delta64);
            let ghost p = self@;
            let ghost pos0 = pos;
            let ghost data0 = data@;
            let n = data.len() / 2;
            let mut j: usize = 0;
            let mut stopped = false;
            proof {
                assert(n == data@.len() as int / 2);
                assert(2 * n <= data@.len());
                assert(data@.len() <= usize::MAX);
            }
            while j < n && !stopped
                invariant
                    j <= n,
                    n == data@.len() as int / 2,
                    2 * n <= data@.len(),
                    data@.len() <= usize::MAX,
                    data@.len() == data0.len(),
                    delta64 == music_delta64(p, sample_rate),
                    delta32 == fp::narrow32(delta64),
                    !stopped ==> music_render_stereo(p, pos0, delta64, delta32, data0, 0)
                        == music_render_stereo(self@, pos, delta64, delta32, data@, j as int),
                    stopped ==> music_render_stereo(p, pos0, delta64, delta32, data0, 0) == (
                        self@,
                        data@,
                    ),
                decreases n - j, (if stopped { 0int } else { 1int }),
            {
                let ghost self_pre = self@;
                let ghost data_pre = data@;
                let ghost pos_pre = pos;
                let ghost j_pre = j as int;
                let pos32 = fp::f64_narrow(pos);
                match self.frame(pos32, delta32) {
                    Some(frame) => {
                        let filtered = self.update_and_get(frame);
                        proof {
                            assert(2 * j + 1 < data@.len()) by {
                                assert(j < n && n == data@.len() as int / 2);
                            }
                        }
                        let left = fp::f32_add(data[2 * j], filtered.0);
                        data.set(2 * j, left);
                        let right = fp::f32_add(data[2 * j + 1], filtered.1);
                        data.set(2 * j + 1, right);
                        pos = fp::f64_add(pos, delta64);
                        j = j + 1;
                        proof {
                            assert(music_render_stereo(
                                self_pre,
                                pos_pre,
                                delta64,
                                delta32,
                                data_pre,
                                j_pre,
                            ) == music_render_stereo(self@, pos, delta64, delta32, data@, j as int));
                        }
                    },
                    None => {
                        stopped = true;
                        proof {
                            assert(music_render_stereo(
                                self_pre,
                                pos_pre,
                                delta64,
                                delta32,
                                data_pre,
                                j_pre,
                            ) == (self@, data@));
                        }
                    },
                }
            }
            if let Some(state) = self.state.upgrade() {
                state.position.store(
                    fp::f32_mul(fp::f32_of_uint(self.index as u64), delta32),
                    Ordering::SeqCst,
                );
            }
        }
        cmds
    }
}


/// Adds the samples of `c` into `data` cell by cell starting at `at`:
/// cell `at + i` becomes `data[at + i] + c[i]`; every other cell is
/// untouched.
pub open spec fn add_into_mono(data: Seq<u32>, c: Seq<u32>, at: int) -> Seq<u32> {
    Seq::new(
        data.len(),
        |i: int|
            if at <= i < at + c.len() {
                fp::add32(data[i], c[i - at])
            } else {
                data[i]
            },
    )
}

/// Adds the frames of `c` into interleaved `data` starting at frame `at`:
/// cells `2(at + i)` and `2(at + i) + 1` take the channels of `c[i]`; every
/// other cell is untouched.
pub open spec fn add_into_stereo(data: Seq<u32>, c: Seq<Frame>, at: int) -> Seq<u32> {
    Seq::new(
        data.len(),
        |i: int|
            if 2 * at <= i < 2 * (at + c.len()) {
                if i % 2 == 0 {
                    fp::add32(data[i], c[i / 2 - at].0)
                } else {
                    fp::add32(data[i], c[i / 2 - at].1)
                }
            } else {
                data[i]
            },
    )
}

/// What a music renderer would add to the next `n` mono cells of any
/// buffer: its filtered, mixed-down frames up to the point it stops. The
/// buffer itself plays no part.
pub open spec fn music_contrib_mono(
    m: MusicView,
    pos: u64,
    delta64: u64,
    delta32: u32,
    n: int,
) -> Seq<u32>
    decreases n,
{
    if n <= 0 {
        Seq::empty()
    } else {
        let stepped = music_frame(m, fp::narrow32(pos), delta32);
        match stepped.1 {
            None => Seq::empty(),
            Some(frame) => {
                let filtered = lowpass(stepped.0, frame);
                seq![crate::frame_avg(filtered.1)] + music_contrib_mono(
                    filtered.0,
                    fp::add64(pos, delta64),
                    delta64,
                    delta32,
                    n - 1,
                )
            },
        }
    }
}

/// What a music renderer would add to the next `n` frames of any
/// interleaved stereo buffer, as [`music_contrib_mono`].
pub open spec fn music_contrib_stereo(
    m: MusicView,
    pos: u64,
    delta64: u64,
    delta32: u32,
    n: int,
) -> Seq<Frame>
    decreases n,
{
    if n <= 0 {
        Seq::empty()
    } else {
        let stepped = music_frame(m, fp::narrow32(pos), delta32);
        match stepped.1 {
            None => Seq::empty(),
            Some(frame) => {
                let filtered = lowpass(stepped.0, frame);
                seq![filtered.1] + music_contrib_stereo(
                    filtered.0,
                    fp::add64(pos, delta64),
                    delta64,
                    delta32,
                    n - 1,
                )
            },
        }
    }
}

/// Mixing is additive: a music render changes a mono buffer by exactly the
/// cell-by-cell addition of a contribution that does not depend on the
/// buffer's contents — so rendering into a mix equals adding what the
/// source would render alone.
pub proof fn lemma_music_mono_additive(
    m: MusicView,
    pos: u64,
    delta64: u64,
    delta32: u32,
    data: Seq<u32>,
    j: int,
)
    requires
        0 <= j <= data.len(),
    ensures
        music_render_mono(m, pos, delta64, delta32, data, j).1 == add_into_mono(
            data,
            music_contrib_mono(m, pos, delta64, delta32, data.len() - j),
            j,
        ),
    decreases data.len() - j,
{
    let n = data.len() - j;
    let c = music_contrib_mono(m, pos, delta64, delta32, n);
    if j == data.len() {
        assert(music_render_mono(m, pos, delta64, delta32, data, j).1 == data);
        assert(add_into_mono(data, c, j) =~= data);
    } else {
        let stepped = music_frame(m, fp::narrow32(pos), delta32);
        match stepped.1 {
            None => {
                assert(music_render_mono(m, pos, delta64, delta32, data, j).1 == data);
                assert(c == Seq::<u32>::empty());
                assert(add_into_mono(data, c, j) =~= data);
            },
            Some(frame) => {
                let filtered = lowpass(stepped.0, frame);
                let v = crate::frame_avg(filtered.1);
                let data2 = data.update(j, fp::add32(data[j], v));
                lemma_music_mono_additive(filtered.0, fp::add64(pos, delta64), delta64, delta32, data2, j + 1);
                let c2 = music_contrib_mono(
                    filtered.0,
                    fp::add64(pos, delta64),
                    delta64,
                    delta32,
                    data2.len() - (j + 1),
                );
                assert(c == seq![v] + c2);
                assert(add_into_mono(data2, c2, j + 1) =~= add_into_mono(data, c, j));
            },
        }
    }
}

/// As [`lemma_music_mono_additive`], for an interleaved stereo buffer with
/// an even number of cells.
pub proof fn lemma_music_stereo_additive(
    m: MusicView,
    pos: u64,
    delta64: u64,
    delta32: u32,
    data: Seq<u32>,
    j: int,
)
    requires
        0 <= j <= data.len() / 2,
        data.len() % 2 == 0,
    ensures
        music_render_stereo(m, pos, delta64, delta32, data, j).1 == add_into_stereo(
            data,
            music_contrib_stereo(m, pos, delta64, delta32, data.len() / 2 - j),
            j,
        ),
    decreases data.len() / 2 - j,
{
    let n = data.len() / 2 - j;
    let c = music_contrib_stereo(m, pos, delta64, delta32, n);
    if j == data.len() / 2 {
        assert(music_render_stereo(m, pos, delta64, delta32, data, j).1 == data);
        assert(add_into_stereo(data, c, j) =~= data);
    } else {
        let stepped = music_frame(m, fp::narrow32(pos), delta32);
        match stepped.1 {
            None => {
                assert(music_render_stereo(m, pos, delta64, delta32, data, j).1 == data);
                assert(c == Seq::<Frame>::empty());
                assert(add_into_stereo(data, c, j) =~= data);
            },
            Some(frame) => {
                let filtered = lowpass(stepped.0, frame);
                let data2 = data.update(2 * j, fp::add32(data[2 * j], filtered.1.0)).update(
                    2 * j + 1,
                    fp::add32(data[2 * j + 1], filtered.1.1),
                );
                lemma_music_stereo_additive(filtered.0, fp::add64(pos, delta64), delta64, delta32, data2, j + 1);
                let c2 = music_contrib_stereo(
                    filtered.0,
                    fp::add64(pos, delta64),
                    delta64,
                    delta32,
                    data2.len() / 2 - (j + 1),
                );
                assert(c == seq![filtered.1] + c2);
                assert(add_into_stereo(data2, c2, j + 1) =~= add_into_stereo(data, c, j));
            },
        }
    }
}

/// The application-thread handle to a music source. Dropping it lets the
/// mixer prune the paired renderer on its next callback.
pub struct Music {
    arc: Arc<SharedMusicState>,
    prod: SpscProducer<MusicCommand>,
}

/// The state a fresh music renderer starts in: paused at frame 0, no
/// filtering, no fade, last seen rate 1.
pub open spec fn initial_music(clip: ClipView, settings: MusicParams) -> MusicView {
    MusicView {
        clip,
        loop_mix_time: settings.loop_mix_time,
        amplifier: settings.amplifier,
        playback_rate: settings.playback_rate,
        paused: true,
        index: 0,
        last_sample_rate: 1,
        low_pass: F32_ZERO,
        last_output: Frame(F32_ZERO, F32_ZERO),
        fade_time: 0,
        fade_current: 0,
    }
}

impl Music {
    /// A paired handle and renderer over `clip`; the renderer starts paused
    /// at the beginning of the clip.
    pub fn new(clip: AudioClip, settings: MusicParams) -> (r: (Music, MusicRenderer))
        requires
            settings.command_buffer_size >= 1,
        ensures
            r.1@ == initial_music(clip@, settings),
    {
        let (prod, cons) = spsc_channel(settings.command_buffer_size);
        let arc = Arc::new(
            SharedMusicState { position: AtomicU32::new(0), paused: AtomicBool::new(true) },
        );
        let renderer = MusicRenderer {
            clip,
            settings,
            state: downgrade(&arc),
            cons,
            paused: true,
            index: 0,
            last_sample_rate: 1,
            low_pass: F32_ZERO,
            last_output: Frame(F32_ZERO, F32_ZERO),
            fade_time: 0,
            fade_current: 0,
        };
        (Music { arc, prod }, renderer)
    }

    /// Posts `Resume`; fails with `BufferFull` when the queue is saturated.
    pub fn play(&mut self) -> (r: Result<(), Error>)
        ensures
            r matches Err(e) ==> e == Error::BufferFull("play music"),
    {
        match self.prod.push(MusicCommand::Resume) {
            Ok(()) => Ok(()),
            Err(c) => Err(buffer_is_full(c, "play music")),
        }
    }

    /// Posts `Pause`; fails with `BufferFull` when the queue is saturated.
    pub fn pause(&mut self) -> (r: Result<(), Error>)
        ensures
            r matches Err(e) ==> e == Error::BufferFull("pause"),
    {
        match self.prod.push(MusicCommand::Pause) {
            Ok(()) => Ok(()),
            Err(c) => Err(buffer_is_full(c, "pause")),
        }
    }

    /// Reads the paused flag the renderer last published.
    pub fn paused(&mut self) -> bool {
        self.arc.paused.load(Ordering::SeqCst)
    }

    /// Posts `SetAmplifier`; fails with `BufferFull` when the queue is
    /// saturated.
    pub fn set_amplifier(&mut self, amp: u32) -> (r: Result<(), Error>)
        ensures
            r matches Err(e) ==> e == Error::BufferFull("set amplifier"),
    {
        match self.prod.push(MusicCommand::SetAmplifier(amp)) {
            Ok(()) => Ok(()),
            Err(c) => Err(buffer_is_full(c, "set amplifier")),
        }
    }

    /// Posts `SeekTo` (seconds, binary32 bits); fails with `BufferFull` when
    /// the queue is saturated.
    pub fn seek_to(&mut self, position: u32) -> (r: Result<(), Error>)
        ensures
            r matches Err(e) ==> e == Error::BufferFull("seek to"),
    {
        match self.prod.push(MusicCommand::SeekTo(position)) {
            Ok(()) => Ok(()),
            Err(c) => Err(buffer_is_full(c, "seek to")),
        }
    }

    /// Posts `SetLowPass` (coefficient in [0, 1], binary32 bits); fails with
    /// `BufferFull` when the queue is saturated.
    pub fn set_low_pass(&mut self, low_pass: u32) -> (r: Result<(), Error>)
        ensures
            r matches Err(e) ==> e == Error::BufferFull("set low pass"),
    {
        match self.prod.push(MusicCommand::SetLowPass(low_pass)) {
            Ok(()) => Ok(()),
            Err(c) => Err(buffer_is_full(c, "set low pass")),
        }
    }

    /// Posts `FadeIn` (seconds, binary32 bits); fails with `BufferFull` when
    /// the queue is saturated.
    pub fn fade_in(&mut self, time: u32) -> (r: Result<(), Error>)
        ensures
            r matches Err(e) ==> e == Error::BufferFull("fade in"),
    {
        match self.prod.push(MusicCommand::FadeIn(time)) {
            Ok(()) => Ok(()),
            Err(c) => Err(buffer_is_full(c, "fade in")),
        }
    }

    /// Posts `FadeOut` (seconds, binary32 bits); fails with `BufferFull`
    /// when the queue is saturated.
    pub fn fade_out(&mut self, time: u32) -> (r: Result<(), Error>)
        ensures
            r matches Err(e) ==> e == Error::BufferFull("fade out"),
    {
        match self.prod.push(MusicCommand::FadeOut(time)) {
            Ok(()) => Ok(()),
            Err(c) => Err(buffer_is_full(c, "fade out")),
        }
    }

    /// Reads the position (seconds, binary32 bits) the renderer last
    /// published.
    pub fn position(&self) -> u32 {
        self.arc.position.load(Ordering::SeqCst)
    }
}

} // verus!
