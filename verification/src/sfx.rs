//! The pooled one-shot sound-effect renderer and its handle.
//!
//! The `Sfx` handle posts `(position, params)` triggers onto a bounded
//! queue; the renderer keeps the active voices in submission order, advances
//! each one over the output buffer, and removes finished voices from the
//! front of the pool only — an unfinished older voice holds newer ones in
//! the pool, exactly once each.

use vstd::prelude::*;

use std::sync::Arc;

use crate::clip::{clip_sample, AudioClip, ClipView};
use crate::spsc::{spsc_channel, SpscConsumer, SpscProducer};
use crate::weak::{downgrade, WeakRef};
use crate::{buffer_is_full, fp, frame_avg, Error, F32_ONE, F32_ZERO};

verus! {

/// Per-trigger parameters.
#[derive(Clone, Copy, Debug, PartialEq, Eq, Structural)]
pub struct PlaySfxParams {
    /// Bits of the linear gain multiplier.
    pub amplifier: u32,
}

impl Default for PlaySfxParams {
    /// Unit gain.
    fn default() -> (r: Self)
        ensures
            r == (PlaySfxParams { amplifier: F32_ONE }),
    {
        PlaySfxParams { amplifier: F32_ONE }
    }
}

/// One active voice: its playing position in seconds (binary32 bits) and its
/// trigger parameters.
pub type SfxVoice = (u32, PlaySfxParams);

/// The renderer's state, as contracts speak of it: the clip and the active
/// voices in submission order.
pub struct SfxView {
    pub clip: ClipView,
    pub voices: Seq<SfxVoice>,
}

/// One voice advanced over output frames `j..` of a mono buffer: each frame
/// sampled at the voice's position is mixed down, scaled by the voice's
/// amplifier and added into its cell, and the position advances by `delta`;
/// the voice is finished when sampling runs past the clip's end.
pub open spec fn sfx_voice_mono(
    clip: ClipView,
    pos: u32,
    amp: u32,
    delta: u32,
    data: Seq<u32>,
    j: int,
) -> (u32, bool, Seq<u32>)
    decreases data.len() - j,
{
    if j < 0 || j >= data.len() {
        (pos, false, data)
    } else {
        match clip_sample(clip, pos) {
            None => (pos, true, data),
            Some(frame) => sfx_voice_mono(
                clip,
                fp::add32(pos, delta),
                amp,
                delta,
                data.update(j, fp::add32(data[j], fp::mul32(frame_avg(frame), amp))),
                j + 1,
            ),
        }
    }
}

/// One voice advanced over output frames `j..` of an interleaved stereo
/// buffer, as [`sfx_voice_mono`], adding the scaled channels into cells `2j`
/// and `2j + 1`.
pub open spec fn sfx_voice_stereo(
    clip: ClipView,
    pos: u32,
    amp: u32,
    delta: u32,
    data: Seq<u32>,
    j: int,
) -> (u32, bool, Seq<u32>)
    decreases data.len() / 2 - j,
{
    if j < 0 || j >= data.len() / 2 {
        (pos, false, data)
    } else {
        match clip_sample(clip, pos) {
            None => (pos, true, data),
            Some(frame) => sfx_voice_stereo(
                clip,
                fp::add32(pos, delta),
                amp,
                delta,
                data.update(2 * j, fp::add32(data[2 * j], fp::mul32(frame.0, amp))).update(
                    2 * j + 1,
                    fp::add32(data[2 * j + 1], fp::mul32(frame.1, amp)),
                ),
                j + 1,
            ),
        }
    }
}

/// All voices from index `vi` on advanced over a mono buffer in order:
/// positions are updated in place, contributions accumulate into the buffer,
/// and the finished voices are counted.
pub open spec fn sfx_pass_mono(
    clip: ClipView,
    voices: Seq<SfxVoice>,
    vi: int,
    delta: u32,
    data: Seq<u32>,
) -> (Seq<SfxVoice>, int, Seq<u32>)
    decreases voices.len() - vi,
{
    if vi < 0 || vi >= voices.len() {
        (voices, 0, data)
    } else {
        let stepped = sfx_voice_mono(clip, voices[vi].0, voices[vi].1.amplifier, delta, data, 0);
        let updated = voices.update(vi, (stepped.0, voices[vi].1));
        let rest = sfx_pass_mono(clip, updated, vi + 1, delta, stepped.2);
        (rest.0, (if stepped.1 {
            1int
        } else {
            0int
        }) + rest.1, rest.2)
    }
}

/// All voices from index `vi` on advanced over an interleaved stereo buffer
/// in order, as [`sfx_pass_mono`].
pub open spec fn sfx_pass_stereo(
    clip: ClipView,
    voices: Seq<SfxVoice>,
    vi: int,
    delta: u32,
    data: Seq<u32>,
) -> (Seq<SfxVoice>, int, Seq<u32>)
    decreases voices.len() - vi,
{
    if vi < 0 || vi >= voices.len() {
        (voices, 0, data)
    } else {
        let stepped = sfx_voice_stereo(clip, voices[vi].0, voices[vi].1.amplifier, delta, data, 0);
        let updated = voices.update(vi, (stepped.0, voices[vi].1));
        let rest = sfx_pass_stereo(clip, updated, vi + 1, delta, stepped.2);
        (rest.0, (if stepped.1 {
            1int
        } else {
            0int
        }) + rest.1, rest.2)
    }
}

/// A pass never reorders, drops or duplicates voices before pruning: every
/// voice keeps its slot and its parameters, voices before `vi` are untouched,
/// and the finished count stays between 0 and the number of voices visited.
pub proof fn lemma_sfx_pass_shape_mono(
    clip: ClipView,
    voices: Seq<SfxVoice>,
    vi: int,
    delta: u32,
    data: Seq<u32>,
)
    requires
        0 <= vi <= voices.len(),
    ensures
        ({
            let r = sfx_pass_mono(clip, voices, vi, delta, data);
            &&& r.0.len() == voices.len()
            &&& 0 <= r.1 <= voices.len() - vi
            &&& forall|i: int| 0 <= i < vi ==> r.0[i] == voices[i]
            &&& forall|i: int| 0 <= i < voices.len() ==> r.0[i].1 == voices[i].1
        }),
    decreases voices.len() - vi,
{
    if vi < voices.len() {
        let stepped = sfx_voice_mono(clip, voices[vi].0, voices[vi].1.amplifier, delta, data, 0);
        let updated = voices.update(vi, (stepped.0, voices[vi].1));
        lemma_sfx_pass_shape_mono(clip, updated, vi + 1, delta, stepped.2);
        let rest = sfx_pass_mono(clip, updated, vi + 1, delta, stepped.2);
        let r = sfx_pass_mono(clip, voices, vi, delta, data);
        assert(r.0 == rest.0 && r.2 == rest.2);
        assert(r.1 == (if stepped.1 {
            1int
        } else {
            0int
        }) + rest.1);
        assert forall|i: int| 0 <= i < voices.len() implies r.0[i].1 == voices[i].1 by {
            assert(rest.0[i].1 == updated[i].1);
            assert(updated[i].1 == voices[i].1);
        }
        assert forall|i: int| 0 <= i < vi implies r.0[i] == voices[i] by {
            assert(rest.0[i] == updated[i]);
            assert(updated[i] == voices[i]);
        }
    }
}

/// As [`lemma_sfx_pass_shape_mono`], for the stereo pass.
pub proof fn lemma_sfx_pass_shape_stereo(
    clip: ClipView,
    voices: Seq<SfxVoice>,
    vi: int,
    delta: u32,
    data: Seq<u32>,
)
    requires
        0 <= vi <= voices.len(),
    ensures
        ({
            let r = sfx_pass_stereo(clip, voices, vi, delta, data);
            &&& r.0.len() == voices.len()
            &&& 0 <= r.1 <= voices.len() - vi
            &&& forall|i: int| 0 <= i < vi ==> r.0[i] == voices[i]
            &&& forall|i: int| 0 <= i < voices.len() ==> r.0[i].1 == voices[i].1
        }),
    decreases voices.len() - vi,
{
    if vi < voices.len() {
        let stepped = sfx_voice_stereo(clip, voices[vi].0, voices[vi].1.amplifier, delta, data, 0);
        let updated = voices.update(vi, (stepped.0, voices[vi].1));
        lemma_sfx_pass_shape_stereo(clip, updated, vi + 1, delta, stepped.2);
        let rest = sfx_pass_stereo(clip, updated, vi + 1, delta, stepped.2);
        let r = sfx_pass_stereo(clip, voices, vi, delta, data);
        assert(r.0 == rest.0 && r.2 == rest.2);
        assert(r.1 == (if stepped.1 {
            1int
        } else {
            0int
        }) + rest.1);
        assert forall|i: int| 0 <= i < voices.len() implies r.0[i].1 == voices[i].1 by {
            assert(rest.0[i].1 == updated[i].1);
            assert(updated[i].1 == voices[i].1);
        }
        assert forall|i: int| 0 <= i < vi implies r.0[i] == voices[i] by {
            assert(rest.0[i] == updated[i]);
            assert(updated[i] == voices[i]);
        }
    }
}

/// Finished voices leave the pool from the front only, in submission order:
/// after a pass that finishes `cnt` voices, the pool holds exactly the
/// voices after the first `cnt`, still in submission order, each with its
/// parameters unchanged.
pub proof fn lemma_sfx_finishes_in_order(
    clip: ClipView,
    voices: Seq<SfxVoice>,
    delta: u32,
    data: Seq<u32>,
)
    ensures
        ({
            let r = sfx_pass_mono(clip, voices, 0, delta, data);
            let kept = r.0.skip(r.1);
            &&& kept.len() == voices.len() - r.1
            &&& forall|i: int| 0 <= i < kept.len() ==> kept[i].1 == voices[i + r.1].1
        }),
{
    lemma_sfx_pass_shape_mono(clip, voices, 0, delta, data);
}


/// What one voice would add to the next `n` mono cells of any buffer: its
/// mixed-down, amplified samples up to the clip's end. The buffer itself
/// plays no part.
pub open spec fn sfx_voice_contrib_mono(
    clip: ClipView,
    pos: u32,
    amp: u32,
    delta: u32,
    n: int,
) -> Seq<u32>
    decreases n,
{
    if n <= 0 {
        Seq::empty()
    } else {
        match clip_sample(clip, pos) {
            None => Seq::empty(),
            Some(frame) => seq![fp::mul32(frame_avg(frame), amp)] + sfx_voice_contrib_mono(
                clip,
                fp::add32(pos, delta),
                amp,
                delta,
                n - 1,
            ),
        }
    }
}

/// Mixing is additive: one voice's pass changes a mono buffer by exactly
/// the cell-by-cell addition of a contribution that does not depend on the
/// buffer's contents — so a voice rendered into a mix adds what it would
/// render alone.
pub proof fn lemma_sfx_voice_mono_additive(
    clip: ClipView,
    pos: u32,
    amp: u32,
    delta: u32,
    data: Seq<u32>,
    j: int,
)
    requires
        0 <= j <= data.len(),
    ensures
        sfx_voice_mono(clip, pos, amp, delta, data, j).2 == crate::music::add_into_mono(
            data,
            sfx_voice_contrib_mono(clip, pos, amp, delta, data.len() - j),
            j,
        ),
    decreases data.len() - j,
{
    let n = data.len() - j;
    let c = sfx_voice_contrib_mono(clip, pos, amp, delta, n);
    if j == data.len() {
        assert(crate::music::add_into_mono(data, c, j) =~= data);
    } else {
        match clip_sample(clip, pos) {
            None => {
                assert(c == Seq::<u32>::empty());
                assert(crate::music::add_into_mono(data, c, j) =~= data);
            },
            Some(frame) => {
                let v = fp::mul32(frame_avg(frame), amp);
                let data2 = data.update(j, fp::add32(data[j], v));
                lemma_sfx_voice_mono_additive(clip, fp::add32(pos, delta), amp, delta, data2, j + 1);
                let c2 = sfx_voice_contrib_mono(clip, fp::add32(pos, delta), amp, delta, data2.len() - (j + 1));
                assert(c == seq![v] + c2);
                assert(crate::music::add_into_mono(data2, c2, j + 1) =~= crate::music::add_into_mono(data, c, j));
            },
        }
    }
}


/// What one voice would add to the next `n` frames of any interleaved
/// stereo buffer: its amplified frames up to the clip's end.
pub open spec fn sfx_voice_contrib_stereo(
    clip: ClipView,
    pos: u32,
    amp: u32,
    delta: u32,
    n: int,
) -> Seq<crate::Frame>
    decreases n,
{
    if n <= 0 {
        Seq::empty()
    } else {
        match clip_sample(clip, pos) {
            None => Seq::empty(),
            Some(frame) => seq![crate::frame_gain(frame, amp)] + sfx_voice_contrib_stereo(
                clip,
                fp::add32(pos, delta),
                amp,
                delta,
                n - 1,
            ),
        }
    }
}

/// As [`lemma_sfx_voice_mono_additive`], for an interleaved stereo buffer
/// with an even number of cells.
pub proof fn lemma_sfx_voice_stereo_additive(
    clip: ClipView,
    pos: u32,
    amp: u32,
    delta: u32,
    data: Seq<u32>,
    j: int,
)
    requires
        0 <= j <= data.len() / 2,
        data.len() % 2 == 0,
    ensures
        sfx_voice_stereo(clip, pos, amp, delta, data, j).2 == crate::music::add_into_stereo(
            data,
            sfx_voice_contrib_stereo(clip, pos, amp, delta, data.len() / 2 - j),
            j,
        ),
    decreases data.len() / 2 - j,
{
    let n = data.len() / 2 - j;
    let c = sfx_voice_contrib_stereo(clip, pos, amp, delta, n);
    if j == data.len() / 2 {
        assert(crate::music::add_into_stereo(data, c, j) =~= data);
    } else {
        match clip_sample(clip, pos) {
            None => {
                assert(c == Seq::<crate::Frame>::empty());
                assert(crate::music::add_into_stereo(data, c, j) =~= data);
            },
            Some(frame) => {
                let g = crate::frame_gain(frame, amp);
                let data2 = data.update(2 * j, fp::add32(data[2 * j], fp::mul32(frame.0, amp))).update(
                    2 * j + 1,
                    fp::add32(data[2 * j + 1], fp::mul32(frame.1, amp)),
                );
                lemma_sfx_voice_stereo_additive(clip, fp::add32(pos, delta), amp, delta, data2, j + 1);
                let c2 = sfx_voice_contrib_stereo(clip, fp::add32(pos, delta), amp, delta, data2.len() / 2 - (j + 1));
                assert(c == seq![g] + c2);
                assert(crate::music::add_into_stereo(data2, c2, j + 1) =~= crate::music::add_into_stereo(data, c, j));
            },
        }
    }
}


/// `data` with each contribution of `cs` added in, cell by cell, in order,
/// each starting at the buffer's first cell.
pub open spec fn fold_add_mono(data: Seq<u32>, cs: Seq<Seq<u32>>) -> Seq<u32>
    decreases cs.len(),
{
    if cs.len() == 0 {
        data
    } else {
        fold_add_mono(crate::music::add_into_mono(data, cs[0], 0), cs.skip(1))
    }
}

/// What each voice from index `vi` on would add to the next `n` mono cells
/// of any buffer: one contribution per voice, in submission order, each a
/// function of that voice alone.
pub open spec fn sfx_pass_contribs_mono(
    clip: ClipView,
    voices: Seq<SfxVoice>,
    vi: int,
    delta: u32,
    n: int,
) -> Seq<Seq<u32>> {
    Seq::new(
        (voices.len() - vi) as nat,
        |k: int| sfx_voice_contrib_mono(
            clip,
            voices[vi + k].0,
            voices[vi + k].1.amplifier,
            delta,
            n,
        ),
    )
}

/// Mixing is additive across a whole pass: the voices change a mono buffer
/// by exactly the fold of their individual contributions, in submission
/// order, and no contribution depends on the buffer's contents.
pub proof fn lemma_sfx_pass_mono_additive(
    clip: ClipView,
    voices: Seq<SfxVoice>,
    vi: int,
    delta: u32,
    data: Seq<u32>,
)
    requires
        0 <= vi <= voices.len(),
    ensures
        sfx_pass_mono(clip, voices, vi, delta, data).2 == fold_add_mono(
            data,
            sfx_pass_contribs_mono(clip, voices, vi, delta, data.len() as int),
        ),
    decreases voices.len() - vi,
{
    let n = data.len() as int;
    let cs = sfx_pass_contribs_mono(clip, voices, vi, delta, n);
    if vi == voices.len() {
        assert(cs.len() == 0);
    } else {
        let stepped = sfx_voice_mono(clip, voices[vi].0, voices[vi].1.amplifier, delta, data, 0);
        let updated = voices.update(vi, (stepped.0, voices[vi].1));
        lemma_sfx_voice_mono_additive(clip, voices[vi].0, voices[vi].1.amplifier, delta, data, 0);
        assert(stepped.2 == crate::music::add_into_mono(data, cs[0], 0));
        assert(stepped.2.len() == n);
        lemma_sfx_pass_mono_additive(clip, updated, vi + 1, delta, stepped.2);
        assert(sfx_pass_contribs_mono(clip, updated, vi + 1, delta, n) =~= cs.skip(1)) by {
            assert(forall|k: int|
                0 <= k < updated.len() - (vi + 1) ==> #[trigger] updated[vi + 1 + k] == voices[vi
                    + 1 + k]);
        }
    }
}


/// `data` with each frame contribution of `cs` added in, channel by channel,
/// in order, each starting at the buffer's first frame.
pub open spec fn fold_add_stereo(data: Seq<u32>, cs: Seq<Seq<crate::Frame>>) -> Seq<u32>
    decreases cs.len(),
{
    if cs.len() == 0 {
        data
    } else {
        fold_add_stereo(crate::music::add_into_stereo(data, cs[0], 0), cs.skip(1))
    }
}

/// As [`sfx_pass_contribs_mono`], for an interleaved stereo buffer of
/// `n` frames.
pub open spec fn sfx_pass_contribs_stereo(
    clip: ClipView,
    voices: Seq<SfxVoice>,
    vi: int,
    delta: u32,
    n: int,
) -> Seq<Seq<crate::Frame>> {
    Seq::new(
        (voices.len() - vi) as nat,
        |k: int| sfx_voice_contrib_stereo(
            clip,
            voices[vi + k].0,
            voices[vi + k].1.amplifier,
            delta,
            n,
        ),
    )
}

/// As [`lemma_sfx_pass_mono_additive`], for an interleaved stereo buffer
/// with an even number of cells.
pub proof fn lemma_sfx_pass_stereo_additive(
    clip: ClipView,
    voices: Seq<SfxVoice>,
    vi: int,
    delta: u32,
    data: Seq<u32>,
)
    requires
        0 <= vi <= voices.len(),
        data.len() % 2 == 0,
    ensures
        sfx_pass_stereo(clip, voices, vi, delta, data).2 == fold_add_stereo(
            data,
            sfx_pass_contribs_stereo(clip, voices, vi, delta, data.len() as int / 2),
        ),
    decreases voices.len() - vi,
{
    let n = data.len() as int / 2;
    let cs = sfx_pass_contribs_stereo(clip, voices, vi, delta, n);
    if vi == voices.len() {
        assert(cs.len() == 0);
    } else {
        let stepped = sfx_voice_stereo(clip, voices[vi].0, voices[vi].1.amplifier, delta, data, 0);
        let updated = voices.update(vi, (stepped.0, voices[vi].1));
        lemma_sfx_voice_stereo_additive(clip, voices[vi].0, voices[vi].1.amplifier, delta, data, 0);
        assert(stepped.2 == crate::music::add_into_stereo(data, cs[0], 0));
        assert(stepped.2.len() == data.len());
        lemma_sfx_pass_stereo_additive(clip, updated, vi + 1, delta, stepped.2);
        assert(sfx_pass_contribs_stereo(clip, updated, vi + 1, delta, n) =~= cs.skip(1)) by {
            assert(forall|k: int|
                0 <= k < updated.len() - (vi + 1) ==> #[trigger] updated[vi + 1 + k] == voices[vi
                    + 1 + k]);
        }
    }
}

/// Renders pooled one-shot voices over one shared clip.
pub struct SfxRenderer {
    clip: AudioClip,
    marker: WeakRef<()>,
    cons: SpscConsumer<SfxVoice>,
    voices: Vec<SfxVoice>,
}

impl View for SfxRenderer {
    type V = SfxView;

    closed spec fn view(&self) -> SfxView {
        SfxView { clip: self.clip@, voices: self.voices@ }
    }
}

impl SfxRenderer {
    /// True while the handle is alive or any voice is still playing or
    /// queued; the mixer prunes this renderer once it turns false.
    pub fn alive(&self) -> (r: bool)
        ensures
            self@.voices.len() > 0 ==> r,
    {
        !self.voices.is_empty() || !self.cons.is_empty() || self.marker.strong_count() != 0
    }

    /// Moves newly queued triggers into the voice pool, behind the voices
    /// already playing; returns (as ghost data) the triggers taken over.
    fn drain(&mut self) -> (trigs: Ghost<Seq<SfxVoice>>)
        ensures
            final(self)@.voices == old(self)@.voices + trigs@,
            final(self)@.clip == old(self)@.clip,
    {
        let ghost mut trigs: Seq<SfxVoice> = Seq::empty();
        let budget = self.cons.len();
        let mut i: usize = 0;
        while i < budget
            invariant
                self@.voices =~= old(self)@.voices + trigs,
                self@.clip == old(self)@.clip,
            decreases budget - i,
        {
            match self.cons.pop() {
                None => {
                    break ;
                },
                Some(trigger) => {
                    self.voices.push(trigger);
                    proof {
                        trigs = trigs.push(trigger);
                        assert(self@.voices =~= old(self)@.voices + trigs);
                    }
                },
            }
            i = i + 1;
        }
        Ghost(trigs)
    }

    /// Removes the first `count` voices from the pool.
    fn prune(&mut self, count: usize)
        requires
            count <= old(self)@.voices.len(),
        ensures
            final(self)@.voices == old(self)@.voices.skip(count as int),
            final(self)@.clip == old(self)@.clip,
    {
        let mut k: usize = 0;
        while k < count
            invariant
                k <= count,
                count <= old(self)@.voices.len(),
                self@.voices =~= old(self)@.voices.skip(k as int),
                self@.clip == old(self)@.clip,
            decreases count - k,
        {
            self.voices.remove(0);
            k = k + 1;
            proof {
                assert(old(self)@.voices.skip(k - 1 as int).remove(0) =~= old(
                    self,
                )@.voices.skip(k as int));
            }
        }
    }

    /// One callback on a mono buffer: takes over the newly queued triggers
    /// (returned as ghost data), advances every voice in order exactly as
    /// [`sfx_pass_mono`] says, and removes the finished voices from the
    /// front of the pool.
    pub fn render_mono(&mut self, sample_rate: u32, data: &mut Vec<u32>) -> (trigs: Ghost<
        Seq<SfxVoice>,
    >)
        ensures
            ({
                let pool = old(self)@.voices + trigs@;
                let r = sfx_pass_mono(
                    old(self)@.clip,
                    pool,
                    0,
                    fp::div32(F32_ONE, fp::of_uint32(sample_rate as u64)),
                    old(data)@,
                );
                &&& final(self)@.voices == r.0.skip(r.1)
                &&& final(data)@ == r.2
                &&& final(self)@.clip == old(self)@.clip
            }),
    {
        let trigs = self.drain();
        let delta = fp::f32_div(F32_ONE, fp::f32_of_uint(sample_rate as u64));
        let ghost pool = self@.voices;
        let ghost clip0 = self@.clip;
        let ghost data0 = data@;
        let n = data.len();
        let mut finished: usize = 0;
        let mut vi: usize = 0;
        while vi < self.voices.len()
            invariant
                vi <= self@.voices.len(),
                finished <= vi,
                n == data@.len(),
                n == data0.len(),
                self@.clip == clip0,
                ({
                    let full = sfx_pass_mono(clip0, pool, 0, delta, data0);
                    let rem = sfx_pass_mono(clip0, self@.voices, vi as int, delta, data@);
                    &&& full.0 == rem.0
                    &&& full.1 == finished + rem.1
                    &&& full.2 == rem.2
                }),
            decreases self@.voices.len() - vi,
        {
            let ghost voices_pre = self@.voices;
            let ghost data_pre = data@;
            let (pos0, params) = self.voices[vi];
            let mut pos = pos0;
            let mut fin = false;
            let mut j: usize = 0;
            while j < n && !fin
                invariant
                    j <= n,
                    n == data@.len(),
                    self@.clip == clip0,
                    self@.voices == voices_pre,
                    !fin ==> sfx_voice_mono(clip0, pos0, params.amplifier, delta, data_pre, 0)
                        == sfx_voice_mono(clip0, pos, params.amplifier, delta, data@, j as int),
                    fin ==> sfx_voice_mono(clip0, pos0, params.amplifier, delta, data_pre, 0) == (
                        pos,
                        true,
                        data@,
                    ),
                decreases n - j, (if fin { 0int } else { 1int }),
            {
                let ghost pos_pre = pos;
                let ghost data_inner = data@;
                let ghost j_pre = j as int;
                match self.clip.sample(pos) {
                    Some(frame) => {
                        let v = fp::f32_add(data[j], fp::f32_mul(frame.avg(), params.amplifier));
                        data.set(j, v);
                        pos = fp::f32_add(pos, delta);
                        j = j + 1;
                        proof {
                            assert(sfx_voice_mono(
                                clip0,
                                pos_pre,
                                params.amplifier,
                                delta,
                                data_inner,
                                j_pre,
                            ) == sfx_voice_mono(clip0, pos, params.amplifier, delta, data@, j as int));
                        }
                    },
                    None => {
                        fin = true;
                        proof {
                            assert(sfx_voice_mono(
                                clip0,
                                pos_pre,
                                params.amplifier,
                                delta,
                                data_inner,
                                j_pre,
                            ) == (pos, true, data@));
                        }
                    },
                }
            }
            self.voices.set(vi, (pos, params));
            if fin {
                finished = finished + 1;
            }
            vi = vi + 1;
        }
        proof {
            lemma_sfx_pass_shape_mono(clip0, pool, 0, delta, data0);
        }
        self.prune(finished);
        trigs
    }

    /// One callback on an interleaved stereo buffer, as [`render_mono`] but
    /// adding each voice's scaled channels into cells `2j` and `2j + 1`,
    /// exactly as [`sfx_pass_stereo`] says.
    pub fn render_stereo(&mut self, sample_rate: u32, data: &mut Vec<u32>) -> (trigs: Ghost<
        Seq<SfxVoice>,
    >)
        ensures
            ({
                let pool = old(self)@.voices + trigs@;
                let r = sfx_pass_stereo(
                    old(self)@.clip,
                    pool,
                    0,
                    fp::div32(F32_ONE, fp::of_uint32(sample_rate as u64)),
                    old(data)@,
                );
                &&& final(self)@.voices == r.0.skip(r.1)
                &&& final(data)@ == r.2
                &&& final(self)@.clip == old(self)@.clip
            }),
    {
        let trigs = self.drain();
        let delta = fp::f32_div(F32_ONE, fp::f32_of_uint(sample_rate as u64));
        let ghost pool = self@.voices;
        let ghost clip0 = self@.clip;
        let ghost data0 = data@;
        let n = data.len() / 2;
        proof {
            assert(n == data@.len() as int / 2);
            assert(2 * n <= data@.len());
            assert(data@.len() <= usize::MAX);
        }
        let mut finished: usize = 0;
        let mut vi: usize = 0;
        while vi < self.voices.len()
            invariant
                vi <= self@.voices.len(),
                finished <= vi,
                n == data@.len() as int / 2,
                2 * n <= data@.len(),
                data@.len() <= usize::MAX,
                data@.len() == data0.len(),
                self@.clip == clip0,
                ({
                    let full = sfx_pass_stereo(clip0, pool, 0, delta, data0);
                    let rem = sfx_pass_stereo(clip0, self@.voices, vi as int, delta, data@);
                    &&& full.0 == rem.0
                    &&& full.1 == finished + rem.1
                    &&& full.2 == rem.2
                }),
            decreases self@.voices.len() - vi,
        {
            let ghost voices_pre = self@.voices;
            let ghost data_pre = data@;
            let (pos0, params) = self.voices[vi];
            let mut pos = pos0;
            let mut fin = false;
            let mut j: usize = 0;
            while j < n && !fin
                invariant
                    j <= n,
                    n == data@.len() as int / 2,
                    2 * n <= data@.len(),
                    data@.len() <= usize::MAX,
                    data@.len() == data_pre.len(),
                    self@.clip == clip0,
                    self@.voices == voices_pre,
                    !fin ==> sfx_voice_stereo(clip0, pos0, params.amplifier, delta, data_pre, 0)
                        == sfx_voice_stereo(clip0, pos, params.amplifier, delta, data@, j as int),
                    fin ==> sfx_voice_stereo(clip0, pos0, params.amplifier, delta, data_pre, 0)
                        == (pos, true, data@),
                decreases n - j, (if fin { 0int } else { 1int }),
            {
                let ghost pos_pre = pos;
                let ghost data_inner = data@;
                let ghost j_pre = j as int;
                match self.clip.sample(pos) {
                    Some(frame) => {
                        let left = fp::f32_add(data[2 * j], fp::f32_mul(frame.0, params.amplifier));
                        data.set(2 * j, left);
                        let right = fp::f32_add(
                            data[2 * j + 1],
                            fp::f32_mul(frame.1, params.amplifier),
                        );
                        data.set(2 * j + 1, right);
                        pos = fp::f32_add(pos, delta);
                        j = j + 1;
                        proof {
                            assert(sfx_voice_stereo(
                                clip0,
                                pos_pre,
                                params.amplifier,
                                delta,
                                data_inner,
                                j_pre,
                            ) == sfx_voice_stereo(
                                clip0,
                                pos,
                                params.amplifier,
                                delta,
                                data@,
                                j as int,
                            ));
                        }
                    },
                    None => {
                        fin = true;
                        proof {
                            assert(sfx_voice_stereo(
                                clip0,
                                pos_pre,
                                params.amplifier,
                                delta,
                                data_inner,
                                j_pre,
                            ) == (pos, true, data@));
                        }
                    },
                }
            }
            self.voices.set(vi, (pos, params));
            if fin {
                finished = finished + 1;
            }
            vi = vi + 1;
        }
        proof {
            lemma_sfx_pass_shape_stereo(clip0, pool, 0, delta, data0);
        }
        self.prune(finished);
        trigs
    }
}

/// The application-thread handle to a sound-effect pool. Dropping it lets
/// the mixer prune the paired renderer once its last voice has finished.
pub struct Sfx {
    _marker: Arc<()>,
    prod: SpscProducer<SfxVoice>,
}

impl Sfx {
    /// A paired handle and renderer over `clip`, with a trigger queue of
    /// `buffer_size` slots (64 by default); the renderer starts with no
    /// active voice.
    pub fn new(clip: AudioClip, buffer_size: Option<usize>) -> (r: (Sfx, SfxRenderer))
        requires
            buffer_size matches Some(n) ==> n >= 1,
        ensures
            r.1@.clip == clip@,
            r.1@.voices == Seq::<SfxVoice>::empty(),
    {
        let capacity = match buffer_size {
            Some(n) => n,
            None => 64,
        };
        let (prod, cons) = spsc_channel(capacity);
        let marker = Arc::new(());
        let renderer = SfxRenderer {
            clip,
            marker: downgrade(&marker),
            cons,
            voices: Vec::new(),
        };
        (Sfx { _marker: marker, prod }, renderer)
    }

    /// Triggers one playback of the clip from its start; fails with
    /// `BufferFull` when the trigger queue is saturated.
    pub fn play(&mut self, params: PlaySfxParams) -> (r: Result<(), Error>)
        ensures
            r matches Err(e) ==> e == Error::BufferFull("play sfx"),
    {
        match self.prod.push((F32_ZERO, params)) {
            Ok(()) => Ok(()),
            Err(t) => Err(buffer_is_full(t, "play sfx")),
        }
    }
}

} // verus!
