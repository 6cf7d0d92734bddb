//! The mixer: owns the live sources and combines them into the output
//! buffer on every audio callback.

use vstd::prelude::*;

use crate::music::{
    apply_commands, music_delta64, music_pos0, music_render_mono, music_render_stereo, rescale,
    MusicCommand, MusicRenderer, MusicView,
};
use crate::sfx::{sfx_pass_mono, sfx_pass_stereo, SfxRenderer, SfxView, SfxVoice};
use crate::spsc::SpscConsumer;
use crate::{fp, F32_ONE, F32_ZERO};

verus! {

/// A live sound source: one long-running music renderer or one pooled
/// sound-effect renderer.
pub enum Source {
    Music(MusicRenderer),
    Sfx(SfxRenderer),
}

/// What a source's state is, as contracts speak of it.
pub enum SourceView {
    Music(MusicView),
    Sfx(SfxView),
}

impl View for Source {
    type V = SourceView;

    closed spec fn view(&self) -> SourceView {
        match self {
            Source::Music(m) => SourceView::Music(m@),
            Source::Sfx(s) => SourceView::Sfx(s@),
        }
    }
}

/// How one callback on a mono buffer may take a music renderer from `m0` to
/// `m1` and the buffer from `d0` to `d1`: some drained command sequence,
/// applied after sample-rate adaptation, leaves it paused with the buffer
/// untouched, or leads to the exact render of [`music_render_mono`].
pub open spec fn music_mono_rel(
    m0: MusicView,
    m1: MusicView,
    d0: Seq<u32>,
    d1: Seq<u32>,
    sample_rate: u32,
) -> bool {
    exists|cmds: Seq<MusicCommand>|
        #![trigger apply_commands(rescale(m0, sample_rate), cmds, sample_rate)]
        {
            let p = apply_commands(rescale(m0, sample_rate), cmds, sample_rate);
            if p.paused {
                m1 == p && d1 == d0
            } else {
                let d64 = music_delta64(p, sample_rate);
                let r = music_render_mono(
                    p,
                    music_pos0(p, sample_rate),
                    d64,
                    fp::narrow32(d64),
                    d0,
                    0,
                );
                m1 == r.0 && d1 == r.1
            }
        }
}

/// As [`music_mono_rel`], for an interleaved stereo buffer.
pub open spec fn music_stereo_rel(
    m0: MusicView,
    m1: MusicView,
    d0: Seq<u32>,
    d1: Seq<u32>,
    sample_rate: u32,
) -> bool {
    exists|cmds: Seq<MusicCommand>|
        #![trigger apply_commands(rescale(m0, sample_rate), cmds, sample_rate)]
        {
            let p = apply_commands(rescale(m0, sample_rate), cmds, sample_rate);
            if p.paused {
                m1 == p && d1 == d0
            } else {
                let d64 = music_delta64(p, sample_rate);
                let r = music_render_stereo(
                    p,
                    music_pos0(p, sample_rate),
                    d64,
                    fp::narrow32(d64),
                    d0,
                    0,
                );
                m1 == r.0 && d1 == r.1
            }
        }
}

/// How one callback on a mono buffer may take an sfx renderer from `s0` to
/// `s1` and the buffer from `d0` to `d1`: some drained trigger sequence
/// joins the pool and the pass of [`sfx_pass_mono`] runs, pruning the
/// finished voices from the front.
pub open spec fn sfx_mono_rel(
    s0: SfxView,
    s1: SfxView,
    d0: Seq<u32>,
    d1: Seq<u32>,
    sample_rate: u32,
) -> bool {
    exists|trigs: Seq<SfxVoice>|
        #![trigger sfx_pass_mono(s0.clip, s0.voices + trigs, 0, fp::div32(F32_ONE, fp::of_uint32(sample_rate as u64)), d0)]
        {
            let r = sfx_pass_mono(
                s0.clip,
                s0.voices + trigs,
                0,
                fp::div32(F32_ONE, fp::of_uint32(sample_rate as u64)),
                d0,
            );
            s1.voices == r.0.skip(r.1) && d1 == r.2 && s1.clip == s0.clip
        }
}

/// As [`sfx_mono_rel`], for an interleaved stereo buffer.
pub open spec fn sfx_stereo_rel(
    s0: SfxView,
    s1: SfxView,
    d0: Seq<u32>,
    d1: Seq<u32>,
    sample_rate: u32,
) -> bool {
    exists|trigs: Seq<SfxVoice>|
        #![trigger sfx_pass_stereo(s0.clip, s0.voices + trigs, 0, fp::div32(F32_ONE, fp::of_uint32(sample_rate as u64)), d0)]
        {
            let r = sfx_pass_stereo(
                s0.clip,
                s0.voices + trigs,
                0,
                fp::div32(F32_ONE, fp::of_uint32(sample_rate as u64)),
                d0,
            );
            s1.voices == r.0.skip(r.1) && d1 == r.2 && s1.clip == s0.clip
        }
}

/// How one callback may take any source from `pre` to `post`, by its own
/// kind's relation.
pub open spec fn source_mono_rel(
    pre: SourceView,
    post: SourceView,
    d0: Seq<u32>,
    d1: Seq<u32>,
    sample_rate: u32,
) -> bool {
    match (pre, post) {
        (SourceView::Music(m0), SourceView::Music(m1)) => music_mono_rel(
            m0,
            m1,
            d0,
            d1,
            sample_rate,
        ),
        (SourceView::Sfx(s0), SourceView::Sfx(s1)) => sfx_mono_rel(s0, s1, d0, d1, sample_rate),
        _ => false,
    }
}

/// As [`source_mono_rel`], for an interleaved stereo buffer.
pub open spec fn source_stereo_rel(
    pre: SourceView,
    post: SourceView,
    d0: Seq<u32>,
    d1: Seq<u32>,
    sample_rate: u32,
) -> bool {
    match (pre, post) {
        (SourceView::Music(m0), SourceView::Music(m1)) => music_stereo_rel(
            m0,
            m1,
            d0,
            d1,
            sample_rate,
        ),
        (SourceView::Sfx(s0), SourceView::Sfx(s1)) => sfx_stereo_rel(s0, s1, d0, d1, sample_rate),
        _ => false,
    }
}

/// The sources of `pres`, in order, each rendered once into the buffer the
/// one before it left behind: the buffer goes from `d0` to `d1` and the
/// sources end as `posts`.
pub open spec fn mono_chain(
    pres: Seq<Source>,
    posts: Seq<Source>,
    d0: Seq<u32>,
    d1: Seq<u32>,
    sample_rate: u32,
) -> bool
    decreases pres.len(),
{
    if pres.len() == 0 {
        posts.len() == 0 && d1 == d0
    } else {
        posts.len() == pres.len() && exists|dmid: Seq<u32>|
            #[trigger] source_mono_rel(pres[0]@, posts[0]@, d0, dmid, sample_rate) && mono_chain(
                pres.skip(1),
                posts.skip(1),
                dmid,
                d1,
                sample_rate,
            )
    }
}

/// As [`mono_chain`], for an interleaved stereo buffer.
pub open spec fn stereo_chain(
    pres: Seq<Source>,
    posts: Seq<Source>,
    d0: Seq<u32>,
    d1: Seq<u32>,
    sample_rate: u32,
) -> bool
    decreases pres.len(),
{
    if pres.len() == 0 {
        posts.len() == 0 && d1 == d0
    } else {
        posts.len() == pres.len() && exists|dmid: Seq<u32>|
            #[trigger] source_stereo_rel(pres[0]@, posts[0]@, d0, dmid, sample_rate)
                && stereo_chain(pres.skip(1), posts.skip(1), dmid, d1, sample_rate)
    }
}

proof fn lemma_mono_chain_snoc(
    pres: Seq<Source>,
    posts: Seq<Source>,
    p: Source,
    q: Source,
    d0: Seq<u32>,
    d1: Seq<u32>,
    d2: Seq<u32>,
    sample_rate: u32,
)
    requires
        mono_chain(pres, posts, d0, d1, sample_rate),
        source_mono_rel(p@, q@, d1, d2, sample_rate),
    ensures
        mono_chain(pres.push(p), posts.push(q), d0, d2, sample_rate),
    decreases pres.len(),
{
    if pres.len() == 0 {
        assert(pres.push(p)[0] == p && posts.push(q)[0] == q);
        assert(pres.push(p).skip(1) =~= Seq::<Source>::empty());
        assert(posts.push(q).skip(1) =~= Seq::<Source>::empty());
        assert(d1 == d0);
        assert(mono_chain(pres.push(p).skip(1), posts.push(q).skip(1), d2, d2, sample_rate));
        assert(source_mono_rel(pres.push(p)[0]@, posts.push(q)[0]@, d0, d2, sample_rate));
    } else {
        let dmid = choose|dmid: Seq<u32>|
            #[trigger] source_mono_rel(pres[0]@, posts[0]@, d0, dmid, sample_rate) && mono_chain(
                pres.skip(1),
                posts.skip(1),
                dmid,
                d1,
                sample_rate,
            );
        lemma_mono_chain_snoc(
            pres.skip(1),
            posts.skip(1),
            p,
            q,
            dmid,
            d1,
            d2,
            sample_rate,
        );
        assert(pres.push(p).skip(1) =~= pres.skip(1).push(p));
        assert(posts.push(q).skip(1) =~= posts.skip(1).push(q));
        assert(pres.push(p)[0] == pres[0] && posts.push(q)[0] == posts[0]);
        assert(source_mono_rel(pres.push(p)[0]@, posts.push(q)[0]@, d0, dmid, sample_rate)
            && mono_chain(pres.push(p).skip(1), posts.push(q).skip(1), dmid, d2, sample_rate));
    }
}

proof fn lemma_stereo_chain_snoc(
    pres: Seq<Source>,
    posts: Seq<Source>,
    p: Source,
    q: Source,
    d0: Seq<u32>,
    d1: Seq<u32>,
    d2: Seq<u32>,
    sample_rate: u32,
)
    requires
        stereo_chain(pres, posts, d0, d1, sample_rate),
        source_stereo_rel(p@, q@, d1, d2, sample_rate),
    ensures
        stereo_chain(pres.push(p), posts.push(q), d0, d2, sample_rate),
    decreases pres.len(),
{
    if pres.len() == 0 {
        assert(pres.push(p)[0] == p && posts.push(q)[0] == q);
        assert(pres.push(p).skip(1) =~= Seq::<Source>::empty());
        assert(posts.push(q).skip(1) =~= Seq::<Source>::empty());
        assert(d1 == d0);
        assert(stereo_chain(pres.push(p).skip(1), posts.push(q).skip(1), d2, d2, sample_rate));
        assert(source_stereo_rel(pres.push(p)[0]@, posts.push(q)[0]@, d0, d2, sample_rate));
    } else {
        let dmid = choose|dmid: Seq<u32>|
            #[trigger] source_stereo_rel(pres[0]@, posts[0]@, d0, dmid, sample_rate)
                && stereo_chain(pres.skip(1), posts.skip(1), dmid, d1, sample_rate);
        lemma_stereo_chain_snoc(
            pres.skip(1),
            posts.skip(1),
            p,
            q,
            dmid,
            d1,
            d2,
            sample_rate,
        );
        assert(pres.push(p).skip(1) =~= pres.skip(1).push(p));
        assert(posts.push(q).skip(1) =~= posts.skip(1).push(q));
        assert(pres.push(p)[0] == pres[0] && posts.push(q)[0] == posts[0]);
        assert(source_stereo_rel(pres.push(p)[0]@, posts.push(q)[0]@, d0, dmid, sample_rate)
            && stereo_chain(pres.push(p).skip(1), posts.push(q).skip(1), dmid, d2, sample_rate));
    }
}

/// The elements of `sources` whose flag in `keep` is set, in order.
pub open spec fn filter_keep(sources: Seq<Source>, keep: Seq<bool>) -> Seq<Source>
    decreases sources.len(),
{
    if sources.len() == 0 {
        Seq::empty()
    } else {
        let rest = filter_keep(sources.skip(1), keep.skip(1));
        if 0 < keep.len() && keep[0] {
            seq![sources[0]] + rest
        } else {
            rest
        }
    }
}

proof fn lemma_filter_keep_snoc(sources: Seq<Source>, keep: Seq<bool>, s: Source, b: bool)
    requires
        keep.len() == sources.len(),
    ensures
        filter_keep(sources.push(s), keep.push(b)) == filter_keep(sources, keep) + (if b {
            seq![s]
        } else {
            Seq::<Source>::empty()
        }),
    decreases sources.len(),
{
    if sources.len() == 0 {
        assert(sources.push(s)[0] == s);
        assert(keep.push(b)[0] == b);
        assert(sources.push(s).skip(1) =~= Seq::<Source>::empty());
        assert(keep.push(b).skip(1) =~= Seq::<bool>::empty());
        assert(filter_keep(sources.push(s).skip(1), keep.push(b).skip(1))
            == Seq::<Source>::empty());
        assert(filter_keep(sources, keep) == Seq::<Source>::empty());
        if b {
            assert(filter_keep(sources.push(s), keep.push(b)) =~= filter_keep(sources, keep) + seq![
                s,
            ]);
        } else {
            assert(filter_keep(sources.push(s), keep.push(b)) =~= filter_keep(sources, keep));
        }
    } else {
        lemma_filter_keep_snoc(sources.skip(1), keep.skip(1), s, b);
        assert(sources.push(s).skip(1) =~= sources.skip(1).push(s));
        assert(keep.push(b).skip(1) =~= keep.skip(1).push(b));
        assert(sources.push(s)[0] == sources[0] && keep.push(b)[0] == keep[0]);
        if keep[0] {
            assert(seq![sources[0]] + (filter_keep(sources.skip(1), keep.skip(1)) + (if b {
                seq![s]
            } else {
                Seq::<Source>::empty()
            })) =~= (seq![sources[0]] + filter_keep(sources.skip(1), keep.skip(1))) + (if b {
                seq![s]
            } else {
                Seq::<Source>::empty()
            }));
        }
    }
}

/// A buffer of silence: `n` cells of the bits of 0.0.
pub open spec fn zero_buffer(n: int) -> Seq<u32> {
    Seq::new(n as nat, |i: int| F32_ZERO)
}

/// A command for the mixer, posted by the manager.
pub enum MixerCommand {
    AddSource(Source),
}

impl Source {
    /// Whether the source should stay in the mixer; a sound-effect source
    /// with voices still playing always should.
    pub fn alive(&self) -> (r: bool)
        ensures
            (self@ matches SourceView::Sfx(s) && s.voices.len() > 0) ==> r,
    {
        match self {
            Source::Music(m) => m.alive(),
            Source::Sfx(s) => s.alive(),
        }
    }

    /// One callback on a mono buffer, exactly as the source's own relation
    /// says.
    pub fn render_mono(&mut self, sample_rate: u32, data: &mut Vec<u32>)
        ensures
            source_mono_rel(old(self)@, final(self)@, old(data)@, final(data)@, sample_rate),
    {
        match self {
            Source::Music(m) => {
                let _ = m.render_mono(sample_rate, data);
            },
            Source::Sfx(s) => {
                let _ = s.render_mono(sample_rate, data);
            },
        }
    }

    /// One callback on an interleaved stereo buffer, exactly as the source's
    /// own relation says.
    pub fn render_stereo(&mut self, sample_rate: u32, data: &mut Vec<u32>)
        ensures
            source_stereo_rel(old(self)@, final(self)@, old(data)@, final(data)@, sample_rate),
    {
        match self {
            Source::Music(m) => {
                let _ = m.render_stereo(sample_rate, data);
            },
            Source::Sfx(s) => {
                let _ = s.render_stereo(sample_rate, data);
            },
        }
    }
}

/// Owns the live source list; runs on the audio callback thread.
pub struct Mixer {
    sample_rate: u32,
    renderers: Vec<Source>,
    cons: SpscConsumer<MixerCommand>,
}

impl Mixer {
    /// The live sources, in insertion order.
    pub closed spec fn sources(&self) -> Seq<Source> {
        self.renderers@
    }

    /// The output sample rate the mixer renders at.
    pub closed spec fn rate(&self) -> u32 {
        self.sample_rate
    }

    /// A mixer with no live source, fed by `cons`.
    pub fn new(sample_rate: u32, cons: SpscConsumer<MixerCommand>) -> (r: Self)
        ensures
            r.sources() == Seq::<Source>::empty(),
            r.rate() == sample_rate,
    {
        Mixer { sample_rate, renderers: Vec::new(), cons }
    }

    /// How many live sources the mixer holds.
    pub fn source_count(&self) -> (r: usize)
        ensures
            r == self.sources().len(),
    {
        self.renderers.len()
    }

    /// The output sample rate the mixer renders at.
    pub fn sample_rate(&self) -> (r: u32)
        ensures
            r == self.rate(),
    {
        self.sample_rate
    }

    /// Informs the mixer of the stream's actual sample rate; the backend
    /// adapter calls this before the first buffer.
    pub fn set_sample_rate(&mut self, sample_rate: u32)
        ensures
            final(self).rate() == sample_rate,
            final(self).sources() == old(self).sources(),
    {
        self.sample_rate = sample_rate;
    }

    /// Appends the newly commanded sources, in order; returns them as ghost
    /// data.
    fn consume_commands(&mut self) -> (adds: Ghost<Seq<Source>>)
        ensures
            final(self).sources() == old(self).sources() + adds@,
            final(self).rate() == old(self).rate(),
    {
        let ghost mut added: Seq<Source> = Seq::empty();
        let budget = self.cons.len();
        let mut i: usize = 0;
        while i < budget
            invariant
                self.sources() =~= old(self).sources() + added,
                self.rate() == old(self).rate(),
            decreases budget - i,
        {
            match self.cons.pop() {
                None => {
                    break ;
                },
                Some(MixerCommand::AddSource(source)) => {
                    proof {
                        added = added.push(source);
                    }
                    self.renderers.push(source);
                    proof {
                        assert(self.sources() =~= old(self).sources() + added);
                    }
                },
            }
            i = i + 1;
        }
        Ghost(added)
    }

    /// Overwrites every cell with the bits of 0.0.
    fn zero(data: &mut Vec<u32>)
        ensures
            final(data)@ == zero_buffer(old(data)@.len() as int),
    {
        let n = data.len();
        let mut j: usize = 0;
        while j < n
            invariant
                j <= n,
                n == data@.len(),
                forall|i: int| 0 <= i < j ==> data@[i] == F32_ZERO,
            decreases n - j,
        {
            data.set(j, F32_ZERO);
            j = j + 1;
        }
        proof {
            assert(data@ =~= zero_buffer(old(data)@.len() as int));
        }
    }

    /// One audio callback on a mono buffer: drains pending `AddSource`
    /// commands (returned as ghost data), zeroes the buffer, renders every
    /// live source in insertion order — each adding into the buffer the one
    /// before it left — and keeps, still in order, exactly those sources
    /// whose liveness check passed; a sound-effect source with voices still
    /// playing is always kept.
    pub fn render_mono(&mut self, data: &mut Vec<u32>) -> (adds: Ghost<Seq<Source>>)
        ensures
            final(self).rate() == old(self).rate(),
            exists|stepped: Seq<Source>, keep: Seq<bool>|
                #![trigger mono_chain(old(self).sources() + adds@, stepped, zero_buffer(old(data)@.len() as int), final(data)@, old(self).rate()), filter_keep(stepped, keep)]
                {
                    &&& mono_chain(
                        old(self).sources() + adds@,
                        stepped,
                        zero_buffer(old(data)@.len() as int),
                        final(data)@,
                        old(self).rate(),
                    )
                    &&& keep.len() == stepped.len()
                    &&& final(self).sources() == filter_keep(stepped, keep)
                    &&& forall|i: int|
                        0 <= i < stepped.len() && (#[trigger] stepped[i]@ matches SourceView::Sfx(
                            s,
                        ) && s.voices.len() > 0) ==> keep[i]
                },
    {
        let adds = self.consume_commands();
        Self::zero(data);
        let ghost pres = self.sources();
        let ghost d0 = data@;
        let ghost sr = self.rate();
        let mut kept: Vec<Source> = Vec::new();
        let ghost mut stepped: Seq<Source> = Seq::empty();
        let ghost mut keep: Seq<bool> = Seq::empty();
        while self.renderers.len() > 0
            invariant
                stepped.len() + self.sources().len() == pres.len(),
                keep.len() == stepped.len(),
                self.sources() =~= pres.skip(stepped.len() as int),
                self.rate() == sr,
                mono_chain(pres.take(stepped.len() as int), stepped, d0, data@, sr),
                kept@ == filter_keep(stepped, keep),
                forall|i: int|
                    0 <= i < stepped.len() && (#[trigger] stepped[i]@ matches SourceView::Sfx(s)
                        && s.voices.len() > 0) ==> keep[i],
            decreases self.renderers.len(),
        {
            let ghost k = stepped.len() as int;
            let ghost data_pre = data@;
            let ghost sources_pre = self.sources();
            let mut source = self.renderers.remove(0);
            let ghost source_pre = source;
            source.render_mono(self.sample_rate, data);
            let alive = source.alive();
            proof {
                assert(source_pre == pres[k]);
                lemma_mono_chain_snoc(
                    pres.take(k),
                    stepped,
                    source_pre,
                    source,
                    d0,
                    data_pre,
                    data@,
                    sr,
                );
                assert(pres.take(k).push(source_pre) =~= pres.take(k + 1));
                lemma_filter_keep_snoc(stepped, keep, source, alive);
                stepped = stepped.push(source);
                keep = keep.push(alive);
                assert(self.sources() =~= sources_pre.remove(0));
                assert(self.sources() =~= pres.skip(stepped.len() as int));
            }
            if alive {
                kept.push(source);
            }
        }
        proof {
            assert(pres.take(stepped.len() as int) =~= pres);
        }
        self.renderers = kept;
        adds
    }

    /// One audio callback on an interleaved stereo buffer, as
    /// [`render_mono`].
    pub fn render_stereo(&mut self, data: &mut Vec<u32>) -> (adds: Ghost<Seq<Source>>)
        ensures
            final(self).rate() == old(self).rate(),
            exists|stepped: Seq<Source>, keep: Seq<bool>|
                #![trigger stereo_chain(old(self).sources() + adds@, stepped, zero_buffer(old(data)@.len() as int), final(data)@, old(self).rate()), filter_keep(stepped, keep)]
                {
                    &&& stereo_chain(
                        old(self).sources() + adds@,
                        stepped,
                        zero_buffer(old(data)@.len() as int),
                        final(data)@,
                        old(self).rate(),
                    )
                    &&& keep.len() == stepped.len()
                    &&& final(self).sources() == filter_keep(stepped, keep)
                    &&& forall|i: int|
                        0 <= i < stepped.len() && (#[trigger] stepped[i]@ matches SourceView::Sfx(
                            s,
                        ) && s.voices.len() > 0) ==> keep[i]
                },
    {
        let adds = self.consume_commands();
        Self::zero(data);
        let ghost pres = self.sources();
        let ghost d0 = data@;
        let ghost sr = self.rate();
        let mut kept: Vec<Source> = Vec::new();
        let ghost mut stepped: Seq<Source> = Seq::empty();
        let ghost mut keep: Seq<bool> = Seq::empty();
        while self.renderers.len() > 0
            invariant
                stepped.len() + self.sources().len() == pres.len(),
                keep.len() == stepped.len(),
                self.sources() =~= pres.skip(stepped.len() as int),
                self.rate() == sr,
                stereo_chain(pres.take(stepped.len() as int), stepped, d0, data@, sr),
                kept@ == filter_keep(stepped, keep),
                forall|i: int|
                    0 <= i < stepped.len() && (#[trigger] stepped[i]@ matches SourceView::Sfx(s)
                        && s.voices.len() > 0) ==> keep[i],
            decreases self.renderers.len(),
        {
            let ghost k = stepped.len() as int;
            let ghost data_pre = data@;
            let ghost sources_pre = self.sources();
            let mut source = self.renderers.remove(0);
            let ghost source_pre = source;
            source.render_stereo(self.sample_rate, data);
            let alive = source.alive();
            proof {
                assert(source_pre == pres[k]);
                lemma_stereo_chain_snoc(
                    pres.take(k),
                    stepped,
                    source_pre,
                    source,
                    d0,
                    data_pre,
                    data@,
                    sr,
                );
                assert(pres.take(k).push(source_pre) =~= pres.take(k + 1));
                lemma_filter_keep_snoc(stepped, keep, source, alive);
                stepped = stepped.push(source);
                keep = keep.push(alive);
                assert(self.sources() =~= sources_pre.remove(0));
                assert(self.sources() =~= pres.skip(stepped.len() as int));
            }
            if alive {
                kept.push(source);
            }
        }
        proof {
            assert(pres.take(stepped.len() as int) =~= pres);
        }
        self.renderers = kept;
        adds
    }
}

} // verus!
