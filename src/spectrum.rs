//! Accumulation of a sample stream into fixed-size transform windows, and the
//! spectrum published from the most recent one.
use vstd::prelude::*;
use vstd::seq_lib::lemma_flatten_concat;
use vstd::arithmetic::div_mod::lemma_fundamental_div_mod_converse;

verus! {

/// Why an analyzer could not be built, or a spectrum not published.
#[derive(Clone, Copy, Debug, PartialEq, Eq, Structural)]
pub enum AnalyzerError {
    /// The window is empty, or shorter than the number of displayed bins.
    InvalidConfiguration,
    /// A published spectrum does not hold one value per window sample.
    LengthMismatch,
}

/// The contents of a sequence of windows.
pub open spec fn window_views<T>(windows: Seq<Vec<T>>) -> Seq<Seq<T>> {
    windows.map_values(|v: Vec<T>| v@)
}

/// Every window holds exactly `w` samples.
pub open spec fn all_full<T>(windows: Seq<Seq<T>>, w: nat) -> bool {
    forall|i: int| 0 <= i < windows.len() ==> #[trigger] windows[i].len() == w
}

/// Samples fed one block at a time are cut into windows of `buffer_size`
/// samples. Each time the window fills it is handed out whole for the
/// transform and accumulation starts again, so no sample is dropped and the
/// pending part is always shorter than a window.
///
/// The sample type is the caller's: the transform of a window and the
/// spectrum that results are computed outside and published back here.
pub struct SpectrumAnalyzer<T> {
    bins: usize,
    buffer_size: usize,
    buffer: Vec<T>,
    spectrum: Vec<T>,
}

impl<T> SpectrumAnalyzer<T> {
    #[verifier::type_invariant]
    spec fn inv(self) -> bool {
        &&& 0 < self.buffer_size
        &&& self.bins <= self.buffer_size
        &&& self.buffer@.len() < self.buffer_size
        &&& self.spectrum@.len() == self.buffer_size
    }
}

impl<T: Copy> SpectrumAnalyzer<T> {
    pub closed spec fn spec_bins(self) -> nat {
        self.bins as nat
    }

    pub closed spec fn spec_buffer_size(self) -> nat {
        self.buffer_size as nat
    }

    /// The samples taken in since the last completed window.
    pub closed spec fn spec_pending(self) -> Seq<T> {
        self.buffer@
    }

    /// The spectrum most recently published.
    pub closed spec fn spec_spectrum(self) -> Seq<T> {
        self.spectrum@
    }


    /// An analyzer with windows of `buffer_size` samples, of which the first
    /// `bins` spectrum values are displayed. Its spectrum starts as
    /// `buffer_size` copies of `silence` and nothing is pending.
    pub fn new(bins: usize, buffer_size: usize, silence: T) -> (r: Result<Self, AnalyzerError>)
        ensures
            r is Ok <==> (0 < buffer_size && bins <= buffer_size),
            r is Err ==> r->Err_0 == AnalyzerError::InvalidConfiguration,
            r matches Ok(a) ==> {
                &&& a.spec_bins() == bins
                &&& a.spec_buffer_size() == buffer_size
                &&& a.spec_pending() == Seq::<T>::empty()
                &&& a.spec_spectrum() == Seq::new(buffer_size as nat, |i: int| silence)
            },
    {
        if buffer_size == 0 || bins > buffer_size {
            return Err(AnalyzerError::InvalidConfiguration);
        }
        let mut spectrum: Vec<T> = Vec::new();
        let mut i: usize = 0;
        while i < buffer_size
            invariant
                i <= buffer_size,
                spectrum@ == Seq::new(i as nat, |k: int| silence),
            decreases buffer_size - i,
        {
            spectrum.push(silence);
            i += 1;
            assert(spectrum@ =~= Seq::new(i as nat, |k: int| silence));
        }
        Ok(SpectrumAnalyzer { bins, buffer_size, buffer: Vec::new(), spectrum })
    }

    /// Takes in a block of samples and returns, in order, the windows that it
    /// completed. The completed windows followed by what is pending afterwards
    /// are exactly what was pending before followed by the block.
    pub fn ingest(&mut self, samples: &[T]) -> (windows: Vec<Vec<T>>)
        ensures
            window_views(windows@).flatten() + final(self).spec_pending() == old(
                self,
            ).spec_pending() + samples@,
            all_full(window_views(windows@), old(self).spec_buffer_size()),
            windows@.len() == (old(self).spec_pending().len() + samples@.len())
                / old(self).spec_buffer_size(),
            final(self).spec_pending().len() < final(self).spec_buffer_size(),
            final(self).spec_bins() == old(self).spec_bins(),
            final(self).spec_buffer_size() == old(self).spec_buffer_size(),
            final(self).spec_spectrum() == old(self).spec_spectrum(),
    {
        proof {
            use_type_invariant(&*self);
        }
        let mut buffer: Vec<T> = Vec::new();
        core::mem::swap(&mut self.buffer, &mut buffer);
        let mut windows: Vec<Vec<T>> = Vec::new();
        let w = self.buffer_size;
        let mut j: usize = 0;
        while j < samples.len()
            invariant
                j <= samples@.len(),
                0 < w,
                buffer@.len() < w,
                window_views(windows@).flatten() + buffer@ == old(self).buffer@ + samples@.subrange(
                    0,
                    j as int,
                ),
                all_full(window_views(windows@), w as nat),
            decreases samples@.len() - j,
        {
            let ghost before = window_views(windows@);
            let ghost pending = buffer@;
            buffer.push(samples[j]);
            assert(samples@.subrange(0, j + 1) =~= samples@.subrange(0, j as int).push(
                samples@[j as int],
            ));
            assert(before.flatten() + buffer@ =~= (before.flatten() + pending).push(
                samples@[j as int],
            ));
            if buffer.len() == w {
                let mut full: Vec<T> = Vec::new();
                core::mem::swap(&mut buffer, &mut full);
                windows.push(full);
                proof {
                    assert(window_views(windows@) =~= before.push(full@));
                    before.lemma_flatten_push(full@);
                    assert(window_views(windows@).flatten() + buffer@ =~= before.flatten() + full@);
                }
            }
            j += 1;
        }
        assert(samples@.subrange(0, j as int) =~= samples@);
        proof {
            lemma_full_windows_len(window_views(windows@), w as nat);
            lemma_fundamental_div_mod_converse(
                (old(self).buffer@.len() + samples@.len()) as int,
                w as int,
                windows@.len() as int,
                buffer@.len() as int,
            );
        }
        self.buffer = buffer;
        windows
    }

    /// Replaces the displayed spectrum by `spectrum`, which must hold one
    /// value per window sample; otherwise nothing changes.
    pub fn publish(&mut self, spectrum: Vec<T>) -> (r: Result<(), AnalyzerError>)
        ensures
            r is Ok <==> spectrum@.len() == old(self).spec_buffer_size(),
            r is Err ==> r->Err_0 == AnalyzerError::LengthMismatch,
            final(self).spec_spectrum() == (if r is Ok {
                spectrum@
            } else {
                old(self).spec_spectrum()
            }),
            final(self).spec_pending() == old(self).spec_pending(),
            final(self).spec_bins() == old(self).spec_bins(),
            final(self).spec_buffer_size() == old(self).spec_buffer_size(),
    {
        proof {
            use_type_invariant(&*self);
        }
        if spectrum.len() != self.buffer_size {
            return Err(AnalyzerError::LengthMismatch);
        }
        self.spectrum = spectrum;
        Ok(())
    }

    pub fn bins(&self) -> (r: usize)
        ensures
            r == self.spec_bins(),
    {
        self.bins
    }

    pub fn buffer_size(&self) -> (r: usize)
        ensures
            r == self.spec_buffer_size(),
    {
        self.buffer_size
    }

    /// The samples taken in since the last completed window.
    pub fn pending(&self) -> (r: &Vec<T>)
        ensures
            r@ == self.spec_pending(),
    {
        &self.buffer
    }

    /// The spectrum most recently published.
    pub fn get_spectrum(&self) -> (r: &Vec<T>)
        ensures
            r@ == self.spec_spectrum(),
    {
        &self.spectrum
    }
}

/// The calls of `ingest` that took in `chunks` in turn, one call per chunk:
/// call `k` found `pendings[k]` pending, handed out the windows `outs[k]` and
/// left `pendings[k + 1]` pending, as `ingest` ensures.
pub open spec fn ingest_trace<T>(
    w: nat,
    chunks: Seq<Seq<T>>,
    outs: Seq<Seq<Seq<T>>>,
    pendings: Seq<Seq<T>>,
) -> bool {
    &&& outs.len() == chunks.len()
    &&& pendings.len() == chunks.len() + 1
    &&& pendings[0].len() < w
    &&& forall|k: int|
        0 <= k < chunks.len() ==> {
            &&& #[trigger] outs[k].flatten() + pendings[k + 1] == pendings[k] + chunks[k]
            &&& all_full(outs[k], w)
            &&& pendings[k + 1].len() < w
        }
}

/// No sample is lost or reordered across window boundaries: however a
/// stream of samples is cut into blocks, feeding them to an analyzer with
/// nothing pending completes exactly `floor(N / w)` windows for `N` samples
/// in all, each of `w` samples, and those windows followed by what is still
/// pending are the stream itself.
pub proof fn lemma_no_sample_loss<T>(
    w: nat,
    chunks: Seq<Seq<T>>,
    outs: Seq<Seq<Seq<T>>>,
    pendings: Seq<Seq<T>>,
)
    requires
        0 < w,
        ingest_trace(w, chunks, outs, pendings),
        pendings[0] == Seq::<T>::empty(),
    ensures
        outs.flatten().flatten() + pendings.last() == chunks.flatten(),
        all_full(outs.flatten(), w),
        outs.flatten().len() == chunks.flatten().len() / w,
        pendings.last().len() == chunks.flatten().len() % w,
{
    lemma_trace_concat(w, chunks, outs, pendings);
    assert(pendings[0] + chunks.flatten() =~= chunks.flatten());
    lemma_full_windows_len(outs.flatten(), w);
    lemma_fundamental_div_mod_converse(
        chunks.flatten().len() as int,
        w as int,
        outs.flatten().len() as int,
        pendings.last().len() as int,
    );
}

/// However one stream is cut into blocks, feeding the blocks in turn to an
/// analyzer with nothing pending hands out the same windows, in the same
/// order, and leaves the same samples pending.
pub proof fn lemma_chunking_independent<T>(
    w: nat,
    chunks1: Seq<Seq<T>>,
    outs1: Seq<Seq<Seq<T>>>,
    pendings1: Seq<Seq<T>>,
    chunks2: Seq<Seq<T>>,
    outs2: Seq<Seq<Seq<T>>>,
    pendings2: Seq<Seq<T>>,
)
    requires
        0 < w,
        ingest_trace(w, chunks1, outs1, pendings1),
        ingest_trace(w, chunks2, outs2, pendings2),
        pendings1[0] == Seq::<T>::empty(),
        pendings2[0] == Seq::<T>::empty(),
        chunks1.flatten() == chunks2.flatten(),
    ensures
        outs1.flatten() == outs2.flatten(),
        pendings1.last() == pendings2.last(),
{
    lemma_no_sample_loss(w, chunks1, outs1, pendings1);
    lemma_no_sample_loss(w, chunks2, outs2, pendings2);
    let stream = chunks1.flatten();
    let f1 = outs1.flatten().flatten();
    let f2 = outs2.flatten().flatten();
    let p1 = pendings1.last();
    let p2 = pendings2.last();
    let cut = stream.len() - p1.len();
    assert(f1 =~= stream.subrange(0, cut));
    assert(f2 =~= stream.subrange(0, cut));
    assert(p1 =~= stream.subrange(cut, stream.len() as int));
    assert(p2 =~= stream.subrange(cut, stream.len() as int));
    lemma_full_windows_eq(outs1.flatten(), outs2.flatten(), w);
}

/// Two sequences of full windows with the same samples are the same windows.
proof fn lemma_full_windows_eq<T>(a: Seq<Seq<T>>, b: Seq<Seq<T>>, w: nat)
    requires
        0 < w,
        all_full(a, w),
        all_full(b, w),
        a.len() == b.len(),
        a.flatten() == b.flatten(),
    ensures
        a == b,
    decreases a.len(),
{
    if a.len() > 0 {
        let ra = a.drop_first();
        let rb = b.drop_first();
        assert(all_full(ra, w)) by {
            assert forall|i: int| 0 <= i < ra.len() implies #[trigger] ra[i].len() == w by {
                assert(ra[i] == a[i + 1]);
            }
        }
        assert(all_full(rb, w)) by {
            assert forall|i: int| 0 <= i < rb.len() implies #[trigger] rb[i].len() == w by {
                assert(rb[i] == b[i + 1]);
            }
        }
        assert(a.flatten() == a[0] + ra.flatten());
        assert(b.flatten() == b[0] + rb.flatten());
        assert(a[0].len() == w && b[0].len() == w);
        assert(a[0] =~= a.flatten().subrange(0, w as int));
        assert(b[0] =~= b.flatten().subrange(0, w as int));
        assert(ra.flatten() =~= a.flatten().subrange(w as int, a.flatten().len() as int));
        assert(rb.flatten() =~= b.flatten().subrange(w as int, b.flatten().len() as int));
        lemma_full_windows_eq(ra, rb, w);
        assert(a =~= seq![a[0]] + ra);
        assert(b =~= seq![b[0]] + rb);
    } else {
        assert(a =~= b);
    }
}

proof fn lemma_trace_concat<T>(
    w: nat,
    chunks: Seq<Seq<T>>,
    outs: Seq<Seq<Seq<T>>>,
    pendings: Seq<Seq<T>>,
)
    requires
        ingest_trace(w, chunks, outs, pendings),
    ensures
        outs.flatten().flatten() + pendings.last() == pendings[0] + chunks.flatten(),
        all_full(outs.flatten(), w),
        pendings.last().len() < w,
    decreases chunks.len(),
{
    let n = chunks.len() as int;
    if n == 0 {
        assert(outs =~= Seq::<Seq<Seq<T>>>::empty());
        assert(chunks =~= Seq::<Seq<T>>::empty());
        assert(outs.flatten().flatten() + pendings.last() =~= pendings[0] + chunks.flatten());
    } else {
        let c = chunks.drop_last();
        let o = outs.drop_last();
        let p = pendings.drop_last();
        assert(ingest_trace(w, c, o, p)) by {
            assert forall|k: int| 0 <= k < c.len() implies {
                &&& #[trigger] o[k].flatten() + p[k + 1] == p[k] + c[k]
                &&& all_full(o[k], w)
                &&& p[k + 1].len() < w
            } by {
                assert(o[k] == outs[k]);
                assert(p[k + 1] == pendings[k + 1]);
            }
        }
        lemma_trace_concat(w, c, o, p);
        let last = outs[n - 1];
        assert(outs =~= o.push(last));
        assert(chunks =~= c.push(chunks[n - 1]));
        o.lemma_flatten_push(last);
        c.lemma_flatten_push(chunks[n - 1]);
        lemma_flatten_concat(o.flatten(), last);
        assert(outs.flatten().flatten() == o.flatten().flatten() + last.flatten());
        assert(last.flatten() + pendings[n] == pendings[n - 1] + chunks[n - 1]);
        assert(p.last() == pendings[n - 1]);
        let ff = o.flatten().flatten();
        assert(ff + p.last() == p[0] + c.flatten());
        assert(outs.flatten().flatten() + pendings.last() =~= ff + (last.flatten() + pendings[n]));
        assert(ff + (pendings[n - 1] + chunks[n - 1]) =~= (ff + p.last()) + chunks[n - 1]);
        assert((p[0] + c.flatten()) + chunks[n - 1] =~= pendings[0] + chunks.flatten());
        assert(all_full(outs.flatten(), w)) by {
            assert(all_full(last, w));
            assert forall|i: int| 0 <= i < outs.flatten().len() implies #[trigger] outs.flatten()[i].len() == w by {
                if i < o.flatten().len() {
                    assert(outs.flatten()[i] == o.flatten()[i]);
                } else {
                    assert(outs.flatten()[i] == last[i - o.flatten().len()]);
                }
            }
        }
    }
}

/// Windows of `w` samples each hold `w` times as many samples as there are
/// windows.
proof fn lemma_full_windows_len<T>(ws: Seq<Seq<T>>, w: nat)
    requires
        all_full(ws, w),
    ensures
        ws.flatten().len() == ws.len() * w,
    decreases ws.len(),
{
    if ws.len() > 0 {
        let rest = ws.drop_first();
        assert(all_full(rest, w)) by {
            assert forall|i: int| 0 <= i < rest.len() implies #[trigger] rest[i].len() == w by {
                assert(rest[i] == ws[i + 1]);
            }
        }
        lemma_full_windows_len(rest, w);
        assert(ws[0].len() == w);
        assert(ws.len() * w == w + rest.len() * w) by (nonlinear_arith)
            requires ws.len() == rest.len() + 1;
    }
}

} // verus!
