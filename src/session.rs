//! A streaming session: the filter tuning and the spectrum analyzer of one
//! capture-to-playback run, with its lifecycle `Created -> Playing ->
//! Finished`. Once finished, a session ignores every further block, spectrum
//! and command.
use vstd::prelude::*;
use crate::control::{Command, CutoffRequest};
use crate::spectrum::{AnalyzerError, SpectrumAnalyzer, all_full, window_views};
use crate::tuning::{
    DEFAULT_MIN_FREQ, FilterChain, FilterDesign, FilterError, FilterKind, clamp, max_freq_of,
    other_kind,
};

verus! {

#[derive(Clone, Copy, Debug, PartialEq, Eq, Structural)]
pub enum Phase {
    Created,
    Playing,
    Finished,
}

/// Why a session could not be set up.
#[derive(Clone, Copy, Debug, PartialEq, Eq, Structural)]
pub enum SessionError {
    Filter(FilterError),
    Analyzer(AnalyzerError),
}

/// What a control command did.
#[derive(Clone, Copy, Debug, PartialEq, Eq, Structural)]
pub enum ControlOutcome {
    /// The stage of this kind now has this cutoff, in hertz.
    Retuned(FilterKind, u32),
    /// The session is finished.
    Finished,
    /// The session was already finished; nothing changed.
    Ignored,
}

/// The operations on a session, as far as its phase is concerned.
pub enum SessionOp {
    Start,
    Finish,
    Block,
    Publish,
    Control(Command),
}

/// The phase after one operation.
pub open spec fn phase_after(p: Phase, op: SessionOp) -> Phase {
    match op {
        SessionOp::Start => if p == Phase::Created {
            Phase::Playing
        } else {
            p
        },
        SessionOp::Finish => Phase::Finished,
        SessionOp::Control(Command::Quit) => Phase::Finished,
        _ => p,
    }
}

/// The phase after a sequence of operations, in order.
pub open spec fn phase_after_all(p: Phase, ops: Seq<SessionOp>) -> Phase
    decreases ops.len(),
{
    if ops.len() == 0 {
        p
    } else {
        phase_after_all(phase_after(p, ops[0]), ops.drop_first())
    }
}

/// Once a session is finished it stays finished, whatever is done to it
/// afterwards, so `is_finished` keeps answering `true`.
pub proof fn lemma_finished_is_final(ops: Seq<SessionOp>)
    ensures
        phase_after_all(Phase::Finished, ops) == Phase::Finished,
    decreases ops.len(),
{
    if ops.len() > 0 {
        lemma_finished_is_final(ops.drop_first());
    }
}

pub struct StreamSession<T> {
    phase: Phase,
    chain: FilterChain,
    analyzer: SpectrumAnalyzer<T>,
}

impl<T: Copy> StreamSession<T> {
    pub closed spec fn spec_phase(self) -> Phase {
        self.phase
    }

    pub closed spec fn spec_chain(self) -> FilterChain {
        self.chain
    }

    pub closed spec fn spec_analyzer(self) -> SpectrumAnalyzer<T> {
        self.analyzer
    }

    /// A session at the given sampling rate whose analyzer has windows of
    /// `buffer_size` samples and displays `bins` values, with both stages
    /// letting the whole band through. Fails where the sampling rate leaves
    /// no band, or where the analyzer's configuration is invalid.
    pub fn new(sample_rate: u32, bins: usize, buffer_size: usize, silence: T) -> (r: Result<
        Self,
        SessionError,
    >)
        ensures
            r is Ok <==> (FilterChain::band_ok(sample_rate as int) && 0 < buffer_size && bins
                <= buffer_size),
            !FilterChain::band_ok(sample_rate as int) ==> r == Err::<Self, SessionError>(
                SessionError::Filter(FilterError::InvalidFrequency),
            ),
            FilterChain::band_ok(sample_rate as int) && !(0 < buffer_size && bins <= buffer_size)
                ==> r == Err::<Self, SessionError>(
                SessionError::Analyzer(AnalyzerError::InvalidConfiguration),
            ),
            r matches Ok(s) ==> {
                &&& s.spec_phase() == Phase::Created
                &&& s.spec_chain().spec_sample_rate() == sample_rate
                &&& s.spec_chain().spec_min_freq() == DEFAULT_MIN_FREQ
                &&& s.spec_chain().spec_max_freq() == max_freq_of(sample_rate as int)
                &&& s.spec_chain().spec_stage(FilterKind::LowPass) == (FilterDesign {
                    kind: FilterKind::LowPass,
                    cutoff: max_freq_of(sample_rate as int) as u32,
                    sample_rate,
                })
                &&& s.spec_chain().spec_stage(FilterKind::HighPass) == (FilterDesign {
                    kind: FilterKind::HighPass,
                    cutoff: DEFAULT_MIN_FREQ,
                    sample_rate,
                })
                &&& s.spec_analyzer().spec_bins() == bins
                &&& s.spec_analyzer().spec_buffer_size() == buffer_size
                &&& s.spec_analyzer().spec_pending() == Seq::<T>::empty()
                &&& s.spec_analyzer().spec_spectrum() == Seq::new(
                    buffer_size as nat,
                    |i: int| silence,
                )
            },
    {
        let chain = match FilterChain::new(sample_rate) {
            Ok(c) => c,
            Err(e) => {
                return Err(SessionError::Filter(e));
            },
        };
        let analyzer = match SpectrumAnalyzer::new(bins, buffer_size, silence) {
            Ok(a) => a,
            Err(e) => {
                return Err(SessionError::Analyzer(e));
            },
        };
        Ok(StreamSession { phase: Phase::Created, chain, analyzer })
    }

    pub fn phase(&self) -> (r: Phase)
        ensures
            r == self.spec_phase(),
    {
        self.phase
    }

    pub fn is_finished(&self) -> (r: bool)
        ensures
            r == (self.spec_phase() == Phase::Finished),
    {
        self.phase == Phase::Finished
    }

    /// Begins playing; only a session that was just created starts.
    pub fn start(&mut self)
        ensures
            final(self).spec_phase() == phase_after(old(self).spec_phase(), SessionOp::Start),
            final(self).spec_chain() == old(self).spec_chain(),
            final(self).spec_analyzer() == old(self).spec_analyzer(),
    {
        if self.phase == Phase::Created {
            self.phase = Phase::Playing;
        }
    }

    /// Ends the session, from whatever phase: on a termination request, at
    /// the end of the input, or on a failure of the transport.
    pub fn finish(&mut self)
        ensures
            final(self).spec_phase() == phase_after(old(self).spec_phase(), SessionOp::Finish),
            final(self).spec_chain() == old(self).spec_chain(),
            final(self).spec_analyzer() == old(self).spec_analyzer(),
    {
        self.phase = Phase::Finished;
    }

    /// Feeds a block to the analyzer and returns the windows it completed,
    /// for the caller to transform. A finished session takes nothing in and
    /// hands out no window.
    pub fn ingest(&mut self, samples: &[T]) -> (windows: Vec<Vec<T>>)
        ensures
            final(self).spec_phase() == phase_after(old(self).spec_phase(), SessionOp::Block),
            final(self).spec_chain() == old(self).spec_chain(),
            old(self).spec_phase() == Phase::Finished ==> {
                &&& windows@.len() == 0
                &&& *final(self) == *old(self)
            },
            old(self).spec_phase() != Phase::Finished ==> {
                let before = old(self).spec_analyzer();
                let after = final(self).spec_analyzer();
                let w = before.spec_buffer_size();
                &&& window_views(windows@).flatten() + after.spec_pending() == before.spec_pending()
                    + samples@
                &&& all_full(window_views(windows@), w)
                &&& windows@.len() == (before.spec_pending().len() + samples@.len()) / w
                &&& after.spec_bins() == before.spec_bins()
                &&& after.spec_buffer_size() == w
                &&& after.spec_spectrum() == before.spec_spectrum()
            },
    {
        if self.phase == Phase::Finished {
            return Vec::new();
        }
        self.analyzer.ingest(samples)
    }

    /// Publishes the spectrum of a completed window. A finished session
    /// keeps the spectrum it had.
    pub fn publish(&mut self, spectrum: Vec<T>) -> (r: Result<(), AnalyzerError>)
        ensures
            final(self).spec_phase() == phase_after(old(self).spec_phase(), SessionOp::Publish),
            final(self).spec_chain() == old(self).spec_chain(),
            old(self).spec_phase() == Phase::Finished ==> r is Ok && *final(self) == *old(self),
            old(self).spec_phase() != Phase::Finished ==> {
                let before = old(self).spec_analyzer();
                let after = final(self).spec_analyzer();
                &&& r is Ok <==> spectrum@.len() == before.spec_buffer_size()
                &&& r is Err ==> r->Err_0 == AnalyzerError::LengthMismatch
                &&& after.spec_spectrum() == (if r is Ok {
                    spectrum@
                } else {
                    before.spec_spectrum()
                })
                &&& after.spec_pending() == before.spec_pending()
                &&& after.spec_bins() == before.spec_bins()
                &&& after.spec_buffer_size() == before.spec_buffer_size()
            },
    {
        if self.phase == Phase::Finished {
            return Ok(());
        }
        self.analyzer.publish(spectrum)
    }

    /// Carries out a control command: a cutoff request retunes exactly its
    /// stage, clamped into the band; `Quit` finishes the session. A finished
    /// session ignores every command.
    pub fn control(&mut self, cmd: Command) -> (r: ControlOutcome)
        ensures
            final(self).spec_phase() == (if old(self).spec_phase() == Phase::Finished {
                Phase::Finished
            } else {
                phase_after(old(self).spec_phase(), SessionOp::Control(cmd))
            }),
            final(self).spec_analyzer() == old(self).spec_analyzer(),
            old(self).spec_phase() == Phase::Finished ==> r == ControlOutcome::Ignored
                && *final(self) == *old(self),
            old(self).spec_phase() != Phase::Finished ==> r == outcome_of(
                old(self).spec_chain(),
                cmd,
            ),
            old(self).spec_phase() != Phase::Finished ==> match cmd {
                Command::Quit => final(self).spec_chain() == old(self).spec_chain(),
                Command::Cutoff(k, _) => {
                    let before = old(self).spec_chain();
                    let after = final(self).spec_chain();
                    &&& r matches ControlOutcome::Retuned(rk, hz) && rk == k
                        && after.spec_stage(k) == (FilterDesign {
                        kind: k,
                        cutoff: hz,
                        sample_rate: before.spec_stage(k).sample_rate,
                    })
                    &&& after.spec_stage(other_kind(k)) == before.spec_stage(other_kind(k))
                    &&& after.spec_min_freq() == before.spec_min_freq()
                    &&& after.spec_max_freq() == before.spec_max_freq()
                    &&& after.spec_sample_rate() == before.spec_sample_rate()
                },
            },
    {
        if self.phase == Phase::Finished {
            return ControlOutcome::Ignored;
        }
        match cmd {
            Command::Quit => {
                self.phase = Phase::Finished;
                ControlOutcome::Finished
            },
            Command::Cutoff(k, req) => {
                let hz = match req {
                    CutoffRequest::Reset => self.chain.reset_cutoff(k),
                    CutoffRequest::To(f) => self.chain.set_cutoff(k, f as i64),
                    CutoffRequest::Shift(d) => self.chain.adjust_cutoff(k, d),
                };
                ControlOutcome::Retuned(k, hz)
            },
        }
    }

    /// The tuning of the two filter stages.
    pub fn chain(&self) -> (r: &FilterChain)
        ensures
            *r == self.spec_chain(),
    {
        &self.chain
    }

    /// The analyzer, with its pending samples and published spectrum.
    pub fn analyzer(&self) -> (r: &SpectrumAnalyzer<T>)
        ensures
            *r == self.spec_analyzer(),
    {
        &self.analyzer
    }
}

/// What a command does to a running session with the given tuning.
pub open spec fn outcome_of(chain: FilterChain, cmd: Command) -> ControlOutcome {
    match cmd {
        Command::Quit => ControlOutcome::Finished,
        Command::Cutoff(k, CutoffRequest::Reset) => ControlOutcome::Retuned(
            k,
            match k {
                FilterKind::LowPass => chain.spec_max_freq(),
                FilterKind::HighPass => chain.spec_min_freq(),
            } as u32,
        ),
        Command::Cutoff(k, CutoffRequest::To(f)) => ControlOutcome::Retuned(
            k,
            clamp(f as int, chain.spec_min_freq(), chain.spec_max_freq()) as u32,
        ),
        Command::Cutoff(k, CutoffRequest::Shift(d)) => ControlOutcome::Retuned(
            k,
            clamp(chain.spec_cutoff(k) + d, chain.spec_min_freq(), chain.spec_max_freq()) as u32,
        ),
    }
}

} // verus!
