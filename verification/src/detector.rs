//! The falling-edge state machine that turns a stream of tank samples into
//! hot-water use events.
//!
//! Each sample passes through up to three steps. [`EventDetector::record_sample`]
//! files it: a sample that is not strictly after the previous one, or that
//! follows it by more than the allowed gap, restarts the window with itself
//! alone. [`EventDetector::assess`] then reads the temperature trend, which
//! the caller computes from the two newest samples: heating clears any
//! candidate, a fast drop starts one unless an event ended within the
//! debounce time, and a settled temperature resolves the candidate. When the
//! resolved drop is large enough the caller reports it through
//! [`EventDetector::confirm_event`]. Both read the newest sample's instant,
//! so a resolved drop never starts after the instant it ends at.
//!
//! Samples `S` and candidate payloads `P` are the caller's; the detector
//! only orders and keeps them.

use crate::time::{is_instant, whole_seconds, whole_seconds_between, NANOS_PER_SECOND};
use std::collections::VecDeque;
use vstd::prelude::*;

verus! {

/// Samples kept in the window (one hour at one sample per minute).
pub const MAX_SAMPLES: usize = 60usize;

/// How a sample was filed.
#[derive(Debug, Clone, Copy, PartialEq, Eq, Structural)]
pub enum Admission {
    /// The sample broke continuity: the window now holds it alone and no
    /// candidate is open.
    Reset,
    /// The window holds fewer than two samples; no trend can be read.
    Insufficient,
    /// The two newest samples are `elapsed_seconds` whole seconds apart.
    Compare { elapsed_seconds: i128 },
}

/// What the trend of the newest sample means for the open candidate.
pub enum Assessment<P> {
    /// No event is due on this sample.
    Quiet,
    /// A drop began within the debounce time after the last event; it was
    /// ignored.
    Debounced,
    /// The temperature settled after a drop that began at `started_at`; the
    /// candidate is closed and handed back.
    Resolved { started_at: i128, payload: P },
}

/// The timing settings and the state of a detector.
pub struct EventDetectorView<S, P> {
    pub debounce_seconds: u32,
    pub max_sample_gap_seconds: u32,
    pub samples: Seq<(i128, S)>,
    pub last_event_at: Option<i128>,
    pub candidate: Option<(i128, P)>,
}

/// Stateful falling-edge detector over a stream of timestamped samples.
pub struct EventDetector<S, P> {
    debounce_seconds: u32,
    max_sample_gap_seconds: u32,
    /// Ring buffer of recent samples, oldest first.
    samples: VecDeque<(i128, S)>,
    /// When the last event ended.
    last_event_at: Option<i128>,
    /// The open candidate: when its drop began, and the caller's payload.
    candidate: Option<(i128, P)>,
}

impl<S, P> View for EventDetector<S, P> {
    type V = EventDetectorView<S, P>;

    closed spec fn view(&self) -> EventDetectorView<S, P> {
        EventDetectorView {
            debounce_seconds: self.debounce_seconds,
            max_sample_gap_seconds: self.max_sample_gap_seconds,
            samples: self.samples@,
            last_event_at: self.last_event_at,
            candidate: self.candidate,
        }
    }
}

/// Whether a candidate that began at `started_at` respects the debounce time
/// after the event that ended at `last_event_at`.
pub open spec fn outside_debounce(last_event_at: Option<i128>, started_at: i128, debounce_seconds: u32) -> bool {
    match last_event_at {
        None => true,
        Some(l) => whole_seconds(started_at - l) >= debounce_seconds,
    }
}

/// A sample keeps continuity with the window exactly when the window is
/// empty or the sample comes at least one and at most `max_gap` whole
/// seconds after the newest one; filing it appends it as the newest sample,
/// and drops the oldest only when the window would pass [`MAX_SAMPLES`].
pub proof fn lemma_filing_keeps_order_and_size<S>(samples: Seq<(i128, S)>, at: i128, sample: S, max_gap: u32)
    requires
        samples.len() <= MAX_SAMPLES,
    ensures
        continuous(samples, at, max_gap) <==> (samples.len() == 0 || (whole_seconds(
            at - samples[samples.len() - 1].0,
        ) >= 1 && whole_seconds(at - samples[samples.len() - 1].0) <= max_gap)),
        appended(samples, (at, sample)).last() == (at, sample),
        samples.len() < 60 ==> appended(samples, (at, sample)) == samples.push((at, sample)),
        samples.len() == 60 ==> appended(samples, (at, sample)) == samples.subrange(1, 60).push(
            (at, sample),
        ),
{
    if samples.len() == 60 {
        assert(samples.push((at, sample)).drop_first() =~= samples.subrange(1, 60).push((at, sample)));
    }
    if samples.len() < 60 {
        assert(appended(samples, (at, sample)) =~= samples.push((at, sample)));
    }
}

/// A drop that begins fewer than the debounce time's whole seconds after the
/// last event is inside the debounce time; one that begins at least that
/// many whole seconds after it, or with no event before it, is outside.
pub proof fn lemma_debounce_is_whole_seconds_since_last_event(
    last_event_at: Option<i128>,
    started_at: i128,
    debounce_seconds: u32,
)
    ensures
        last_event_at is None ==> outside_debounce(last_event_at, started_at, debounce_seconds),
        last_event_at matches Some(l) ==> (outside_debounce(last_event_at, started_at, debounce_seconds)
            <==> whole_seconds(started_at - l) >= debounce_seconds),
{
}

/// Whether a sample at `later` follows one at `earlier` by at least one and
/// at most `max_gap` whole seconds.
pub open spec fn follows_within(earlier: i128, later: i128, max_gap: u32) -> bool {
    0 < whole_seconds(later - earlier) <= max_gap
}

/// What holds of every detector between calls: the window holds at most
/// [`MAX_SAMPLES`] samples, all at instants of the calendar, each following
/// the one before it by at least one and at most the largest gap of whole
/// seconds; the last event lies in the calendar; and an open candidate began
/// outside the debounce time after the last event, no later than the newest
/// sample.
pub open spec fn detector_wf<S, P>(d: EventDetectorView<S, P>) -> bool {
    &&& d.samples.len() <= MAX_SAMPLES
    &&& forall|i: int| 0 <= i < d.samples.len() ==> is_instant(#[trigger] d.samples[i].0 as int)
    &&& forall|i: int|
        0 <= i < d.samples.len() - 1 ==> follows_within(
            #[trigger] d.samples[i].0,
            d.samples[i + 1].0,
            d.max_sample_gap_seconds,
        )
    &&& match d.last_event_at {
        Some(l) => is_instant(l as int),
        None => true,
    }
    &&& match d.candidate {
        Some(c) => {
            &&& outside_debounce(d.last_event_at, c.0, d.debounce_seconds)
            &&& d.samples.len() > 0
            &&& c.0 <= d.samples.last().0
        },
        None => true,
    }
}

/// Whether `at` is the instant of the newest sample in the window.
pub open spec fn is_newest<S>(samples: Seq<(i128, S)>, at: i128) -> bool {
    samples.len() > 0 && samples.last().0 == at
}

/// Whether a sample at `at` keeps continuity with the window: the window is
/// empty, or `at` follows its newest sample by at least one and at most
/// `max_gap` whole seconds.
pub open spec fn continuous<S>(samples: Seq<(i128, S)>, at: i128, max_gap: u32) -> bool {
    samples.len() == 0 || {
        let gap = whole_seconds(at - samples.last().0);
        0 < gap <= max_gap
    }
}

/// The window after filing a continuous sample: appended, and trimmed to
/// [`MAX_SAMPLES`] by dropping the oldest.
pub open spec fn appended<S>(samples: Seq<(i128, S)>, entry: (i128, S)) -> Seq<(i128, S)> {
    let grown = samples.push(entry);
    if grown.len() > MAX_SAMPLES {
        grown.drop_first()
    } else {
        grown
    }
}

impl<S, P> EventDetector<S, P> {
    /// A detector with the given debounce time and largest sample gap, an
    /// empty window, no past event and no candidate.
    pub fn new(debounce_seconds: u32, max_sample_gap_seconds: u32) -> (d: EventDetector<S, P>)
        ensures
            d@.debounce_seconds == debounce_seconds,
            d@.max_sample_gap_seconds == max_sample_gap_seconds,
            d@.samples.len() == 0,
            d@.last_event_at is None,
            d@.candidate is None,
            detector_wf(d@),
    {
        EventDetector {
            debounce_seconds,
            max_sample_gap_seconds,
            samples: VecDeque::new(),
            last_event_at: None,
            candidate: None,
        }
    }

    /// Number of samples in the window.
    pub fn sample_count(&self) -> (n: usize)
        ensures
            n == self@.samples.len(),
    {
        self.samples.len()
    }

    /// Whether a candidate drop is open.
    pub fn has_candidate(&self) -> (b: bool)
        ensures
            b == self@.candidate is Some,
    {
        self.candidate.is_some()
    }

    /// The sample before the newest one.
    pub fn previous(&self) -> (s: &S)
        requires
            self@.samples.len() >= 2,
        ensures
            *s == self@.samples[self@.samples.len() - 2].1,
    {
        let n = self.samples.len();
        &self.samples[n - 2].1
    }

    /// Files the sample `sample` taken at `at`.
    pub fn record_sample(&mut self, at: i128, sample: S) -> (a: Admission)
        requires
            detector_wf(old(self)@),
            is_instant(at as int),
        ensures
            detector_wf(final(self)@),
            final(self)@.debounce_seconds == old(self)@.debounce_seconds,
            final(self)@.max_sample_gap_seconds == old(self)@.max_sample_gap_seconds,
            final(self)@.last_event_at == old(self)@.last_event_at,
            !continuous(old(self)@.samples, at, old(self)@.max_sample_gap_seconds) ==> {
                &&& a == Admission::Reset
                &&& final(self)@.samples == seq![(at, sample)]
                &&& final(self)@.candidate is None
            },
            continuous(old(self)@.samples, at, old(self)@.max_sample_gap_seconds) ==> {
                &&& final(self)@.samples == appended(old(self)@.samples, (at, sample))
                &&& final(self)@.candidate == old(self)@.candidate
                &&& final(self)@.samples.len() < 2 ==> a == Admission::Insufficient
                &&& final(self)@.samples.len() >= 2 ==> a == (Admission::Compare {
                    elapsed_seconds: whole_seconds(at - old(self)@.samples.last().0) as i128,
                })
            },
            a matches Admission::Compare { elapsed_seconds } ==> elapsed_seconds > 0,
    {
        let n = self.samples.len();
        let mut gap: i128 = 0;
        if n > 0 {
            let last_at = self.samples[n - 1].0;
            proof {
                assert(is_instant(self.samples@[n - 1].0 as int));
            }
            gap = whole_seconds_between(last_at, at);
            if gap <= 0 || gap > self.max_sample_gap_seconds as i128 {
                self.samples.clear();
                self.candidate = None;
                self.samples.push_back((at, sample));
                proof {
                    assert(self.samples@ =~= seq![(at, sample)]);
                }
                return Admission::Reset;
            }
        }
        let ghost before = self.samples@;
        self.samples.push_back((at, sample));
        if self.samples.len() > MAX_SAMPLES {
            let _ = self.samples.pop_front();
        }
        proof {
            if n > 0 {
                assert(at > before.last().0) by {
                    if at <= before.last().0 {
                        assert(-((-(at - before.last().0)) / NANOS_PER_SECOND as int) <= 0);
                    }
                }
            }
            assert(self.samples@ =~= appended(before, (at, sample)));
            let grown = before.push((at, sample));
            let off: int = if before.len() + 1 > MAX_SAMPLES {
                1
            } else {
                0
            };
            assert forall|i: int| 0 <= i < self.samples@.len() implies is_instant(
                #[trigger] self.samples@[i].0 as int,
            ) by {
                assert(self.samples@[i] == grown[i + off]);
            }
            assert forall|i: int| 0 <= i < self.samples@.len() - 1 implies follows_within(
                #[trigger] self.samples@[i].0,
                self.samples@[i + 1].0,
                self.max_sample_gap_seconds,
            ) by {
                assert(self.samples@[i] == grown[i + off]);
                assert(self.samples@[i + 1] == grown[i + 1 + off]);
                if i + 1 + off == before.len() {
                    assert(grown[i + off] == before[before.len() - 1]);
                } else {
                    assert(grown[i + off] == before[i + off]);
                    assert(grown[i + 1 + off] == before[i + 1 + off]);
                }
            }
        }
        if self.samples.len() < 2 {
            Admission::Insufficient
        } else {
            Admission::Compare { elapsed_seconds: gap }
        }
    }

    /// Reads the trend of the newest sample, taken at `at`: `heating_active`
    /// when the element heats, `dropping_fast` when the temperature falls at
    /// least at the drop threshold, `settled` when it falls slower than the
    /// recovery threshold. `start` is the payload a new candidate keeps.
    pub fn assess(
        &mut self,
        at: i128,
        heating_active: bool,
        dropping_fast: bool,
        settled: bool,
        start: P,
    ) -> (r: Assessment<P>)
        requires
            detector_wf(old(self)@),
            is_newest(old(self)@.samples, at),
        ensures
            detector_wf(final(self)@),
            final(self)@.debounce_seconds == old(self)@.debounce_seconds,
            final(self)@.max_sample_gap_seconds == old(self)@.max_sample_gap_seconds,
            final(self)@.samples == old(self)@.samples,
            final(self)@.last_event_at == old(self)@.last_event_at,
            heating_active ==> r is Quiet && final(self)@.candidate is None,
            (!heating_active && dropping_fast && old(self)@.candidate is None) ==> (old(
                self,
            )@.last_event_at matches Some(l) && whole_seconds(at - l) < old(self)@.debounce_seconds ==> {
                &&& r is Debounced
                &&& final(self)@.candidate is None
            }),
            final(self)@.candidate matches Some(c) ==> (old(self)@.last_event_at matches Some(l)
                ==> whole_seconds(c.0 - l) >= old(self)@.debounce_seconds),
            r matches Assessment::Resolved { started_at, .. } ==> {
                &&& outside_debounce(old(self)@.last_event_at, started_at, old(self)@.debounce_seconds)
                &&& started_at <= at
            },
            !heating_active ==> {
                let opens = dropping_fast && old(self)@.candidate is None;
                let allowed = outside_debounce(old(self)@.last_event_at, at, old(self)@.debounce_seconds);
                if opens && !allowed {
                    r is Debounced && final(self)@.candidate is None
                } else {
                    let open: Option<(i128, P)> = if opens {
                        Some((at, start))
                    } else {
                        old(self)@.candidate
                    };
                    if open is Some && settled {
                        let c = open->0;
                        &&& r == (Assessment::Resolved { started_at: c.0, payload: c.1 })
                        &&& final(self)@.candidate is None
                    } else {
                        r is Quiet && final(self)@.candidate == open
                    }
                }
            },
    {
        proof {
            assert(is_instant(self.samples@[self.samples@.len() - 1].0 as int));
        }
        if heating_active {
            self.candidate = None;
            return Assessment::Quiet;
        }
        if dropping_fast && self.candidate.is_none() {
            if let Some(last_at) = self.last_event_at {
                let since = whole_seconds_between(last_at, at);
                if since < self.debounce_seconds as i128 {
                    return Assessment::Debounced;
                }
            }
            self.candidate = Some((at, start));
        }
        if self.candidate.is_some() && settled {
            let (started_at, payload) = self.candidate.take().unwrap();
            return Assessment::Resolved { started_at, payload };
        }
        Assessment::Quiet
    }

    /// Records that an event ended at `at`, the instant of the newest sample.
    pub fn confirm_event(&mut self, at: i128)
        requires
            detector_wf(old(self)@),
            old(self)@.candidate is None,
            is_newest(old(self)@.samples, at),
        ensures
            detector_wf(final(self)@),
            final(self)@ == (EventDetectorView { last_event_at: Some(at), ..old(self)@ }),
    {
        proof {
            assert(is_instant(self.samples@[self.samples@.len() - 1].0 as int));
        }
        self.last_event_at = Some(at);
    }
}

} // verus!
