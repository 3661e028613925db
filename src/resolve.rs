//! Resolving a place URL by driving a browser and watching its address.
//!
//! The decisions live here as a state machine: the caller performs each
//! `Step` (navigate, or wait one interval and read the current address) and
//! hands back what happened.
use vstd::prelude::*;
use crate::extract::{extract, extract_spec, Anchor, Coordinate};

verus! {

/// How many times the address is read before giving up.
pub const POLL_BUDGET: u64 = 100;

/// The wait before each read of the address, in milliseconds.
pub const POLL_INTERVAL_MS: u64 = 100;

#[derive(Clone, Copy, Debug, PartialEq, Eq, Structural)]
pub enum Phase {
    Navigating,
    Polling,
    Finished,
}

#[derive(Clone, Copy, Debug, PartialEq, Eq, Structural)]
pub enum ResolveError {
    /// The address never showed a coordinate within the poll budget.
    Timeout,
    /// The browser session failed to navigate or to report its address.
    Session,
}

/// What the caller is to do next.
pub enum Step {
    /// Open the place URL in the browser.
    Navigate,
    /// Wait one interval, then read the browser's current address.
    Poll,
    Resolved(Coordinate),
    Failed(ResolveError),
}

/// A `Step` with its coordinate as text, longitude first.
pub enum StepView {
    Navigate,
    Poll,
    Resolved((Seq<char>, Seq<char>)),
    Failed(ResolveError),
}

impl View for Step {
    type V = StepView;

    open spec fn view(&self) -> StepView {
        match self {
            Step::Navigate => StepView::Navigate,
            Step::Poll => StepView::Poll,
            Step::Resolved(c) => StepView::Resolved(c@),
            Step::Failed(e) => StepView::Failed(*e),
        }
    }
}

pub struct ResolutionView {
    pub url: Seq<char>,
    pub polls: nat,
    pub phase: Phase,
}

/// Reads done never pass the budget; none before navigation, and one is
/// still owed while polling.
pub open spec fn within_budget(s: ResolutionView) -> bool {
    &&& s.polls <= POLL_BUDGET
    &&& s.phase == Phase::Navigating ==> s.polls == 0
    &&& s.phase == Phase::Polling ==> s.polls < POLL_BUDGET
}

/// A coordinate written in the URL itself settles it with no browser at all.
pub open spec fn start_spec(url: Seq<char>) -> (ResolutionView, StepView) {
    match extract_spec(Anchor::Query, url) {
        Ok(c) => (ResolutionView { url, polls: 0, phase: Phase::Finished }, StepView::Resolved(c)),
        Err(_) => (ResolutionView { url, polls: 0, phase: Phase::Navigating }, StepView::Navigate),
    }
}

pub open spec fn navigated_spec(s: ResolutionView, ok: bool) -> (ResolutionView, StepView) {
    if ok {
        (ResolutionView { phase: Phase::Polling, ..s }, StepView::Poll)
    } else {
        (ResolutionView { phase: Phase::Finished, ..s }, StepView::Failed(ResolveError::Session))
    }
}

/// One read of the address: `None` where the session failed to report it. An
/// address that differs from the place URL is searched for the view center.
pub open spec fn observed_spec(s: ResolutionView, current: Option<Seq<char>>) -> (ResolutionView, StepView) {
    match current {
        None => (ResolutionView { phase: Phase::Finished, ..s }, StepView::Failed(ResolveError::Session)),
        Some(cur) => {
            let polls = s.polls + 1;
            if cur != s.url && extract_spec(Anchor::ViewCenter, cur) is Ok {
                (
                    ResolutionView { url: s.url, polls, phase: Phase::Finished },
                    StepView::Resolved(extract_spec(Anchor::ViewCenter, cur)->Ok_0),
                )
            } else if polls >= POLL_BUDGET {
                (
                    ResolutionView { url: s.url, polls, phase: Phase::Finished },
                    StepView::Failed(ResolveError::Timeout),
                )
            } else {
                (ResolutionView { url: s.url, polls, phase: Phase::Polling }, StepView::Poll)
            }
        },
    }
}

/// Feeds reads of the address one after the other until one ends the polling.
pub open spec fn observe_all(s: ResolutionView, currents: Seq<Option<Seq<char>>>) -> (ResolutionView, StepView)
    decreases currents.len(),
{
    if currents.len() == 0 {
        (s, StepView::Poll)
    } else {
        let (next, step) = observed_spec(s, currents[0]);
        if step is Poll {
            observe_all(next, currents.skip(1))
        } else {
            (next, step)
        }
    }
}

/// A URL that already carries a coordinate in its query is resolved without
/// any navigation, to the very coordinate that extraction finds in it.
pub proof fn law_direct_query_needs_no_browser(url: Seq<char>)
    requires
        extract_spec(Anchor::Query, url) is Ok,
    ensures
        start_spec(url).1 == StepView::Resolved(extract_spec(Anchor::Query, url)->Ok_0),
        start_spec(url).0.phase == Phase::Finished,
{
}

proof fn lemma_unmoving_reads(url: Seq<char>, done: nat, m: nat)
    requires
        done < POLL_BUDGET,
        done + m <= POLL_BUDGET,
    ensures
        ({
            let r = observe_all(
                ResolutionView { url, polls: done, phase: Phase::Polling },
                Seq::new(m, |i: int| Some(url)),
            );
            if done + m < POLL_BUDGET {
                r == (ResolutionView { url, polls: done + m, phase: Phase::Polling }, StepView::Poll)
            } else {
                r == (
                    ResolutionView { url, polls: POLL_BUDGET as nat, phase: Phase::Finished },
                    StepView::Failed(ResolveError::Timeout),
                )
            }
        }),
    decreases m,
{
    if m > 0 {
        let reads = Seq::new(m, |i: int| Some(url));
        assert(reads.skip(1) =~= Seq::new((m - 1) as nat, |i: int| Some(url)));
        if done + 1 < POLL_BUDGET {
            lemma_unmoving_reads(url, done + 1, (m - 1) as nat);
        } else {
            assert(reads.skip(1).len() == 0);
        }
    }
}

/// Where the browser's address never moves off the place URL, every read
/// before the budget asks for another, and the read that exhausts the budget
/// fails the resolution with a timeout: after exactly `POLL_BUDGET` reads.
pub proof fn law_unmoving_address_times_out(url: Seq<char>, reads: nat)
    requires
        extract_spec(Anchor::Query, url) is Err,
        reads <= POLL_BUDGET,
    ensures
        ({
            let polling = navigated_spec(start_spec(url).0, true).0;
            let r = observe_all(polling, Seq::new(reads, |i: int| Some(url)));
            &&& reads < POLL_BUDGET ==> r.1 == StepView::Poll && r.0.polls == reads
            &&& reads == POLL_BUDGET ==> r.1 == StepView::Failed(ResolveError::Timeout) && r.0.polls
                == POLL_BUDGET
        }),
{
    lemma_unmoving_reads(url, 0, reads);
}

/// The resolution of one place URL.
pub struct Resolution {
    url: String,
    polls: u64,
    phase: Phase,
}

impl View for Resolution {
    type V = ResolutionView;

    closed spec fn view(&self) -> ResolutionView {
        ResolutionView { url: self.url@, polls: self.polls as nat, phase: self.phase }
    }
}

impl Resolution {
    /// Begins resolving `url`: either settled at once from a coordinate in the
    /// URL, or a request to navigate there.
    pub fn start(url: &str) -> (r: (Resolution, Step))
        ensures
            (r.0@, r.1@) == start_spec(url@),
            within_budget(r.0@),
    {
        let res = Resolution { url: String::from_str(url), polls: 0, phase: Phase::Navigating };
        match extract(Anchor::Query, url) {
            Ok(c) => (Resolution { phase: Phase::Finished, ..res }, Step::Resolved(c)),
            Err(_) => (res, Step::Navigate),
        }
    }

    /// Takes the outcome of the navigation that `Step::Navigate` asked for.
    pub fn navigated(&mut self, ok: bool) -> (r: Step)
        requires
            old(self)@.phase == Phase::Navigating,
            within_budget(old(self)@),
        ensures
            (final(self)@, r@) == navigated_spec(old(self)@, ok),
            within_budget(final(self)@),
    {
        if ok {
            self.phase = Phase::Polling;
            Step::Poll
        } else {
            self.phase = Phase::Finished;
            Step::Failed(ResolveError::Session)
        }
    }

    /// Takes the address read after a `Step::Poll`, or `None` where the
    /// session failed to report it.
    pub fn observed(&mut self, current: Option<&str>) -> (r: Step)
        requires
            old(self)@.phase == Phase::Polling,
            within_budget(old(self)@),
        ensures
            (final(self)@, r@) == observed_spec(
                old(self)@,
                match current {
                    Some(c) => Some(c@),
                    None => None,
                },
            ),
            within_budget(final(self)@),
    {
        match current {
            None => {
                self.phase = Phase::Finished;
                Step::Failed(ResolveError::Session)
            },
            Some(cur) => {
                self.polls = self.polls + 1;
                let current_url = String::from_str(cur);
                if !(self.url == current_url) {
                    if let Ok(c) = extract(Anchor::ViewCenter, cur) {
                        self.phase = Phase::Finished;
                        return Step::Resolved(c);
                    }
                }
                if self.polls >= POLL_BUDGET {
                    self.phase = Phase::Finished;
                    return Step::Failed(ResolveError::Timeout);
                }
                Step::Poll
            },
        }
    }

    /// The reads of the address done so far.
    pub fn polls(&self) -> (r: u64)
        ensures
            r == self@.polls,
    {
        self.polls
    }

    pub fn url(&self) -> (r: &str)
        ensures
            r@ == self@.url,
    {
        self.url.as_str()
    }

    pub fn phase(&self) -> (r: Phase)
        ensures
            r == self@.phase,
    {
        self.phase
    }
}

} // verus!
