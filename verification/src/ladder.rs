//! Walking the ladder: the ids of all players that stand in a list of
//! tiers and divisions.
//!
//! An apex tier is fetched as one list. Every other tier and division is
//! fetched page by page, from page one until a page comes back empty. When a
//! fetch fails, the whole pair is tried again from its first page after a
//! rest; the fifth failure at one pair is fatal for the walk. The ids come
//! out in the order of the pairs and, inside a pair, of the pages; an id may
//! occur more than once.
//!
//! An [`Enumerator`] says which fetch comes next and takes what came of it as
//! a [`LadderEvent`].

use crate::rank::Tier;
use vstd::prelude::*;
use vstd::string::*;

verus! {

/// How often one tier and division is tried before the walk gives up.
pub const MAX_ATTEMPTS: u32 = 5;

/// How long to rest before a pair is tried again, in seconds.
pub const RETRY_DELAY: u64 = 20;

/// The number of the first page.
pub const FIRST_PAGE: i32 = 1;

/// Why a walk was given up.
#[derive(Clone, Copy, Debug, PartialEq, Eq, Structural)]
pub enum LadderFailure {
    /// Every attempt at one tier and division failed.
    Exhausted,
    /// A tier has more pages than can be numbered.
    TooManyPages,
    /// An event arrived that does not answer what was asked for.
    Protocol,
}

/// How far a walk has got.
#[derive(Clone, Copy, Debug, PartialEq, Eq, Structural)]
pub enum LadderPhase {
    /// A fetch for the current pair is under way.
    Requesting,
    /// The walk rests before it tries the current pair again.
    Resting,
    /// Every pair was fetched.
    Finished,
    /// The walk was given up.
    Fatal(LadderFailure),
}

/// What came of what the enumerator asked for.
#[derive(Debug, PartialEq, Eq)]
pub enum LadderEvent {
    /// The fetch delivered the ids of these entries, in their order.
    Entries(Vec<String>),
    /// The fetch failed.
    Failed,
    /// The rest is over.
    Rested,
}

/// What comes next.
#[derive(Debug, PartialEq, Eq)]
pub enum LadderAction {
    /// Fetch the whole list of this apex tier.
    FetchApex(Tier),
    /// Fetch one page of a tier and division.
    FetchPage { tier: String, division: String, page: i32 },
    /// Rest for this many seconds.
    Rest(u64),
    /// The walk is complete.
    Finish,
    /// The walk is given up.
    Fatal(LadderFailure),
}

/// [`LadderEvent`] as plain text.
pub enum LadderEventView {
    Entries(Seq<Seq<char>>),
    Failed,
    Rested,
}

/// [`LadderAction`] as plain text.
pub enum LadderActionView {
    FetchApex(Tier),
    FetchPage { tier: Seq<char>, division: Seq<char>, page: i32 },
    Rest(u64),
    Finish,
    Fatal(LadderFailure),
}

impl View for LadderEvent {
    type V = LadderEventView;

    open spec fn view(&self) -> LadderEventView {
        match self {
            LadderEvent::Entries(ids) => LadderEventView::Entries(ids.deep_view()),
            LadderEvent::Failed => LadderEventView::Failed,
            LadderEvent::Rested => LadderEventView::Rested,
        }
    }
}

impl View for LadderAction {
    type V = LadderActionView;

    open spec fn view(&self) -> LadderActionView {
        match self {
            LadderAction::FetchApex(tier) => LadderActionView::FetchApex(*tier),
            LadderAction::FetchPage { tier, division, page } => LadderActionView::FetchPage {
                tier: tier@,
                division: division@,
                page: *page,
            },
            LadderAction::Rest(seconds) => LadderActionView::Rest(*seconds),
            LadderAction::Finish => LadderActionView::Finish,
            LadderAction::Fatal(failure) => LadderActionView::Fatal(*failure),
        }
    }
}

/// The apex tier that a tier name stands for, if it stands for one.
pub open spec fn apex_of(tier: Seq<char>) -> Option<Tier> {
    match Tier::from_label(tier) {
        Some(t) => if t.is_apex() {
            Some(t)
        } else {
            None
        },
        None => None,
    }
}

/// The state of a walk as plain values.
pub struct LadderView {
    /// The tiers and divisions to fetch, in order.
    pub pairs: Seq<(Seq<char>, Seq<char>)>,
    /// How many pairs are complete.
    pub index: nat,
    /// How many attempts at the current pair have failed.
    pub failures: nat,
    /// The page that is asked for next, where the current pair has pages.
    pub page: i32,
    /// The ids of the pages fetched in the current attempt.
    pub gathered: Seq<Seq<char>>,
    /// The ids of the pairs that are complete.
    pub output: Seq<Seq<char>>,
    /// How far the walk has got.
    pub phase: LadderPhase,
}

impl LadderView {
    /// What the state of a walk always satisfies: while a pair is fetched or
    /// rested for, fewer than [`MAX_ATTEMPTS`] attempts at it have failed; never
    /// have more than that many, and exactly that many when the walk was given
    /// up for it.
    pub open spec fn wf(self) -> bool {
        &&& self.index <= self.pairs.len()
        &&& self.failures <= MAX_ATTEMPTS
        &&& self.page >= FIRST_PAGE
        &&& (self.phase is Requesting || self.phase is Resting) ==> self.index < self.pairs.len()
            && self.failures < MAX_ATTEMPTS
        &&& self.phase is Finished ==> self.index == self.pairs.len()
        &&& self.failures == MAX_ATTEMPTS <==> self.phase == LadderPhase::Fatal(
            LadderFailure::Exhausted,
        )
    }

    /// How many attempts at the current pair were begun.
    pub open spec fn attempts(self) -> nat {
        if self.phase is Requesting {
            self.failures + 1
        } else {
            self.failures
        }
    }

    /// The walk is given up.
    pub open spec fn given_up(self, failure: LadderFailure) -> (LadderView, LadderActionView) {
        (
            LadderView { phase: LadderPhase::Fatal(failure), ..self },
            LadderActionView::Fatal(failure),
        )
    }

    /// Begins an attempt at the current pair, or ends the walk where no pair
    /// is left.
    pub open spec fn attempt(self) -> (LadderView, LadderActionView) {
        if self.index >= self.pairs.len() {
            (LadderView { phase: LadderPhase::Finished, ..self }, LadderActionView::Finish)
        } else {
            let pair = self.pairs[self.index as int];
            let started = LadderView {
                phase: LadderPhase::Requesting,
                page: FIRST_PAGE,
                gathered: Seq::empty(),
                ..self
            };
            match apex_of(pair.0) {
                Some(tier) => (started, LadderActionView::FetchApex(tier)),
                None => (
                    started,
                    LadderActionView::FetchPage { tier: pair.0, division: pair.1, page: FIRST_PAGE },
                ),
            }
        }
    }

    /// The current pair is complete with the ids `ids`: they join the output,
    /// and the walk goes on to the next pair.
    pub open spec fn completed(self, ids: Seq<Seq<char>>) -> (LadderView, LadderActionView) {
        (LadderView {
            output: self.output + ids,
            index: self.index + 1,
            failures: 0,
            page: FIRST_PAGE,
            gathered: Seq::empty(),
            ..self
        }).attempt()
    }

    /// The walk over `pairs`, and what it asks for first.
    pub open spec fn begin(pairs: Seq<(Seq<char>, Seq<char>)>) -> (LadderView, LadderActionView) {
        (LadderView {
            pairs,
            index: 0,
            failures: 0,
            page: FIRST_PAGE,
            gathered: Seq::empty(),
            output: Seq::empty(),
            phase: LadderPhase::Requesting,
        }).attempt()
    }

    /// The state after `event`, and what comes next.
    pub open spec fn next(self, event: LadderEventView) -> (LadderView, LadderActionView) {
        match self.phase {
            LadderPhase::Finished => (self, LadderActionView::Finish),
            LadderPhase::Fatal(failure) => (self, LadderActionView::Fatal(failure)),
            LadderPhase::Resting => match event {
                LadderEventView::Rested => self.attempt(),
                _ => self.given_up(LadderFailure::Protocol),
            },
            LadderPhase::Requesting => match event {
                LadderEventView::Rested => self.given_up(LadderFailure::Protocol),
                LadderEventView::Failed => if self.failures + 1 >= MAX_ATTEMPTS {
                    (LadderView {
                        failures: self.failures + 1,
                        ..self
                    }).given_up(LadderFailure::Exhausted)
                } else {
                    (
                        LadderView {
                            failures: self.failures + 1,
                            phase: LadderPhase::Resting,
                            ..self
                        },
                        LadderActionView::Rest(RETRY_DELAY),
                    )
                },
                LadderEventView::Entries(ids) => {
                    let pair = self.pairs[self.index as int];
                    if apex_of(pair.0) is Some {
                        self.completed(ids)
                    } else if ids.len() == 0 {
                        self.completed(self.gathered)
                    } else if self.page == i32::MAX {
                        self.given_up(LadderFailure::TooManyPages)
                    } else {
                        (
                            LadderView {
                                gathered: self.gathered + ids,
                                page: (self.page + 1) as i32,
                                ..self
                            },
                            LadderActionView::FetchPage {
                                tier: pair.0,
                                division: pair.1,
                                page: (self.page + 1) as i32,
                            },
                        )
                    }
                },
            },
        }
    }

    /// The state after the events `events`, in their order.
    pub open spec fn after(self, events: Seq<LadderEventView>) -> LadderView
        decreases events.len(),
    {
        if events.len() == 0 {
            self
        } else {
            self.after(events.drop_last()).next(events.last()).0
        }
    }

    /// The state after `n` attempts in a row have failed at once, each but
    /// the last followed by a rest where the walk asked for one.
    pub open spec fn after_failures(self, n: nat) -> LadderView
        decreases n,
    {
        if n == 0 {
            self
        } else {
            let before = self.after_failures((n - 1) as nat);
            let rested = if before.phase is Resting {
                before.next(LadderEventView::Rested).0
            } else {
                before
            };
            rested.next(LadderEventView::Failed).0
        }
    }
}

/// One step of a walk keeps its state well-formed: at no time have more than
/// five attempts at one pair been begun.
pub proof fn lemma_step_keeps_wf(s: LadderView, event: LadderEventView)
    requires
        s.wf(),
    ensures
        s.next(event).0.wf(),
        s.next(event).0.attempts() <= MAX_ATTEMPTS,
        s.next(event).0.pairs == s.pairs,
{
}

/// Whatever the fetches deliver and however often they fail, a walk never
/// begins a sixth attempt at a pair, and it is given up for failures exactly
/// when the fifth attempt at a pair has failed.
pub proof fn lemma_no_sixth_attempt(pairs: Seq<(Seq<char>, Seq<char>)>, events: Seq<LadderEventView>)
    ensures
        ({
            let s = LadderView::begin(pairs).0.after(events);
            &&& s.wf()
            &&& s.pairs == pairs
            &&& s.attempts() <= MAX_ATTEMPTS
            &&& s.phase == LadderPhase::Fatal(LadderFailure::Exhausted) <==> s.failures
                == MAX_ATTEMPTS
        }),
    decreases events.len(),
{
    if events.len() > 0 {
        lemma_no_sixth_attempt(pairs, events.drop_last());
        lemma_step_keeps_wf(LadderView::begin(pairs).0.after(events.drop_last()), events.last());
    }
}

/// The events of fetches that deliver the pages `pages`, one after another.
pub open spec fn page_events(pages: Seq<Seq<Seq<char>>>) -> Seq<LadderEventView> {
    Seq::new(pages.len(), |i: int| LadderEventView::Entries(pages[i]))
}

/// A tier and division whose pages are all fetched is complete with the ids
/// of its pages in their order: when an attempt gets the pages `pages`, none
/// of them empty, and then an empty page, exactly the ids of `pages` are added
/// to the output, behind what was there, and the walk goes on to the next
/// pair.
pub proof fn lemma_pages_join_the_output(s: LadderView, pages: Seq<Seq<Seq<char>>>)
    requires
        s.wf(),
        s.phase is Requesting,
        apex_of(s.pairs[s.index as int].0) is None,
        s.page == FIRST_PAGE,
        s.gathered == Seq::<Seq<char>>::empty(),
        pages.len() < i32::MAX,
        forall|i: int| 0 <= i < pages.len() ==> (#[trigger] pages[i]).len() > 0,
    ensures
        ({
            let fetched = s.after(page_events(pages));
            let done = fetched.next(LadderEventView::Entries(Seq::empty()));
            &&& fetched == (LadderView {
                gathered: pages.flatten(),
                page: (FIRST_PAGE + pages.len()) as i32,
                ..s
            })
            &&& done == s.completed(pages.flatten())
            &&& done.0.output == s.output + pages.flatten()
            &&& done.0.index == s.index + 1
        }),
    decreases pages.len(),
{
    let events = page_events(pages);
    if pages.len() == 0 {
        assert(pages.flatten() =~= Seq::<Seq<char>>::empty());
    } else {
        let before = pages.drop_last();
        lemma_pages_join_the_output(s, before);
        assert(events.drop_last() =~= page_events(before));
        assert(events.last() == LadderEventView::Entries(pages.last()));
        assert(pages =~= before.push(pages.last()));
        before.lemma_flatten_push(pages.last());
    }
}

/// A failed fetch fails the attempt, at whatever page it happens: what the
/// attempt has gathered is not used. Below the fifth failure the walk rests
/// and then begins the same pair again at its first page; the fifth failure
/// is fatal.
pub proof fn lemma_failed_attempt(s: LadderView)
    requires
        s.wf(),
        s.phase is Requesting,
    ensures
        ({
            let (t, action) = s.next(LadderEventView::Failed);
            &&& t.failures == s.failures + 1
            &&& t.index == s.index
            &&& t.output == s.output
            &&& s.failures + 1 < MAX_ATTEMPTS ==> {
                &&& action == LadderActionView::Rest(RETRY_DELAY)
                &&& t.phase is Resting
                &&& t.next(LadderEventView::Rested) == (LadderView {
                    failures: s.failures + 1,
                    ..s
                }).attempt()
            }
            &&& s.failures + 1 == MAX_ATTEMPTS ==> {
                &&& action == LadderActionView::Fatal(LadderFailure::Exhausted)
                &&& t.phase == LadderPhase::Fatal(LadderFailure::Exhausted)
            }
        }),
{
}

/// A walk that was given up asks for nothing more, whatever arrives.
pub proof fn lemma_fatal_is_final(s: LadderView, event: LadderEventView)
    requires
        s.phase is Fatal,
    ensures
        s.next(event).0 == s,
        s.next(event).1 == LadderActionView::Fatal(s.phase->Fatal_0),
{
}

/// Where every attempt at a pair fails, the walk is given up after exactly
/// five attempts: after fewer than five failures it is still at that pair
/// with nothing added to its output, about to make its next attempt; with
/// the fifth failure it is given up and makes no sixth attempt, however many
/// more failures are reported.
pub proof fn lemma_retry_exhaustion(s: LadderView, n: nat)
    requires
        s.wf(),
        s.phase is Requesting,
        s.failures == 0,
    ensures
        ({
            let t = s.after_failures(n);
            &&& t.wf()
            &&& t.index == s.index
            &&& t.output == s.output
            &&& t.pairs == s.pairs
            &&& n == 0 ==> t == s
            &&& 0 < n < MAX_ATTEMPTS ==> t.phase is Resting && t.failures == n
            &&& n >= MAX_ATTEMPTS ==> t.phase == LadderPhase::Fatal(LadderFailure::Exhausted)
                && t.failures == MAX_ATTEMPTS
        }),
    decreases n,
{
    if n > 0 {
        lemma_retry_exhaustion(s, (n - 1) as nat);
    }
}

/// A walk over the ladder.
pub struct Enumerator {
    pairs: Vec<(String, String)>,
    index: usize,
    failures: u32,
    page: i32,
    gathered: Vec<String>,
    output: Vec<String>,
    phase: LadderPhase,
}

impl View for Enumerator {
    type V = LadderView;

    closed spec fn view(&self) -> LadderView {
        LadderView {
            pairs: self.pairs.deep_view(),
            index: self.index as nat,
            failures: self.failures as nat,
            page: self.page,
            gathered: self.gathered.deep_view(),
            output: self.output.deep_view(),
            phase: self.phase,
        }
    }
}

impl Enumerator {
    /// Begins a walk over the given tiers and divisions.
    pub fn new(pairs: Vec<(String, String)>) -> (r: (Enumerator, LadderAction))
        ensures
            r.0@.wf(),
            (r.0@, r.1@) == LadderView::begin(pairs.deep_view()),
    {
        let mut walk = Enumerator {
            pairs,
            index: 0,
            failures: 0,
            page: FIRST_PAGE,
            gathered: Vec::new(),
            output: Vec::new(),
            phase: LadderPhase::Requesting,
        };
        assert(walk.gathered.deep_view() =~= Seq::empty());
        assert(walk.output.deep_view() =~= Seq::empty());
        let action = walk.attempt();
        (walk, action)
    }

    /// The ids of the pairs that are complete, in order.
    pub fn ids(&self) -> (ids: &Vec<String>)
        ensures
            ids.deep_view() == self@.output,
    {
        &self.output
    }

    /// Ends the walk and hands out the ids of the pairs that are complete.
    pub fn into_ids(self) -> (ids: Vec<String>)
        ensures
            ids.deep_view() == self@.output,
    {
        self.output
    }

    /// How far the walk has got.
    pub fn phase(&self) -> (phase: LadderPhase)
        ensures
            phase == self@.phase,
    {
        self.phase
    }

    /// How many attempts at the current pair have failed.
    pub fn failures(&self) -> (failures: u32)
        ensures
            failures == self@.failures,
    {
        self.failures
    }

    fn give_up(&mut self, failure: LadderFailure) -> (action: LadderAction)
        requires
            old(self)@.index <= old(self)@.pairs.len(),
            old(self)@.failures <= MAX_ATTEMPTS,
            old(self)@.page >= FIRST_PAGE,
            old(self)@.failures == MAX_ATTEMPTS <==> failure is Exhausted,
        ensures
            final(self)@.wf(),
            (final(self)@, action@) == old(self)@.given_up(failure),
    {
        self.phase = LadderPhase::Fatal(failure);
        LadderAction::Fatal(failure)
    }

    fn attempt(&mut self) -> (action: LadderAction)
        requires
            old(self)@.index <= old(self)@.pairs.len(),
            old(self)@.failures < MAX_ATTEMPTS,
            old(self)@.page >= FIRST_PAGE,
        ensures
            final(self)@.wf(),
            (final(self)@, action@) == old(self)@.attempt(),
    {
        if self.index >= self.pairs.len() {
            self.phase = LadderPhase::Finished;
            return LadderAction::Finish;
        }
        self.phase = LadderPhase::Requesting;
        self.page = FIRST_PAGE;
        self.gathered = Vec::new();
        assert(self.gathered.deep_view() =~= Seq::empty());
        let pair = &self.pairs[self.index];
        assert(self.pairs.deep_view()[self.index as int] == (pair.0@, pair.1@));
        match Tier::from_name(pair.0.as_str()) {
            Some(tier) => if tier.apex() {
                return LadderAction::FetchApex(tier);
            },
            None => {},
        }
        LadderAction::FetchPage {
            tier: pair.0.clone(),
            division: pair.1.clone(),
            page: FIRST_PAGE,
        }
    }

    fn complete(&mut self, ids: Vec<String>) -> (action: LadderAction)
        requires
            old(self)@.wf(),
            old(self)@.phase is Requesting,
        ensures
            final(self)@.wf(),
            (final(self)@, action@) == old(self)@.completed(ids.deep_view()),
    {
        let ghost before = self.output.deep_view();
        let mut ids = ids;
        let ghost added = ids.deep_view();
        self.output.append(&mut ids);
        assert(self.output.deep_view() =~= before + added);
        assert(self.pairs.deep_view().len() == self.pairs.len());
        self.index = self.index + 1;
        self.failures = 0;
        self.page = FIRST_PAGE;
        self.gathered = Vec::new();
        assert(self.gathered.deep_view() =~= Seq::empty());
        self.attempt()
    }

    /// Takes what came of the last fetch or rest and says what comes next.
    pub fn step(&mut self, event: LadderEvent) -> (action: LadderAction)
        requires
            old(self)@.wf(),
        ensures
            final(self)@.wf(),
            (final(self)@, action@) == old(self)@.next(event@),
    {
        match self.phase {
            LadderPhase::Finished => LadderAction::Finish,
            LadderPhase::Fatal(failure) => LadderAction::Fatal(failure),
            LadderPhase::Resting => match event {
                LadderEvent::Rested => self.attempt(),
                _ => self.give_up(LadderFailure::Protocol),
            },
            LadderPhase::Requesting => match event {
                LadderEvent::Rested => self.give_up(LadderFailure::Protocol),
                LadderEvent::Failed => {
                    self.failures = self.failures + 1;
                    if self.failures >= MAX_ATTEMPTS {
                        self.give_up(LadderFailure::Exhausted)
                    } else {
                        self.phase = LadderPhase::Resting;
                        LadderAction::Rest(RETRY_DELAY)
                    }
                },
                LadderEvent::Entries(ids) => {
                    let pair = &self.pairs[self.index];
                    assert(self.pairs.deep_view()[self.index as int] == (pair.0@, pair.1@));
                    let apex = match Tier::from_name(pair.0.as_str()) {
                        Some(tier) => tier.apex(),
                        None => false,
                    };
                    if apex {
                        self.complete(ids)
                    } else if ids.len() == 0 {
                        assert(ids.deep_view().len() == 0);
                        let mut gathered: Vec<String> = Vec::new();
                        let ghost was = self.gathered.deep_view();
                        gathered.append(&mut self.gathered);
                        assert(gathered.deep_view() =~= was);
                        self.complete(gathered)
                    } else if self.page == i32::MAX {
                        assert(ids.deep_view().len() != 0);
                        self.give_up(LadderFailure::TooManyPages)
                    } else {
                        assert(ids.deep_view().len() != 0);
                        let ghost before = self.gathered.deep_view();
                        let mut ids = ids;
                        let ghost added = ids.deep_view();
                        self.gathered.append(&mut ids);
                        assert(self.gathered.deep_view() =~= before + added);
                        self.page = self.page + 1;
                        LadderAction::FetchPage {
                            tier: pair.0.clone(),
                            division: pair.1.clone(),
                            page: self.page,
                        }
                    }
                },
            },
        }
    }
}

} // verus!
