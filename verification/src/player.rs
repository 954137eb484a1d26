//! Working through one player: the player's recent matches are resolved one
//! after another, in the order in which the upstream service lists them, and
//! counted by how their resolution ended.
//!
//! A [`PlayerRun`] says which call comes next and takes what came of it as a
//! [`PlayerEvent`]. A player that cannot be fetched, or whose matches cannot
//! be listed, is abandoned; a match whose resolution fails is passed over.

use crate::cache::Outcome;
use vstd::prelude::*;
use vstd::string::*;

verus! {

/// How many of a player's most recent matches are asked for.
pub const RECENT_MATCHES: i32 = 10;

/// How many players are worked on at once.
pub const PLAYERS_AT_ONCE: usize = 10;

/// How long to pause after the work on a player was started, in milliseconds.
pub const START_PAUSE: u64 = 2000;

/// How the resolutions of a player's matches ended, by count.
#[derive(Clone, Copy, Debug, PartialEq, Eq, Structural)]
pub struct Tally {
    /// Matches that were fetched and stored.
    pub fresh: usize,
    /// Matches that the store held already.
    pub repeat: usize,
    /// Matches that could not be fetched and got a tombstone.
    pub tombstoned: usize,
}

/// Why a player was abandoned.
#[derive(Clone, Copy, Debug, PartialEq, Eq, Structural)]
pub enum PlayerFailure {
    /// The player could not be fetched.
    Player,
    /// The player's matches could not be listed.
    Matches,
    /// An event arrived that does not answer the call that was asked for.
    Protocol,
}

/// How far the work on a player has got.
#[derive(Clone, Copy, Debug, PartialEq, Eq, Structural)]
pub enum PlayerPhase {
    /// The player is being fetched.
    FetchingPlayer,
    /// The player's recent matches are being listed.
    ListingMatches,
    /// A match is being resolved.
    Resolving,
    /// The work has ended.
    Finished,
}

/// What came of the call that was asked for.
#[derive(Debug, PartialEq, Eq)]
pub enum PlayerEvent {
    /// The player was fetched and has this handle.
    Player(String),
    /// The player's recent matches have these ids.
    Matches(Vec<String>),
    /// The resolution of the match ended like this.
    Resolved(Outcome),
    /// The call failed.
    Failed,
}

/// The call that comes next.
#[derive(Debug, PartialEq, Eq)]
pub enum PlayerAction {
    /// Fetch the player.
    FetchPlayer,
    /// List this many of the most recent matches of the player with this handle.
    ListMatches { puuid: String, limit: i32 },
    /// Resolve the match with this id.
    Resolve(String),
    /// Every match was gone through.
    Finish(Tally),
    /// The player is abandoned.
    Abandon(PlayerFailure),
}

/// [`PlayerEvent`] as plain text.
pub enum PlayerEventView {
    Player(Seq<char>),
    Matches(Seq<Seq<char>>),
    Resolved(Outcome),
    Failed,
}

/// [`PlayerAction`] as plain text.
pub enum PlayerActionView {
    FetchPlayer,
    ListMatches { puuid: Seq<char>, limit: i32 },
    Resolve(Seq<char>),
    Finish(Tally),
    Abandon(PlayerFailure),
}

impl View for PlayerEvent {
    type V = PlayerEventView;

    open spec fn view(&self) -> PlayerEventView {
        match self {
            PlayerEvent::Player(puuid) => PlayerEventView::Player(puuid@),
            PlayerEvent::Matches(ids) => PlayerEventView::Matches(ids.deep_view()),
            PlayerEvent::Resolved(outcome) => PlayerEventView::Resolved(*outcome),
            PlayerEvent::Failed => PlayerEventView::Failed,
        }
    }
}

impl View for PlayerAction {
    type V = PlayerActionView;

    open spec fn view(&self) -> PlayerActionView {
        match self {
            PlayerAction::FetchPlayer => PlayerActionView::FetchPlayer,
            PlayerAction::ListMatches { puuid, limit } => PlayerActionView::ListMatches {
                puuid: puuid@,
                limit: *limit,
            },
            PlayerAction::Resolve(id) => PlayerActionView::Resolve(id@),
            PlayerAction::Finish(tally) => PlayerActionView::Finish(*tally),
            PlayerAction::Abandon(failure) => PlayerActionView::Abandon(*failure),
        }
    }
}

impl Tally {
    /// The tally of no matches.
    pub open spec fn zero() -> Tally {
        Tally { fresh: 0, repeat: 0, tombstoned: 0 }
    }

    /// How many matches were counted.
    pub open spec fn counted(self) -> int {
        self.fresh + self.repeat + self.tombstoned
    }

    /// The tally with one more match whose resolution ended with `outcome`.
    /// A resolution that failed is not counted.
    pub open spec fn with(self, outcome: Outcome) -> Tally {
        match outcome {
            Outcome::Stored => Tally { fresh: (self.fresh + 1) as usize, ..self },
            Outcome::Hit => Tally { repeat: (self.repeat + 1) as usize, ..self },
            Outcome::Tombstoned => Tally { tombstoned: (self.tombstoned + 1) as usize, ..self },
            Outcome::Failed(_) => self,
        }
    }

    /// The tally of matches whose resolutions ended with `outcomes`.
    pub open spec fn of(outcomes: Seq<Outcome>) -> Tally
        decreases outcomes.len(),
    {
        if outcomes.len() == 0 {
            Tally::zero()
        } else {
            Tally::of(outcomes.drop_last()).with(outcomes.last())
        }
    }
}

/// A tally counts every match at most once: of `n` matches whose resolutions
/// ended with `outcomes`, at most `n` are counted, and exactly those whose
/// resolution did not fail.
pub proof fn lemma_tally_counts_each_once(outcomes: Seq<Outcome>)
    requires
        outcomes.len() <= usize::MAX,
    ensures
        Tally::of(outcomes).counted() == outcomes.filter(|o: Outcome| !(o is Failed)).len(),
        Tally::of(outcomes).counted() <= outcomes.len(),
    decreases outcomes.len(),
{
    let counts = |o: Outcome| !(o is Failed);
    if outcomes.len() == 0 {
        assert(outcomes.filter(counts) =~= Seq::empty());
    } else {
        let rest = outcomes.drop_last();
        lemma_tally_counts_each_once(rest);
        assert(outcomes =~= rest.push(outcomes.last()));
        rest.lemma_filter_push(outcomes.last(), counts);
        rest.lemma_filter_len(counts);
    }
}

/// The state of the work on a player as plain values.
pub struct PlayerView {
    /// How far the work has got.
    pub phase: PlayerPhase,
    /// The ids of the player's recent matches, once they are listed.
    pub matches: Seq<Seq<char>>,
    /// How the resolutions of the matches gone through ended, in order.
    pub outcomes: Seq<Outcome>,
}

impl PlayerView {
    /// What the state always satisfies.
    pub open spec fn wf(self) -> bool {
        &&& self.outcomes.len() <= self.matches.len()
        &&& self.matches.len() <= usize::MAX
        &&& self.phase is Resolving ==> self.outcomes.len() < self.matches.len()
    }

    /// The work on a player begins; the first call is
    /// [`PlayerAction::FetchPlayer`].
    pub open spec fn init() -> PlayerView {
        PlayerView {
            phase: PlayerPhase::FetchingPlayer,
            matches: Seq::empty(),
            outcomes: Seq::empty(),
        }
    }

    /// The player is abandoned.
    pub open spec fn abandoned(self, failure: PlayerFailure) -> (PlayerView, PlayerActionView) {
        (PlayerView { phase: PlayerPhase::Finished, ..self }, PlayerActionView::Abandon(failure))
    }

    /// Goes on to the next match, or ends with the tally when none is left.
    pub open spec fn proceed(self) -> (PlayerView, PlayerActionView) {
        if self.outcomes.len() < self.matches.len() {
            (
                PlayerView { phase: PlayerPhase::Resolving, ..self },
                PlayerActionView::Resolve(self.matches[self.outcomes.len() as int]),
            )
        } else {
            (
                PlayerView { phase: PlayerPhase::Finished, ..self },
                PlayerActionView::Finish(Tally::of(self.outcomes)),
            )
        }
    }

    /// The state after `event`, and the call that comes next.
    pub open spec fn next(self, event: PlayerEventView) -> (PlayerView, PlayerActionView) {
        match self.phase {
            PlayerPhase::FetchingPlayer => match event {
                PlayerEventView::Player(puuid) => (
                    PlayerView { phase: PlayerPhase::ListingMatches, ..self },
                    PlayerActionView::ListMatches { puuid, limit: RECENT_MATCHES },
                ),
                PlayerEventView::Failed => self.abandoned(PlayerFailure::Player),
                _ => self.abandoned(PlayerFailure::Protocol),
            },
            PlayerPhase::ListingMatches => match event {
                PlayerEventView::Matches(ids) => (PlayerView {
                    matches: ids,
                    outcomes: Seq::empty(),
                    ..self
                }).proceed(),
                PlayerEventView::Failed => self.abandoned(PlayerFailure::Matches),
                _ => self.abandoned(PlayerFailure::Protocol),
            },
            PlayerPhase::Resolving => match event {
                PlayerEventView::Resolved(outcome) => (PlayerView {
                    outcomes: self.outcomes.push(outcome),
                    ..self
                }).proceed(),
                _ => self.abandoned(PlayerFailure::Protocol),
            },
            PlayerPhase::Finished => self.abandoned(PlayerFailure::Protocol),
        }
    }
}

/// The work on one player.
pub struct PlayerRun {
    phase: PlayerPhase,
    matches: Vec<String>,
    done: usize,
    tally: Tally,
    outcomes: Ghost<Seq<Outcome>>,
}

impl View for PlayerRun {
    type V = PlayerView;

    closed spec fn view(&self) -> PlayerView {
        PlayerView {
            phase: self.phase,
            matches: self.matches.deep_view(),
            outcomes: self.outcomes@,
        }
    }
}

impl PlayerRun {
    /// What holds of every run that this module hands out.
    pub closed spec fn wf(&self) -> bool {
        &&& self@.wf()
        &&& self.done == self.outcomes@.len()
        &&& self.tally == Tally::of(self.outcomes@)
        &&& self.tally.counted() <= self.done
    }

    /// Begins the work on a player. The first call to make is
    /// [`PlayerAction::FetchPlayer`].
    pub fn new() -> (run: PlayerRun)
        ensures
            run.wf(),
            run@ == PlayerView::init(),
    {
        let run = PlayerRun {
            phase: PlayerPhase::FetchingPlayer,
            matches: Vec::new(),
            done: 0,
            tally: Tally { fresh: 0, repeat: 0, tombstoned: 0 },
            outcomes: Ghost(Seq::empty()),
        };
        assert(run.matches.deep_view() =~= Seq::empty());
        run
    }

    /// The count of the matches gone through so far.
    pub fn tally(&self) -> (tally: Tally)
        requires
            self.wf(),
        ensures
            tally == Tally::of(self@.outcomes),
    {
        self.tally
    }

    fn abandon(&mut self, failure: PlayerFailure) -> (action: PlayerAction)
        requires
            old(self).wf(),
        ensures
            final(self).wf(),
            (final(self)@, action@) == old(self)@.abandoned(failure),
    {
        self.phase = PlayerPhase::Finished;
        PlayerAction::Abandon(failure)
    }

    fn proceed(&mut self) -> (action: PlayerAction)
        requires
            old(self)@.outcomes.len() <= old(self)@.matches.len(),
            old(self).done == old(self).outcomes@.len(),
            old(self).tally == Tally::of(old(self).outcomes@),
            old(self).tally.counted() <= old(self).done,
        ensures
            final(self).wf(),
            (final(self)@, action@) == old(self)@.proceed(),
    {
        assert(self.matches.deep_view().len() == self.matches.len());
        if self.done < self.matches.len() {
            self.phase = PlayerPhase::Resolving;
            let id = self.matches[self.done].clone();
            assert(self.matches.deep_view()[self.done as int] == self.matches@[self.done as int]@);
            PlayerAction::Resolve(id)
        } else {
            self.phase = PlayerPhase::Finished;
            PlayerAction::Finish(self.tally)
        }
    }

    fn record(&mut self, outcome: Outcome) -> (action: PlayerAction)
        requires
            old(self).wf(),
            old(self)@.phase is Resolving,
        ensures
            final(self).wf(),
            (final(self)@, action@) == (PlayerView {
                outcomes: old(self)@.outcomes.push(outcome),
                ..old(self)@
            }).proceed(),
    {
        assert(self.matches.deep_view().len() == self.matches.len());
        self.tally = match outcome {
            Outcome::Stored => Tally { fresh: self.tally.fresh + 1, ..self.tally },
            Outcome::Hit => Tally { repeat: self.tally.repeat + 1, ..self.tally },
            Outcome::Tombstoned => Tally { tombstoned: self.tally.tombstoned + 1, ..self.tally },
            Outcome::Failed(_) => self.tally,
        };
        self.done = self.done + 1;
        proof {
            let before = self.outcomes@;
            self.outcomes@ = before.push(outcome);
            assert(self.outcomes@.drop_last() =~= before);
        }
        self.proceed()
    }

    /// Takes what came of the last call and says which call comes next.
    pub fn step(&mut self, event: PlayerEvent) -> (action: PlayerAction)
        requires
            old(self).wf(),
        ensures
            final(self).wf(),
            (final(self)@, action@) == old(self)@.next(event@),
    {
        match self.phase {
            PlayerPhase::FetchingPlayer => match event {
                PlayerEvent::Player(puuid) => {
                    self.phase = PlayerPhase::ListingMatches;
                    PlayerAction::ListMatches { puuid, limit: RECENT_MATCHES }
                },
                PlayerEvent::Failed => self.abandon(PlayerFailure::Player),
                _ => self.abandon(PlayerFailure::Protocol),
            },
            PlayerPhase::ListingMatches => match event {
                PlayerEvent::Matches(ids) => {
                    self.matches = ids;
                    self.done = 0;
                    self.tally = Tally { fresh: 0, repeat: 0, tombstoned: 0 };
                    proof {
                        self.outcomes@ = Seq::empty();
                    }
                    self.proceed()
                },
                PlayerEvent::Failed => self.abandon(PlayerFailure::Matches),
                _ => self.abandon(PlayerFailure::Protocol),
            },
            PlayerPhase::Resolving => match event {
                PlayerEvent::Resolved(outcome) => self.record(outcome),
                _ => self.abandon(PlayerFailure::Protocol),
            },
            PlayerPhase::Finished => self.abandon(PlayerFailure::Protocol),
        }
    }
}

} // verus!
