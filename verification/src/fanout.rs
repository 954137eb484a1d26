//! The participants of a match: resolving each of them in two hops and
//! aggregating the team's skill.
//!
//! A match names its participants by their player handles. Each handle is
//! resolved to a player identity, and the id found in that identity to a
//! skill standing. From the two an entry is made that is stored with the
//! match. When every participant has an entry, the team's average skill is
//! taken: it is known only where exactly eight participants are ranked.
//!
//! A [`Fanout`] asks for one resolution at a time and takes the stored
//! fields back as a [`FanoutEvent`]. The first failure ends it.

use crate::rank::{
    checked_value, team_avg_rank_str, team_mean, team_text, team_total, team_valid, toward_zero,
    try_league_to_numeric, RankError, RankText,
};
use crate::text::{same_text, text_of};
use vstd::prelude::*;
use vstd::string::*;

verus! {

/// The number of ranked participants for which a team's skill is known.
pub const TEAM_SIZE: usize = 8;

/// The average skill that stands for "unknown".
pub const UNKNOWN_SKILL: i32 = i32::MIN;

/// What is read of a stored player identity.
#[derive(Debug, PartialEq, Eq)]
pub struct IdentityFields {
    pub id: Option<String>,
    pub name: Option<String>,
    pub account_id: Option<String>,
}

/// What is read of a stored skill standing.
#[derive(Debug, PartialEq, Eq)]
pub struct StandingFields {
    pub tier: Option<String>,
    pub rank: Option<String>,
    pub league_points: Option<i32>,
    pub status: Option<String>,
}

/// What is stored with a match about one participant.
#[derive(Clone, Debug, PartialEq, Eq)]
pub struct Participant {
    pub summoner_id: String,
    pub summoner_name: String,
    pub account_id: String,
    pub puuid: String,
    pub tier: String,
    pub rank: String,
    pub league_points: i32,
}

/// The average skill of a team, as a number and written out.
#[derive(Debug, PartialEq, Eq)]
pub struct TeamSkill {
    pub average: i32,
    pub text: String,
}

/// Why the participants of a match were not all resolved.
#[derive(Clone, Copy, Debug, PartialEq, Eq, Structural)]
pub enum FanoutError {
    /// An identity or a standing could not be resolved.
    Unresolved,
    /// The identity holds no id.
    MissingId,
    /// The identity holds no display name.
    MissingName,
    /// The identity holds no account id.
    MissingAccountId,
    /// The standing does not say whether the player is ranked.
    MissingStatus,
    /// The rank of a ranked player has no encoded value.
    Rank(RankError),
    /// An event arrived that does not answer the resolution asked for.
    Protocol,
}

/// What came of the resolution that was asked for.
#[derive(Debug, PartialEq, Eq)]
pub enum FanoutEvent {
    /// The identity of the participant was resolved.
    Identity(IdentityFields),
    /// The standing of the participant was resolved.
    Standing(StandingFields),
    /// The resolution failed.
    Failed,
}

/// What comes next.
#[derive(Debug, PartialEq, Eq)]
pub enum FanoutAction {
    /// Resolve the identity of the participant with this handle.
    ResolveIdentity(String),
    /// Resolve the standing that is stored under this id.
    ResolveStanding(String),
    /// Every participant has an entry; this is the team's skill.
    Finish(TeamSkill),
    /// The match cannot be enriched.
    Abort(FanoutError),
}

/// [`IdentityFields`] as plain text.
pub struct IdentityView {
    pub id: Option<Seq<char>>,
    pub name: Option<Seq<char>>,
    pub account_id: Option<Seq<char>>,
}

/// [`StandingFields`] as plain text.
pub struct StandingView {
    pub tier: Option<Seq<char>>,
    pub rank: Option<Seq<char>>,
    pub league_points: Option<i32>,
    pub status: Option<Seq<char>>,
}

/// [`Participant`] as plain text.
pub struct ParticipantView {
    pub summoner_id: Seq<char>,
    pub summoner_name: Seq<char>,
    pub account_id: Seq<char>,
    pub puuid: Seq<char>,
    pub tier: Seq<char>,
    pub rank: Seq<char>,
    pub league_points: i32,
}

/// [`TeamSkill`] as plain text.
pub struct TeamSkillView {
    pub average: i32,
    pub text: Seq<char>,
}

/// [`FanoutEvent`] as plain text.
pub enum FanoutEventView {
    Identity(IdentityView),
    Standing(StandingView),
    Failed,
}

/// [`FanoutAction`] as plain text.
pub enum FanoutActionView {
    ResolveIdentity(Seq<char>),
    ResolveStanding(Seq<char>),
    Finish(TeamSkillView),
    Abort(FanoutError),
}

impl View for IdentityFields {
    type V = IdentityView;

    open spec fn view(&self) -> IdentityView {
        IdentityView {
            id: text_of(self.id),
            name: text_of(self.name),
            account_id: text_of(self.account_id),
        }
    }
}

impl View for StandingFields {
    type V = StandingView;

    open spec fn view(&self) -> StandingView {
        StandingView {
            tier: text_of(self.tier),
            rank: text_of(self.rank),
            league_points: self.league_points,
            status: text_of(self.status),
        }
    }
}

impl View for Participant {
    type V = ParticipantView;

    open spec fn view(&self) -> ParticipantView {
        ParticipantView {
            summoner_id: self.summoner_id@,
            summoner_name: self.summoner_name@,
            account_id: self.account_id@,
            puuid: self.puuid@,
            tier: self.tier@,
            rank: self.rank@,
            league_points: self.league_points,
        }
    }
}

impl View for TeamSkill {
    type V = TeamSkillView;

    open spec fn view(&self) -> TeamSkillView {
        TeamSkillView { average: self.average, text: self.text@ }
    }
}

impl View for FanoutEvent {
    type V = FanoutEventView;

    open spec fn view(&self) -> FanoutEventView {
        match self {
            FanoutEvent::Identity(fields) => FanoutEventView::Identity(fields@),
            FanoutEvent::Standing(fields) => FanoutEventView::Standing(fields@),
            FanoutEvent::Failed => FanoutEventView::Failed,
        }
    }
}

impl View for FanoutAction {
    type V = FanoutActionView;

    open spec fn view(&self) -> FanoutActionView {
        match self {
            FanoutAction::ResolveIdentity(puuid) => FanoutActionView::ResolveIdentity(puuid@),
            FanoutAction::ResolveStanding(id) => FanoutActionView::ResolveStanding(id@),
            FanoutAction::Finish(skill) => FanoutActionView::Finish(skill@),
            FanoutAction::Abort(error) => FanoutActionView::Abort(*error),
        }
    }
}

impl StandingView {
    /// The tier that is stored for the player, `unranked` where none is.
    pub open spec fn tier_text(self) -> Seq<char> {
        match self.tier {
            Some(t) => t,
            None => "unranked"@,
        }
    }

    /// The division that is stored for the player, `unranked` where none is.
    pub open spec fn rank_text(self) -> Seq<char> {
        match self.rank {
            Some(r) => r,
            None => "unranked"@,
        }
    }

    /// The points that are stored for the player, the least `i32` where none are.
    pub open spec fn points(self) -> i32 {
        match self.league_points {
            Some(p) => p,
            None => i32::MIN,
        }
    }

    /// Whether the standing says that the player is ranked.
    pub open spec fn is_ranked(self) -> bool {
        self.status == Some("ranked"@)
    }

    /// The player's rank as text.
    pub open spec fn rank_entry(self) -> RankText {
        (self.tier_text(), self.rank_text(), self.points())
    }
}

/// The entry of the participant with the handle `puuid`, made of the stored
/// identity and standing, or the first thing that is wrong with them. A
/// ranked player's rank must have an encoded value.
pub open spec fn entry_of(puuid: Seq<char>, identity: IdentityView, standing: StandingView)
    -> Result<ParticipantView, FanoutError> {
    if identity.id is None {
        Err(FanoutError::MissingId)
    } else if identity.name is None {
        Err(FanoutError::MissingName)
    } else if identity.account_id is None {
        Err(FanoutError::MissingAccountId)
    } else if standing.status is None {
        Err(FanoutError::MissingStatus)
    } else if standing.is_ranked() && checked_value(
        standing.tier_text(),
        standing.rank_text(),
        standing.points(),
    ) is Err {
        Err(
            FanoutError::Rank(
                checked_value(
                    standing.tier_text(),
                    standing.rank_text(),
                    standing.points(),
                )->Err_0,
            ),
        )
    } else {
        Ok(
            ParticipantView {
                summoner_id: identity.id->0,
                summoner_name: identity.name->0,
                account_id: identity.account_id->0,
                puuid,
                tier: standing.tier_text(),
                rank: standing.rank_text(),
                league_points: standing.points(),
            },
        )
    }
}

/// The skill of a team whose ranked members have the ranks `ranks`: the mean
/// of their encoded values and the average rank written out where exactly
/// eight are ranked, else unknown.
pub open spec fn team_skill(ranks: Seq<RankText>) -> TeamSkillView {
    if ranks.len() == TEAM_SIZE {
        TeamSkillView { average: team_mean(ranks) as i32, text: team_text(ranks) }
    } else {
        TeamSkillView { average: UNKNOWN_SKILL, text: "UNRANKED"@ }
    }
}

/// The state of a fan-out as plain values.
pub struct FanoutView {
    /// The handles of the participants, in the order of the match.
    pub puuids: Seq<Seq<char>>,
    /// The entries made so far, one for each participant that is done.
    pub players: Seq<ParticipantView>,
    /// The ranks of the ranked ones among them, in the same order.
    pub ranks: Seq<RankText>,
    /// The identity of the participant whose standing is being resolved.
    pub pending: Option<IdentityView>,
    /// Whether the fan-out has ended.
    pub closed: bool,
}

impl FanoutView {
    /// What holds of the entries and ranks gathered so far.
    pub open spec fn sound(self) -> bool {
        &&& self.players.len() <= self.puuids.len()
        &&& self.ranks.len() <= self.players.len()
        &&& team_valid(self.ranks)
        &&& forall|i: int|
            0 <= i < self.ranks.len() ==> (#[trigger] checked_value(
                self.ranks[i].0,
                self.ranks[i].1,
                self.ranks[i].2,
            )) is Ok
    }

    /// What the state of a fan-out always satisfies between two events: while
    /// it runs, a participant is left, and an identity whose standing is asked
    /// for holds an id.
    pub open spec fn wf(self) -> bool {
        &&& self.sound()
        &&& !self.closed ==> self.players.len() < self.puuids.len()
        &&& !self.closed && self.pending is Some ==> self.pending->0.id is Some
    }

    /// The fan-out ended with the failure `error`.
    pub open spec fn aborted(self, error: FanoutError) -> (FanoutView, FanoutActionView) {
        (FanoutView { pending: None, closed: true, ..self }, FanoutActionView::Abort(error))
    }

    /// Goes on to the next participant, or ends with the team's skill when
    /// every participant has an entry.
    pub open spec fn proceed(self) -> (FanoutView, FanoutActionView) {
        if self.players.len() < self.puuids.len() {
            (
                FanoutView { pending: None, ..self },
                FanoutActionView::ResolveIdentity(self.puuids[self.players.len() as int]),
            )
        } else {
            (
                FanoutView { pending: None, closed: true, ..self },
                FanoutActionView::Finish(team_skill(self.ranks)),
            )
        }
    }

    /// The fan-out over the participants `puuids`, and what it asks for first.
    pub open spec fn begin(puuids: Seq<Seq<char>>) -> (FanoutView, FanoutActionView) {
        (FanoutView {
            puuids,
            players: Seq::empty(),
            ranks: Seq::empty(),
            pending: None,
            closed: false,
        }).proceed()
    }

    /// The state after `event`, and what comes next.
    pub open spec fn next(self, event: FanoutEventView) -> (FanoutView, FanoutActionView) {
        if self.closed {
            self.aborted(FanoutError::Protocol)
        } else {
            match event {
                FanoutEventView::Failed => self.aborted(FanoutError::Unresolved),
                FanoutEventView::Identity(identity) => if self.pending is Some {
                    self.aborted(FanoutError::Protocol)
                } else {
                    match identity.id {
                        None => self.aborted(FanoutError::MissingId),
                        Some(id) => (
                            FanoutView { pending: Some(identity), ..self },
                            FanoutActionView::ResolveStanding(id),
                        ),
                    }
                },
                FanoutEventView::Standing(standing) => match self.pending {
                    None => self.aborted(FanoutError::Protocol),
                    Some(identity) => match entry_of(
                        self.puuids[self.players.len() as int],
                        identity,
                        standing,
                    ) {
                        Err(error) => self.aborted(error),
                        Ok(entry) => (FanoutView {
                            players: self.players.push(entry),
                            ranks: if standing.is_ranked() {
                                self.ranks.push(standing.rank_entry())
                            } else {
                                self.ranks
                            },
                            ..self
                        }).proceed(),
                    },
                },
            }
        }
    }
}

/// A fan-out ends with a team skill only when every participant of the match
/// has an entry; the skill is that of the ranked ones among them.
pub proof fn lemma_finish_has_every_entry(s: FanoutView, event: FanoutEventView)
    requires
        s.wf(),
        s.next(event).1 is Finish,
    ensures
        s.next(event).0.closed,
        s.next(event).0.players.len() == s.puuids.len(),
        s.next(event).0.players.len() == s.players.len() + 1,
        s.next(event).1 == FanoutActionView::Finish(team_skill(s.next(event).0.ranks)),
{
}

/// The skill of a team is known exactly when eight participants are ranked.
/// Then its average is the mean of their encoded values, rounded toward
/// zero, and its text is their average rank; otherwise the average is the
/// least `i32` and the text is `UNRANKED`.
pub proof fn lemma_skill_is_known_for_eight(ranks: Seq<RankText>)
    requires
        forall|i: int|
            0 <= i < ranks.len() ==> (#[trigger] checked_value(
                ranks[i].0,
                ranks[i].1,
                ranks[i].2,
            )) is Ok,
    ensures
        ranks.len() == TEAM_SIZE ==> team_skill(ranks).average == team_mean(ranks) && team_skill(
            ranks,
        ).text == team_text(ranks),
        ranks.len() != TEAM_SIZE ==> team_skill(ranks).average == UNKNOWN_SKILL && team_skill(
            ranks,
        ).text == "UNRANKED"@,
{
    lemma_total_is_bounded(ranks);
    if ranks.len() == TEAM_SIZE {
        let total = team_total(ranks);
        assert(i32::MIN <= toward_zero(total, 8) <= i32::MAX);
    }
}

/// The participants of one match while they are resolved.
pub struct Fanout {
    puuids: Vec<String>,
    players: Vec<Participant>,
    ranks: Vec<(String, String, i32)>,
    total: i128,
    pending: Option<IdentityFields>,
    closed: bool,
}

/// The entries of a list as plain text.
pub open spec fn players_view(players: Seq<Participant>) -> Seq<ParticipantView> {
    Seq::new(players.len(), |i: int| players[i]@)
}

impl View for Fanout {
    type V = FanoutView;

    closed spec fn view(&self) -> FanoutView {
        FanoutView {
            puuids: self.puuids.deep_view(),
            players: players_view(self.players@),
            ranks: self.ranks.deep_view(),
            pending: match self.pending {
                Some(identity) => Some(identity@),
                None => None,
            },
            closed: self.closed,
        }
    }
}

impl Fanout {
    /// What holds of every fan-out that this module hands out.
    pub closed spec fn wf(&self) -> bool {
        &&& self@.wf()
        &&& self.total == team_total(self.ranks.deep_view())
    }

    spec fn sound(&self) -> bool {
        &&& self@.sound()
        &&& self.total == team_total(self.ranks.deep_view())
    }

    /// Begins the fan-out over the participants of a match.
    pub fn new(puuids: Vec<String>) -> (r: (Fanout, FanoutAction))
        ensures
            r.0.wf(),
            (r.0@, r.1@) == FanoutView::begin(puuids.deep_view()),
    {
        let mut fanout = Fanout {
            puuids,
            players: Vec::new(),
            ranks: Vec::new(),
            total: 0,
            pending: None,
            closed: false,
        };
        assert(fanout@.players =~= Seq::empty());
        assert(fanout@.ranks =~= Seq::empty());
        let action = fanout.proceed();
        (fanout, action)
    }

    /// The entries made so far.
    pub fn players(&self) -> (players: &Vec<Participant>)
        ensures
            players_view(players@) == self@.players,
    {
        &self.players
    }

    /// Whether the fan-out has ended.
    pub fn is_closed(&self) -> (closed: bool)
        ensures
            closed == self@.closed,
    {
        self.closed
    }

    fn abort(&mut self, error: FanoutError) -> (action: FanoutAction)
        requires
            old(self).sound(),
        ensures
            final(self).wf(),
            (final(self)@, action@) == old(self)@.aborted(error),
    {
        self.pending = None;
        self.closed = true;
        FanoutAction::Abort(error)
    }

    fn skill(&self) -> (skill: TeamSkill)
        requires
            self.sound(),
        ensures
            skill@ == team_skill(self@.ranks),
    {
        if self.ranks.len() == TEAM_SIZE {
            let ghost ranks = self.ranks.deep_view();
            proof {
                lemma_total_is_bounded(ranks);
            }
            let mean: i128 = if self.total >= 0 {
                self.total / 8
            } else {
                -((-self.total) / 8)
            };
            let text = team_avg_rank_str(self.ranks.as_slice());
            TeamSkill { average: mean as i32, text }
        } else {
            TeamSkill { average: UNKNOWN_SKILL, text: "UNRANKED".to_owned() }
        }
    }

    fn proceed(&mut self) -> (action: FanoutAction)
        requires
            old(self).sound(),
            !old(self)@.closed,
            old(self)@.pending is None,
        ensures
            final(self).wf(),
            (final(self)@, action@) == old(self)@.proceed(),
    {
        let done: usize = self.players.len();
        if done < self.puuids.len() {
            let puuid = self.puuids[done].clone();
            assert(self.puuids.deep_view()[done as int] == self.puuids@[done as int]@);
            FanoutAction::ResolveIdentity(puuid)
        } else {
            let skill = self.skill();
            self.closed = true;
            FanoutAction::Finish(skill)
        }
    }

    /// Takes what came of the last resolution and says what comes next.
    pub fn step(&mut self, event: FanoutEvent) -> (action: FanoutAction)
        requires
            old(self).wf(),
        ensures
            final(self).wf(),
            (final(self)@, action@) == old(self)@.next(event@),
    {
        if self.closed {
            return self.abort(FanoutError::Protocol);
        }
        match event {
            FanoutEvent::Failed => self.abort(FanoutError::Unresolved),
            FanoutEvent::Identity(identity) => {
                if self.pending.is_some() {
                    return self.abort(FanoutError::Protocol);
                }
                let id = match &identity.id {
                    None => {
                        return self.abort(FanoutError::MissingId);
                    },
                    Some(id) => id.clone(),
                };
                self.pending = Some(identity);
                FanoutAction::ResolveStanding(id)
            },
            FanoutEvent::Standing(standing) => {
                let identity = match self.pending.take() {
                    None => {
                        return self.abort(FanoutError::Protocol);
                    },
                    Some(identity) => identity,
                };
                self.enroll(identity, standing)
            },
        }
    }

    /// Makes the entry of the participant whose identity and standing are
    /// both resolved, and goes on.
    fn enroll(&mut self, identity: IdentityFields, standing: StandingFields) -> (action:
        FanoutAction)
        requires
            old(self).sound(),
            !old(self).closed,
            old(self).pending is None,
            old(self).players.len() < old(self).puuids.len(),
        ensures
            final(self).wf(),
            (final(self)@, action@) == (FanoutView {
                pending: Some(identity@),
                ..old(self)@
            }).next(FanoutEventView::Standing(standing@)),
    {
        let ghost before = FanoutView { pending: Some(identity@), ..self@ };
        let ghost handle = self.puuids.deep_view()[self.players.len() as int];
        let done: usize = self.players.len();
        assert(self.puuids.deep_view()[done as int] == self.puuids@[done as int]@);
        let IdentityFields { id, name, account_id } = identity;
        let StandingFields { tier, rank, league_points, status } = standing;
        let summoner_id = match id {
            Some(s) => s,
            None => {
                return self.abort(FanoutError::MissingId);
            },
        };
        let summoner_name = match name {
            Some(s) => s,
            None => {
                return self.abort(FanoutError::MissingName);
            },
        };
        let account_id = match account_id {
            Some(s) => s,
            None => {
                return self.abort(FanoutError::MissingAccountId);
            },
        };
        let status = match status {
            Some(s) => s,
            None => {
                return self.abort(FanoutError::MissingStatus);
            },
        };
        let tier = match tier {
            Some(s) => s,
            None => "unranked".to_owned(),
        };
        let rank = match rank {
            Some(s) => s,
            None => "unranked".to_owned(),
        };
        let points: i32 = match league_points {
            Some(p) => p,
            None => i32::MIN,
        };
        let ranked = same_text(status.as_str(), "ranked");
        if ranked {
            match try_league_to_numeric(tier.as_str(), rank.as_str(), points) {
                Err(error) => {
                    return self.abort(FanoutError::Rank(error));
                },
                Ok(value) => {
                    let ghost old_ranks = self.ranks.deep_view();
                    proof {
                        lemma_total_is_bounded(old_ranks);
                    }
                    self.ranks.push((tier.clone(), rank.clone(), points));
                    self.total = self.total + value as i128;
                    proof {
                        let new_ranks = self.ranks.deep_view();
                        assert(new_ranks =~= old_ranks.push((tier@, rank@, points)));
                        assert(new_ranks.drop_last() =~= old_ranks);
                    }
                },
            }
        }
        let ghost old_players = players_view(self.players@);
        let entry = Participant {
            summoner_id,
            summoner_name,
            account_id,
            puuid: self.puuids[done].clone(),
            tier,
            rank,
            league_points: points,
        };
        self.players.push(entry);
        assert(players_view(self.players@) =~= old_players.push(entry@));
        self.proceed()
    }
}

/// The sum of encoded values that all fit an `i32` lies between as many
/// times the least and the greatest `i32`.
proof fn lemma_total_is_bounded(ranks: Seq<RankText>)
    requires
        forall|i: int|
            0 <= i < ranks.len() ==> (#[trigger] checked_value(
                ranks[i].0,
                ranks[i].1,
                ranks[i].2,
            )) is Ok,
    ensures
        i32::MIN * ranks.len() <= team_total(ranks) <= i32::MAX * ranks.len(),
    decreases ranks.len(),
{
    if ranks.len() > 0 {
        let rest = ranks.drop_last();
        assert forall|i: int| 0 <= i < rest.len() implies (#[trigger] checked_value(
            rest[i].0,
            rest[i].1,
            rest[i].2,
        )) is Ok by {
            assert(rest[i] == ranks[i]);
        }
        lemma_total_is_bounded(rest);
        let last = ranks.last();
        assert(checked_value(last.0, last.1, last.2) is Ok);
    }
}

} // verus!
