//! Read-through caching of fetched entities: what to do next when an entity
//! is resolved by its id, and when a stored document expires.
//!
//! Resolving an id looks in the store first. A document that is found is
//! returned as it is. On a miss the entity is fetched, stamped with its time
//! of creation and its expiry, stored and returned. A player identity or a
//! skill standing that cannot be fetched fails the resolution; a match that
//! cannot be fetched leaves a tombstone behind, so that its id is not asked
//! for again before the tombstone expires.
//!
//! The store and the upstream service are not called from here. A
//! [`Resolver`] says which call comes next and takes what came of it as an
//! [`Event`]. Times are milliseconds since the Unix epoch.

use vstd::prelude::*;

verus! {

/// One hour, in milliseconds.
pub const HOUR: i64 = 3_600_000;

/// One day, in milliseconds.
pub const DAY: i64 = 86_400_000;

/// How long a player identity is kept.
pub const IDENTITY_TTL: i64 = 30 * DAY;

/// How long a skill standing is kept.
pub const STANDING_TTL: i64 = DAY;

/// How long the tombstone of a match is kept.
pub const TOMBSTONE_TTL: i64 = 24 * HOUR;

/// The shortest time for which a match is kept after it was stored.
pub const MATCH_FLOOR: i64 = 24 * HOUR;

/// How long a match is kept after it was played.
pub const MATCH_RETENTION: i64 = 7 * DAY;

/// The three kinds of entity that are cached.
#[derive(Clone, Copy, Debug, PartialEq, Eq, Structural)]
pub enum Kind {
    Identity,
    Standing,
    Match,
}

/// The times that a stored document carries.
#[derive(Clone, Copy, Debug, PartialEq, Eq, Structural)]
pub enum Stamp {
    /// A player identity or a skill standing.
    Entity { created: i64, expire: i64 },
    /// A match, with the time at which it was played.
    Match { created: i64, played: i64, expire: i64 },
    /// The mark left for a match that could not be fetched.
    Tombstone { created: i64, expire: i64 },
}

/// Why a resolution ended without a document.
#[derive(Clone, Copy, Debug, PartialEq, Eq, Structural)]
pub enum Failure {
    /// The store failed to look up or to insert, or the document could not
    /// be made ready for it.
    Store,
    /// The upstream service did not deliver an entity that is required.
    Upstream,
    /// What was fetched could not be turned into a document.
    Payload,
    /// The participants of a match could not all be resolved.
    Enrichment,
    /// An expiry time does not fit the range of times.
    Clock,
    /// An event arrived that does not answer the call that was asked for.
    Protocol,
}

/// How a resolution ended.
#[derive(Clone, Copy, Debug, PartialEq, Eq, Structural)]
pub enum Outcome {
    /// The store held the document.
    Hit,
    /// The entity was fetched and stored.
    Stored,
    /// The match could not be fetched and a tombstone was stored.
    Tombstoned,
    /// Nothing is returned.
    Failed(Failure),
}

/// How far a resolution has got.
#[derive(Clone, Copy, Debug, PartialEq, Eq, Structural)]
pub enum Phase {
    /// The store is being asked for the id.
    Looking,
    /// The upstream service is being asked for the entity.
    Fetching,
    /// The participants of a match that was played at `played` are being resolved.
    Enriching { played: i64 },
    /// A fetched entity is being inserted.
    StoringFresh,
    /// A tombstone is being inserted.
    StoringTombstone,
    /// The resolution has ended.
    Finished,
}

/// What came of the call that the resolver asked for.
#[derive(Clone, Copy, Debug, PartialEq, Eq, Structural)]
pub enum Event {
    /// The store holds a document for the id.
    Found,
    /// The store holds no document for the id.
    Missing,
    /// An identity or a standing was fetched and is ready to be stored.
    Fetched,
    /// A match was fetched; it was played at `played`.
    FetchedMatch { played: i64 },
    /// The upstream service failed, or has no such entity.
    Unavailable,
    /// The participants of the match were resolved and aggregated.
    Enriched,
    /// The document was inserted.
    Stored,
    /// The call failed in another way: the store gave an error, the payload
    /// could not be turned into a document, the document could not be stamped,
    /// or a participant was not resolved.
    Failed,
}

/// The call that comes next.
#[derive(Clone, Copy, Debug, PartialEq, Eq, Structural)]
pub enum Action {
    /// Ask the store for the id.
    Find,
    /// Ask the upstream service for the entity.
    Fetch,
    /// Resolve the participants of the fetched match.
    Enrich,
    /// Insert the document with these times.
    Insert(Stamp),
    /// End the resolution.
    Return(Outcome),
}

/// The state of one resolution.
#[derive(Clone, Copy, Debug, PartialEq, Eq, Structural)]
pub struct Resolver {
    /// The kind of entity that is resolved.
    pub kind: Kind,
    /// The time at which the resolution began.
    pub created: i64,
    /// How far the resolution has got.
    pub phase: Phase,
}

/// Whether `x` is a time that can be written down.
pub open spec fn fits(x: int) -> bool {
    i64::MIN <= x <= i64::MAX
}

/// When a match expires that was stored at `created` and played at `played`:
/// a day after it was stored or a week after it was played, whichever is later.
pub open spec fn match_expiry(created: int, played: int) -> int {
    if created + MATCH_FLOOR >= played + MATCH_RETENTION {
        created + MATCH_FLOOR
    } else {
        played + MATCH_RETENTION
    }
}

impl Kind {
    /// How long a fetched identity or standing is kept; for a match, the
    /// shortest time for which it is kept.
    pub open spec fn ttl(self) -> int {
        match self {
            Kind::Identity => IDENTITY_TTL as int,
            Kind::Standing => STANDING_TTL as int,
            Kind::Match => MATCH_FLOOR as int,
        }
    }
}

impl Stamp {
    /// The time at which the document was made.
    pub open spec fn created(self) -> i64 {
        match self {
            Stamp::Entity { created, .. } => created,
            Stamp::Match { created, .. } => created,
            Stamp::Tombstone { created, .. } => created,
        }
    }

    /// The time from which the document is no longer held.
    pub open spec fn expire(self) -> i64 {
        match self {
            Stamp::Entity { expire, .. } => expire,
            Stamp::Match { expire, .. } => expire,
            Stamp::Tombstone { expire, .. } => expire,
        }
    }

    /// The times of an identity or a standing made at `created`, where its
    /// expiry can be written down.
    pub open spec fn entity(kind: Kind, created: i64) -> Option<Stamp> {
        if fits(created + kind.ttl()) {
            Some(Stamp::Entity { created, expire: (created + kind.ttl()) as i64 })
        } else {
            None
        }
    }

    /// The times of a match made at `created` and played at `played`, where
    /// a day after the one and a week after the other can be written down.
    pub open spec fn of_match(created: i64, played: i64) -> Option<Stamp> {
        if fits(created + MATCH_FLOOR) && fits(played + MATCH_RETENTION) {
            Some(
                Stamp::Match {
                    created,
                    played,
                    expire: match_expiry(created as int, played as int) as i64,
                },
            )
        } else {
            None
        }
    }

    /// The times of a tombstone made at `created`, where its expiry can be
    /// written down.
    pub open spec fn tombstone(created: i64) -> Option<Stamp> {
        if fits(created + TOMBSTONE_TTL) {
            Some(Stamp::Tombstone { created, expire: (created + TOMBSTONE_TTL) as i64 })
        } else {
            None
        }
    }

    /// The time at which the document was made.
    pub fn created_at(&self) -> (t: i64)
        ensures
            t == self.created(),
    {
        match self {
            Stamp::Entity { created, .. } => *created,
            Stamp::Match { created, .. } => *created,
            Stamp::Tombstone { created, .. } => *created,
        }
    }

    /// The time from which the document is no longer held.
    pub fn expires_at(&self) -> (t: i64)
        ensures
            t == self.expire(),
    {
        match self {
            Stamp::Entity { expire, .. } => *expire,
            Stamp::Match { expire, .. } => *expire,
            Stamp::Tombstone { expire, .. } => *expire,
        }
    }

    /// Stamps an identity or a standing made at `created`.
    pub fn for_entity(kind: Kind, created: i64) -> (stamp: Option<Stamp>)
        ensures
            stamp == Stamp::entity(kind, created),
    {
        let ttl: i64 = match kind {
            Kind::Identity => IDENTITY_TTL,
            Kind::Standing => STANDING_TTL,
            Kind::Match => MATCH_FLOOR,
        };
        match created.checked_add(ttl) {
            Some(expire) => Some(Stamp::Entity { created, expire }),
            None => None,
        }
    }

    /// Stamps a match made at `created` that was played at `played`.
    pub fn for_match(created: i64, played: i64) -> (stamp: Option<Stamp>)
        ensures
            stamp == Stamp::of_match(created, played),
    {
        match (created.checked_add(MATCH_FLOOR), played.checked_add(MATCH_RETENTION)) {
            (Some(floor), Some(kept)) => {
                let expire: i64 = if floor >= kept {
                    floor
                } else {
                    kept
                };
                Some(Stamp::Match { created, played, expire })
            },
            _ => None,
        }
    }

    /// Stamps a tombstone made at `created`.
    pub fn for_tombstone(created: i64) -> (stamp: Option<Stamp>)
        ensures
            stamp == Stamp::tombstone(created),
    {
        match created.checked_add(TOMBSTONE_TTL) {
            Some(expire) => Some(Stamp::Tombstone { created, expire }),
            None => None,
        }
    }
}

impl Resolver {
    /// A resolution of an entity of the given kind that begins at `created`.
    /// Its first call is [`Action::Find`].
    pub open spec fn init(kind: Kind, created: i64) -> Resolver {
        Resolver { kind, created, phase: Phase::Looking }
    }

    /// The resolution ended with `outcome`.
    pub open spec fn ended(self, outcome: Outcome) -> (Resolver, Action) {
        (Resolver { phase: Phase::Finished, ..self }, Action::Return(outcome))
    }

    /// The resolution goes on in `phase` with the call `action`.
    pub open spec fn goes_on(self, phase: Phase, action: Action) -> (Resolver, Action) {
        (Resolver { phase, ..self }, action)
    }

    /// The resolution stores the document with the times `stamp`, or fails
    /// where the expiry could not be written down.
    pub open spec fn stores(self, phase: Phase, stamp: Option<Stamp>) -> (Resolver, Action) {
        match stamp {
            Some(s) => self.goes_on(phase, Action::Insert(s)),
            None => self.ended(Outcome::Failed(Failure::Clock)),
        }
    }

    /// The state after `event`, and the call that comes next.
    pub open spec fn next(self, event: Event) -> (Resolver, Action) {
        match self.phase {
            Phase::Looking => match event {
                Event::Found => self.ended(Outcome::Hit),
                Event::Missing => self.goes_on(Phase::Fetching, Action::Fetch),
                Event::Failed => self.ended(Outcome::Failed(Failure::Store)),
                _ => self.ended(Outcome::Failed(Failure::Protocol)),
            },
            Phase::Fetching => match event {
                Event::Fetched => if self.kind is Match {
                    self.ended(Outcome::Failed(Failure::Protocol))
                } else {
                    self.stores(Phase::StoringFresh, Stamp::entity(self.kind, self.created))
                },
                Event::FetchedMatch { played } => if self.kind is Match {
                    self.goes_on(Phase::Enriching { played }, Action::Enrich)
                } else {
                    self.ended(Outcome::Failed(Failure::Protocol))
                },
                Event::Unavailable => if self.kind is Match {
                    self.stores(Phase::StoringTombstone, Stamp::tombstone(self.created))
                } else {
                    self.ended(Outcome::Failed(Failure::Upstream))
                },
                Event::Failed => self.ended(Outcome::Failed(Failure::Payload)),
                _ => self.ended(Outcome::Failed(Failure::Protocol)),
            },
            Phase::Enriching { played } => match event {
                Event::Enriched => self.stores(
                    Phase::StoringFresh,
                    Stamp::of_match(self.created, played),
                ),
                Event::Failed => self.ended(Outcome::Failed(Failure::Enrichment)),
                _ => self.ended(Outcome::Failed(Failure::Protocol)),
            },
            Phase::StoringFresh => match event {
                Event::Stored => self.ended(Outcome::Stored),
                Event::Failed => self.ended(Outcome::Failed(Failure::Store)),
                _ => self.ended(Outcome::Failed(Failure::Protocol)),
            },
            Phase::StoringTombstone => match event {
                Event::Stored => self.ended(Outcome::Tombstoned),
                Event::Failed => self.ended(Outcome::Failed(Failure::Store)),
                _ => self.ended(Outcome::Failed(Failure::Protocol)),
            },
            Phase::Finished => self.ended(Outcome::Failed(Failure::Protocol)),
        }
    }

    /// Begins a resolution at the time `created`. The first call to make is
    /// [`Action::Find`].
    pub fn new(kind: Kind, created: i64) -> (r: Resolver)
        ensures
            r == Resolver::init(kind, created),
    {
        Resolver { kind, created, phase: Phase::Looking }
    }

    /// Whether the resolution has ended.
    pub fn is_finished(&self) -> (done: bool)
        ensures
            done == (self.phase is Finished),
    {
        match self.phase {
            Phase::Finished => true,
            _ => false,
        }
    }

    fn end(&mut self, outcome: Outcome) -> (action: Action)
        ensures
            (*final(self), action) == old(self).ended(outcome),
    {
        self.phase = Phase::Finished;
        Action::Return(outcome)
    }

    fn store(&mut self, phase: Phase, stamp: Option<Stamp>) -> (action: Action)
        ensures
            (*final(self), action) == old(self).stores(phase, stamp),
    {
        match stamp {
            Some(s) => {
                self.phase = phase;
                Action::Insert(s)
            },
            None => self.end(Outcome::Failed(Failure::Clock)),
        }
    }

    /// Takes what came of the last call and says which call comes next.
    pub fn step(&mut self, event: Event) -> (action: Action)
        ensures
            (*final(self), action) == old(self).next(event),
    {
        match self.phase {
            Phase::Looking => match event {
                Event::Found => self.end(Outcome::Hit),
                Event::Missing => {
                    self.phase = Phase::Fetching;
                    Action::Fetch
                },
                Event::Failed => self.end(Outcome::Failed(Failure::Store)),
                _ => self.end(Outcome::Failed(Failure::Protocol)),
            },
            Phase::Fetching => match event {
                Event::Fetched => match self.kind {
                    Kind::Match => self.end(Outcome::Failed(Failure::Protocol)),
                    _ => {
                        let stamp = Stamp::for_entity(self.kind, self.created);
                        self.store(Phase::StoringFresh, stamp)
                    },
                },
                Event::FetchedMatch { played } => match self.kind {
                    Kind::Match => {
                        self.phase = Phase::Enriching { played };
                        Action::Enrich
                    },
                    _ => self.end(Outcome::Failed(Failure::Protocol)),
                },
                Event::Unavailable => match self.kind {
                    Kind::Match => {
                        let stamp = Stamp::for_tombstone(self.created);
                        self.store(Phase::StoringTombstone, stamp)
                    },
                    _ => self.end(Outcome::Failed(Failure::Upstream)),
                },
                Event::Failed => self.end(Outcome::Failed(Failure::Payload)),
                _ => self.end(Outcome::Failed(Failure::Protocol)),
            },
            Phase::Enriching { played } => match event {
                Event::Enriched => {
                    let stamp = Stamp::for_match(self.created, played);
                    self.store(Phase::StoringFresh, stamp)
                },
                Event::Failed => self.end(Outcome::Failed(Failure::Enrichment)),
                _ => self.end(Outcome::Failed(Failure::Protocol)),
            },
            Phase::StoringFresh => match event {
                Event::Stored => self.end(Outcome::Stored),
                Event::Failed => self.end(Outcome::Failed(Failure::Store)),
                _ => self.end(Outcome::Failed(Failure::Protocol)),
            },
            Phase::StoringTombstone => match event {
                Event::Stored => self.end(Outcome::Tombstoned),
                Event::Failed => self.end(Outcome::Failed(Failure::Store)),
                _ => self.end(Outcome::Failed(Failure::Protocol)),
            },
            Phase::Finished => self.end(Outcome::Failed(Failure::Protocol)),
        }
    }
}

/// The documents of one collection, by id. The store drops a document once
/// its expiry has come.
pub type Shelf = Map<Seq<char>, Stamp>;

/// Whether the store holds a document for `id` at the time `now`.
pub open spec fn holds(shelf: Shelf, id: Seq<char>, now: i64) -> bool {
    shelf.dom().contains(id) && now < shelf[id].expire()
}

/// One resolution from its first call to its last, with the store answering.
pub struct Run {
    /// The documents of the collection afterwards.
    pub shelf: Shelf,
    /// How the resolution ended.
    pub outcome: Outcome,
    /// How often the upstream service was asked.
    pub fetches: nat,
    /// How often a document was inserted.
    pub inserts: nat,
}

/// The outcome that an ending call carries.
pub open spec fn outcome_of(action: Action) -> Outcome {
    match action {
        Action::Return(outcome) => outcome,
        _ => Outcome::Failed(Failure::Protocol),
    }
}

/// Resolves `id` at the time `now` against the documents in `shelf`. The
/// store answers every call without error. The upstream service, where it is
/// asked, answers with `fetched`, and the participants of a match, where
/// they are asked for, with `enriched`.
pub open spec fn resolve(
    shelf: Shelf,
    kind: Kind,
    id: Seq<char>,
    now: i64,
    fetched: Event,
    enriched: Event,
) -> Run {
    let looked = Resolver::init(kind, now).next(
        if holds(shelf, id, now) {
            Event::Found
        } else {
            Event::Missing
        },
    );
    if looked.1 is Fetch {
        let got = looked.0.next(fetched);
        let ready = if got.1 is Enrich {
            got.0.next(enriched)
        } else {
            got
        };
        match ready.1 {
            Action::Insert(stamp) => Run {
                shelf: shelf.insert(id, stamp),
                outcome: outcome_of(ready.0.next(Event::Stored).1),
                fetches: 1,
                inserts: 1,
            },
            other => Run { shelf, outcome: outcome_of(other), fetches: 1, inserts: 0 },
        }
    } else {
        Run { shelf, outcome: outcome_of(looked.1), fetches: 0, inserts: 0 }
    }
}

/// A match is kept for at least a day after it was stored and for at least a
/// week after it was played, and no longer than the later of the two. So a
/// match that was played more than a week before it was stored expires a day
/// after it was stored, and a match whose week ends later than that day
/// expires a week after it was played.
pub proof fn lemma_match_expiry_floor(created: i64, played: i64)
    requires
        Stamp::of_match(created, played) is Some,
    ensures
        ({
            let expire = Stamp::of_match(created, played).unwrap().expire();
            &&& expire >= created + MATCH_FLOOR
            &&& expire >= played + MATCH_RETENTION
            &&& played + MATCH_RETENTION <= created + MATCH_FLOOR ==> expire == created
                + MATCH_FLOOR
            &&& played + MATCH_RETENTION > created + MATCH_FLOOR ==> expire == played
                + MATCH_RETENTION
            &&& played < created - MATCH_RETENTION ==> expire == created + MATCH_FLOOR
        }),
{
}

/// A resolution inserts at most once, only under the id that it resolves and
/// only where the store holds no document for that id; it asks the upstream
/// service at most once, and only on such a miss.
pub proof fn lemma_resolve_never_overwrites(
    shelf: Shelf,
    kind: Kind,
    id: Seq<char>,
    now: i64,
    fetched: Event,
    enriched: Event,
)
    ensures
        ({
            let run = resolve(shelf, kind, id, now, fetched, enriched);
            &&& run.inserts <= 1
            &&& run.fetches <= 1
            &&& run.fetches == 1 <==> !holds(shelf, id, now)
            &&& run.inserts == 1 ==> run.fetches == 1
            &&& run.inserts == 0 ==> run.shelf == shelf
            &&& forall|other: Seq<char>|
                other != id ==> (run.shelf.dom().contains(other) <==> shelf.dom().contains(other))
                    && (shelf.dom().contains(other) ==> #[trigger] run.shelf[other] == shelf[other])
            &&& holds(shelf, id, now) ==> run.outcome == Outcome::Hit
        }),
{
}

/// Resolving an id twice: where the first resolution stored a fetched entity
/// at the time `first`, a second one before the entity's expiry is a hit. It
/// asks the upstream service for nothing, whatever that would answer, and
/// inserts nothing. The first resolution asked the upstream service once and
/// inserted once.
pub proof fn lemma_resolve_twice_fetches_once(
    shelf: Shelf,
    kind: Kind,
    id: Seq<char>,
    first: i64,
    second: i64,
    fetched: Event,
    enriched: Event,
    refetched: Event,
    reenriched: Event,
)
    requires
        resolve(shelf, kind, id, first, fetched, enriched).outcome == Outcome::Stored,
        first <= second,
        second < resolve(shelf, kind, id, first, fetched, enriched).shelf[id].expire(),
    ensures
        ({
            let one = resolve(shelf, kind, id, first, fetched, enriched);
            let two = resolve(one.shelf, kind, id, second, refetched, reenriched);
            &&& one.fetches == 1
            &&& one.inserts == 1
            &&& two.fetches == 0
            &&& two.inserts == 0
            &&& two.outcome == Outcome::Hit
            &&& two.shelf == one.shelf
        }),
{
}

/// Resolving an identity or a standing twice within its time to live: the
/// first resolution, on a miss, asks the upstream service once and inserts
/// once; the document expires thirty days later for an identity and one day
/// later for a standing; a second resolution before that is a hit that asks
/// the upstream service for nothing, whatever that would answer, and inserts
/// nothing.
pub proof fn lemma_entity_resolved_twice(
    shelf: Shelf,
    kind: Kind,
    id: Seq<char>,
    first: i64,
    second: i64,
    refetched: Event,
    reenriched: Event,
)
    requires
        !(kind is Match),
        !holds(shelf, id, first),
        fits(first + kind.ttl()),
        first <= second < first + kind.ttl(),
    ensures
        ({
            let one = resolve(shelf, kind, id, first, Event::Fetched, Event::Enriched);
            let two = resolve(one.shelf, kind, id, second, refetched, reenriched);
            &&& one.outcome == Outcome::Stored
            &&& one.fetches == 1
            &&& one.inserts == 1
            &&& one.shelf[id] == (Stamp::Entity {
                created: first,
                expire: (first + kind.ttl()) as i64,
            })
            &&& two.outcome == Outcome::Hit
            &&& two.fetches == 0
            &&& two.inserts == 0
            &&& two.shelf == one.shelf
        }),
{
}

/// A match that cannot be fetched leaves a tombstone: a document that
/// expires exactly a day after it was made and carries no time of play. Until
/// then the id is a hit, and the upstream service is not asked again.
pub proof fn lemma_failed_match_leaves_tombstone(
    shelf: Shelf,
    id: Seq<char>,
    first: i64,
    second: i64,
    refetched: Event,
    reenriched: Event,
)
    requires
        !holds(shelf, id, first),
        fits(first + TOMBSTONE_TTL),
        first <= second < first + TOMBSTONE_TTL,
    ensures
        ({
            let one = resolve(shelf, Kind::Match, id, first, Event::Unavailable, Event::Enriched);
            let two = resolve(one.shelf, Kind::Match, id, second, refetched, reenriched);
            &&& one.outcome == Outcome::Tombstoned
            &&& one.fetches == 1
            &&& one.inserts == 1
            &&& one.shelf[id] == (Stamp::Tombstone {
                created: first,
                expire: (first + TOMBSTONE_TTL) as i64,
            })
            &&& two.outcome == Outcome::Hit
            &&& two.fetches == 0
            &&& two.inserts == 0
        }),
{
}

} // verus!
