//! Stored documents: the fields that the harvester reads and writes.
//!
//! A stored document is a `Document` of the `bson` crate, as the `mongodb`
//! crate hands it out. This module reads the fields of identities and
//! standings out of documents and writes the fields that the harvester adds:
//! texts, 32-bit integers and dates. What the `bson` and `chrono` crates do is stated here and
//! not proved; everything else is.

use crate::cache::Stamp;
use crate::fanout::{
    IdentityFields, IdentityView, Participant, ParticipantView, StandingFields, StandingView,
    TeamSkill, TeamSkillView,
};
use crate::standing::{status_label, status_name};
use crate::text::text_of;
use chrono::offset::{TimeZone, Utc};
use mongodb::bson::{Bson, Document};
use vstd::prelude::*;
use vstd::string::*;

verus! {

/// The `Document` of the `bson` crate, as the `mongodb` crate exports it.
#[verifier::external_type_specification]
#[verifier::external_body]
pub struct ExDocument(mongodb::bson::Document);

/// What a document holds under one key.
pub enum Field {
    /// A BSON string.
    Text(Seq<char>),
    /// A BSON 32-bit integer.
    Number(i32),
    /// A BSON date, in milliseconds since the Unix epoch.
    Date(i64),
    /// A value of any other BSON type.
    Other,
}

/// What a document holds, by key.
pub uninterp spec fn fields(doc: Document) -> Map<Seq<char>, Field>;

/// Whether the `chrono` crate has a time that lies `millis` milliseconds
/// after the Unix epoch.
pub uninterp spec fn representable(millis: i64) -> bool;

/// `Document::new`: a document without entries.
#[verifier::external_body]
fn empty_document() -> (doc: Document)
    ensures
        fields(doc) == empty_fields(),
{
    Document::new()
}

/// `Document::get_str`: the text that the document holds under `key`, and
/// nothing where the key is absent or holds a value that is no text.
#[verifier::external_body]
fn read_text(doc: &Document, key: &str) -> (text: Option<String>)
    ensures
        text_of(text) == text_at(fields(*doc), key@),
{
    doc.get_str(key).ok().map(str::to_owned)
}

/// `Document::get_i32`: the 32-bit integer that the document holds under
/// `key`, and nothing where the key is absent or holds another value.
#[verifier::external_body]
fn read_number(doc: &Document, key: &str) -> (number: Option<i32>)
    ensures
        number == number_at(fields(*doc), key@),
{
    doc.get_i32(key).ok()
}

/// `Document::insert` with a text: afterwards the document holds `value`
/// under `key`, in place of what it held there; other keys are untouched.
#[verifier::external_body]
fn write_text(doc: &mut Document, key: &str, value: &str)
    ensures
        fields(*final(doc)) == fields(*old(doc)).insert(key@, Field::Text(value@)),
{
    doc.insert(key, Bson::String(value.to_owned()));
}

/// `Document::insert` with a 32-bit integer: afterwards the document holds
/// `value` under `key`, in place of what it held there; other keys are
/// untouched.
#[verifier::external_body]
fn write_number(doc: &mut Document, key: &str, value: i32)
    ensures
        fields(*final(doc)) == fields(*old(doc)).insert(key@, Field::Number(value)),
{
    doc.insert(key, Bson::Int32(value));
}

/// `TimeZone::timestamp_millis_opt` of `Utc`: whether there is a time
/// `millis` milliseconds after the Unix epoch.
#[verifier::external_body]
fn is_representable(millis: i64) -> (there: bool)
    ensures
        there == representable(millis),
{
    Utc.timestamp_millis_opt(millis).single().is_some()
}

/// `Document::insert` with the date that `TimeZone::timestamp_millis_opt`
/// of `Utc` makes of `millis`: afterwards the document holds that date under
/// `key`, in place of what it held there; other keys are untouched.
#[verifier::external_body]
fn write_date(doc: &mut Document, key: &str, millis: i64)
    requires
        representable(millis),
    ensures
        fields(*final(doc)) == fields(*old(doc)).insert(key@, Field::Date(millis)),
{
    if let Some(time) = Utc.timestamp_millis_opt(millis).single() {
        doc.insert(key, Bson::DateTime(time));
    }
}

/// A document without entries.
pub open spec fn empty_fields() -> Map<Seq<char>, Field> {
    Map::empty()
}

/// The text under `key`, if there is a text.
pub open spec fn text_at(held: Map<Seq<char>, Field>, key: Seq<char>) -> Option<Seq<char>> {
    if held.dom().contains(key) {
        match held[key] {
            Field::Text(t) => Some(t),
            _ => None,
        }
    } else {
        None
    }
}

/// The 32-bit integer under `key`, if there is one.
pub open spec fn number_at(held: Map<Seq<char>, Field>, key: Seq<char>) -> Option<i32> {
    if held.dom().contains(key) {
        match held[key] {
            Field::Number(n) => Some(n),
            _ => None,
        }
    } else {
        None
    }
}

/// What is read of a stored identity.
pub open spec fn identity_in(held: Map<Seq<char>, Field>) -> IdentityView {
    IdentityView {
        id: text_at(held, "id"@),
        name: text_at(held, "name"@),
        account_id: text_at(held, "accountId"@),
    }
}

/// What is read of a stored standing.
pub open spec fn standing_in(held: Map<Seq<char>, Field>) -> StandingView {
    StandingView {
        tier: text_at(held, "tier"@),
        rank: text_at(held, "rank"@),
        league_points: number_at(held, "leaguePoints"@),
        status: text_at(held, "_status"@),
    }
}

/// What a document holds after it was stamped with its id and its times.
pub open spec fn stamped(held: Map<Seq<char>, Field>, id: Seq<char>, stamp: Stamp) -> Map<
    Seq<char>,
    Field,
> {
    let begun = held.insert("_id"@, Field::Text(id)).insert(
        "_documentCreated"@,
        Field::Date(stamp.created()),
    );
    let played = match stamp {
        Stamp::Match { played, .. } => begun.insert("_matchTimestamp"@, Field::Date(played)),
        _ => begun,
    };
    played.insert("_documentExpire"@, Field::Date(stamp.expire()))
}

/// What a standing holds after its status was written.
pub open spec fn with_status(held: Map<Seq<char>, Field>, ranked: bool) -> Map<Seq<char>, Field> {
    held.insert("_status"@, Field::Text(status_label(ranked)))
}

/// What a match holds after the skill of the team was written.
pub open spec fn with_skill(held: Map<Seq<char>, Field>, skill: TeamSkillView) -> Map<
    Seq<char>,
    Field,
> {
    held.insert("_avgElo"@, Field::Number(skill.average)).insert(
        "_avgEloText"@,
        Field::Text(skill.text),
    )
}

/// What a participant's entry holds.
pub open spec fn entry_fields(entry: ParticipantView) -> Map<Seq<char>, Field> {
    empty_fields().insert("summonerId"@, Field::Text(entry.summoner_id)).insert(
        "summonerName"@,
        Field::Text(entry.summoner_name),
    ).insert("accountId"@, Field::Text(entry.account_id)).insert(
        "puuid"@,
        Field::Text(entry.puuid),
    ).insert("tftTier"@, Field::Text(entry.tier)).insert("tftRank"@, Field::Text(entry.rank)).insert(
        "tftLeaguePoints"@,
        Field::Number(entry.league_points),
    )
}

/// Whether every time of `stamp` can be written as a date.
pub open spec fn stamp_representable(stamp: Stamp) -> bool {
    &&& representable(stamp.created())
    &&& representable(stamp.expire())
    &&& stamp matches Stamp::Match { played, .. } ==> representable(played)
}

/// Stamping a document leaves the fields of an identity and of a standing
/// as they are: what was fetched and stored reads like what was fetched.
pub proof fn lemma_stamp_keeps_entity(held: Map<Seq<char>, Field>, id: Seq<char>, stamp: Stamp)
    ensures
        identity_in(stamped(held, id, stamp)) == identity_in(held),
        standing_in(stamped(held, id, stamp)) == standing_in(held),
        text_at(stamped(held, id, stamp), "_id"@) == Some(id),
{
    reveal_strlit("_id");
    reveal_strlit("_documentCreated");
    reveal_strlit("_matchTimestamp");
    reveal_strlit("_documentExpire");
    reveal_strlit("id");
    reveal_strlit("name");
    reveal_strlit("accountId");
    reveal_strlit("tier");
    reveal_strlit("rank");
    reveal_strlit("leaguePoints");
    reveal_strlit("_status");
    assert("_id"@.len() == 3 && "_documentCreated"@.len() == 16 && "_matchTimestamp"@.len() == 15
        && "_documentExpire"@.len() == 15);
    assert("id"@.len() == 2 && "name"@.len() == 4 && "accountId"@.len() == 9 && "tier"@.len() == 4
        && "rank"@.len() == 4 && "leaguePoints"@.len() == 12 && "_status"@.len() == 7);
}

/// A tombstone holds its id, the time at which it was made and its expiry,
/// and nothing else: nothing about a match or its participants.
pub proof fn lemma_tombstone_holds_id_and_times(id: Seq<char>, created: i64, expire: i64)
    ensures
        ({
            let held = stamped(empty_fields(), id, Stamp::Tombstone { created, expire });
            &&& held.dom() == set!["_id"@, "_documentCreated"@, "_documentExpire"@]
            &&& held["_id"@] == Field::Text(id)
            &&& held["_documentCreated"@] == Field::Date(created)
            &&& held["_documentExpire"@] == Field::Date(expire)
        }),
{
    reveal_strlit("_id");
    reveal_strlit("_documentCreated");
    reveal_strlit("_documentExpire");
    assert("_id"@.len() == 3 && "_documentCreated"@.len() == 16 && "_documentExpire"@.len() == 15);
    let held = stamped(empty_fields(), id, Stamp::Tombstone { created, expire });
    assert(held.dom() =~= set!["_id"@, "_documentCreated"@, "_documentExpire"@]);
}

/// A standing whose status was written says whether the player is ranked.
pub proof fn lemma_status_is_read_back(held: Map<Seq<char>, Field>, ranked: bool)
    ensures
        standing_in(with_status(held, ranked)).status == Some(status_label(ranked)),
        standing_in(with_status(held, ranked)).is_ranked() == ranked,
{
    reveal_strlit("ranked");
    reveal_strlit("unranked");
    assert("ranked"@.len() == 6 && "unranked"@.len() == 8);
}

/// The standing of a player without an entry in the ranked queue: a
/// document that holds the status `unranked` and nothing else.
pub fn unranked_document() -> (doc: Document)
    ensures
        fields(doc) == with_status(empty_fields(), false),
{
    let mut doc = empty_document();
    write_text(&mut doc, "_status", status_name(false));
    doc
}

/// Reads the fields of a stored identity.
pub fn identity_fields(doc: &Document) -> (identity: IdentityFields)
    ensures
        identity@ == identity_in(fields(*doc)),
{
    IdentityFields {
        id: read_text(doc, "id"),
        name: read_text(doc, "name"),
        account_id: read_text(doc, "accountId"),
    }
}

/// Reads the fields of a stored standing.
pub fn standing_fields(doc: &Document) -> (standing: StandingFields)
    ensures
        standing@ == standing_in(fields(*doc)),
{
    StandingFields {
        tier: read_text(doc, "tier"),
        rank: read_text(doc, "rank"),
        league_points: read_number(doc, "leaguePoints"),
        status: read_text(doc, "_status"),
    }
}

/// Stamps a document with its id and its times, where every time can be
/// written as a date; else the document stays as it is.
pub fn stamp_document(doc: &mut Document, id: &str, stamp: &Stamp) -> (done: bool)
    ensures
        done == stamp_representable(*stamp),
        done ==> fields(*final(doc)) == stamped(fields(*old(doc)), id@, *stamp),
        !done ==> *final(doc) == *old(doc),
{
    let created: i64 = stamp.created_at();
    let expire: i64 = stamp.expires_at();
    if !is_representable(created) || !is_representable(expire) {
        return false;
    }
    match stamp {
        Stamp::Match { played, .. } => {
            if !is_representable(*played) {
                return false;
            }
            write_text(doc, "_id", id);
            write_date(doc, "_documentCreated", created);
            write_date(doc, "_matchTimestamp", *played);
        },
        _ => {
            write_text(doc, "_id", id);
            write_date(doc, "_documentCreated", created);
        },
    }
    write_date(doc, "_documentExpire", expire);
    true
}

/// Writes into a standing whether the player is ranked.
pub fn write_status(doc: &mut Document, ranked: bool)
    ensures
        fields(*final(doc)) == with_status(fields(*old(doc)), ranked),
{
    write_text(doc, "_status", status_name(ranked));
}

/// Writes the skill of the team into a match.
pub fn write_skill(doc: &mut Document, skill: &TeamSkill)
    ensures
        fields(*final(doc)) == with_skill(fields(*old(doc)), skill@),
{
    write_number(doc, "_avgElo", skill.average);
    write_text(doc, "_avgEloText", skill.text.as_str());
}

/// The document that is stored with a match about one participant.
pub fn participant_document(entry: &Participant) -> (doc: Document)
    ensures
        fields(doc) == entry_fields(entry@),
{
    let mut doc = empty_document();
    write_text(&mut doc, "summonerId", entry.summoner_id.as_str());
    write_text(&mut doc, "summonerName", entry.summoner_name.as_str());
    write_text(&mut doc, "accountId", entry.account_id.as_str());
    write_text(&mut doc, "puuid", entry.puuid.as_str());
    write_text(&mut doc, "tftTier", entry.tier.as_str());
    write_text(&mut doc, "tftRank", entry.rank.as_str());
    write_number(&mut doc, "tftLeaguePoints", entry.league_points);
    doc
}

/// The tombstone of a match with the id `id`: a document that holds the id,
/// the time at which it was made and its expiry, and nothing else. There is
/// none where a time cannot be written as a date.
pub fn tombstone_document(id: &str, stamp: &Stamp) -> (doc: Option<Document>)
    ensures
        doc is Some <==> stamp_representable(*stamp),
        doc matches Some(d) ==> fields(d) == stamped(empty_fields(), id@, *stamp),
{
    let mut doc = empty_document();
    if stamp_document(&mut doc, id, stamp) {
        Some(doc)
    } else {
        None
    }
}

} // verus!
