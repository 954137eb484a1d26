//! Skill ranks as a single ordered integer.
//!
//! A rank is a tier, a division inside the tier and a number of league
//! points. Its encoded value is the start of the tier's band, plus the
//! division's offset, plus the points. The three apex tiers share one band and
//! have no divisions. Points may be negative or exceed a hundred, in which
//! case the value falls into a neighbouring division or band.

use crate::text::{decimal, push_decimal, same_text};
use vstd::prelude::*;
use vstd::string::*;

verus! {

/// The nine ladder tiers, lowest first.
#[derive(Clone, Copy, Debug, PartialEq, Eq, Structural)]
pub enum Tier {
    Iron,
    Bronze,
    Silver,
    Gold,
    Platinum,
    Diamond,
    Master,
    Grandmaster,
    Challenger,
}

/// The four divisions of a tier below the apex, lowest first.
#[derive(Clone, Copy, Debug, PartialEq, Eq, Structural)]
pub enum Division {
    IV,
    III,
    II,
    I,
}

/// The band that an encoded value falls into. The apex tiers cannot be told
/// apart from a value alone, so they share a band.
#[derive(Clone, Copy, Debug, PartialEq, Eq, Structural)]
pub enum Band {
    Iron,
    Bronze,
    Silver,
    Gold,
    Platinum,
    Diamond,
    Apex,
}

/// Why a rank given as text has no encoded value.
#[derive(Clone, Copy, Debug, PartialEq, Eq, Structural)]
pub enum RankError {
    /// The tier is none of the nine tier names.
    UnknownTier,
    /// The tier has divisions and the division is none of `IV`, `III`, `II`, `I`.
    UnknownDivision,
    /// The encoded value does not fit an `i32`.
    OutOfRange,
}

impl Tier {
    /// The tier's name.
    pub open spec fn label(self) -> Seq<char> {
        match self {
            Tier::Iron => "IRON"@,
            Tier::Bronze => "BRONZE"@,
            Tier::Silver => "SILVER"@,
            Tier::Gold => "GOLD"@,
            Tier::Platinum => "PLATINUM"@,
            Tier::Diamond => "DIAMOND"@,
            Tier::Master => "MASTER"@,
            Tier::Grandmaster => "GRANDMASTER"@,
            Tier::Challenger => "CHALLENGER"@,
        }
    }

    /// The tier that a name stands for, if any.
    pub open spec fn from_label(s: Seq<char>) -> Option<Tier> {
        if s == "IRON"@ {
            Some(Tier::Iron)
        } else if s == "BRONZE"@ {
            Some(Tier::Bronze)
        } else if s == "SILVER"@ {
            Some(Tier::Silver)
        } else if s == "GOLD"@ {
            Some(Tier::Gold)
        } else if s == "PLATINUM"@ {
            Some(Tier::Platinum)
        } else if s == "DIAMOND"@ {
            Some(Tier::Diamond)
        } else if s == "MASTER"@ {
            Some(Tier::Master)
        } else if s == "GRANDMASTER"@ {
            Some(Tier::Grandmaster)
        } else if s == "CHALLENGER"@ {
            Some(Tier::Challenger)
        } else {
            None
        }
    }

    /// Whether the tier is one of the three that share the top band.
    pub open spec fn is_apex(self) -> bool {
        self is Master || self is Grandmaster || self is Challenger
    }

    /// The encoded value at which the tier's band starts.
    pub open spec fn base(self) -> int {
        match self {
            Tier::Iron => 0,
            Tier::Bronze => 400,
            Tier::Silver => 800,
            Tier::Gold => 1200,
            Tier::Platinum => 1600,
            Tier::Diamond => 2000,
            Tier::Master | Tier::Grandmaster | Tier::Challenger => 2400,
        }
    }

    /// The tier's weight when a team in the apex band votes on its label.
    pub open spec fn weight(self) -> int {
        match self {
            Tier::Challenger => 3,
            Tier::Grandmaster => 2,
            Tier::Master => 1,
            _ => 0,
        }
    }

    /// The tier's name as text.
    pub fn name(self) -> (s: &'static str)
        ensures
            s@ == self.label(),
    {
        match self {
            Tier::Iron => "IRON",
            Tier::Bronze => "BRONZE",
            Tier::Silver => "SILVER",
            Tier::Gold => "GOLD",
            Tier::Platinum => "PLATINUM",
            Tier::Diamond => "DIAMOND",
            Tier::Master => "MASTER",
            Tier::Grandmaster => "GRANDMASTER",
            Tier::Challenger => "CHALLENGER",
        }
    }

    /// Reads a tier name.
    pub fn from_name(s: &str) -> (tier: Option<Tier>)
        ensures
            tier == Tier::from_label(s@),
    {
        if same_text(s, "IRON") {
            Some(Tier::Iron)
        } else if same_text(s, "BRONZE") {
            Some(Tier::Bronze)
        } else if same_text(s, "SILVER") {
            Some(Tier::Silver)
        } else if same_text(s, "GOLD") {
            Some(Tier::Gold)
        } else if same_text(s, "PLATINUM") {
            Some(Tier::Platinum)
        } else if same_text(s, "DIAMOND") {
            Some(Tier::Diamond)
        } else if same_text(s, "MASTER") {
            Some(Tier::Master)
        } else if same_text(s, "GRANDMASTER") {
            Some(Tier::Grandmaster)
        } else if same_text(s, "CHALLENGER") {
            Some(Tier::Challenger)
        } else {
            None
        }
    }

    /// Whether the tier belongs to the apex band.
    pub fn apex(self) -> (apex: bool)
        ensures
            apex == self.is_apex(),
    {
        match self {
            Tier::Master | Tier::Grandmaster | Tier::Challenger => true,
            _ => false,
        }
    }

    /// The start of the tier's band.
    pub fn band_start(self) -> (start: i32)
        ensures
            start == self.base(),
    {
        match self {
            Tier::Iron => 0,
            Tier::Bronze => 400,
            Tier::Silver => 800,
            Tier::Gold => 1200,
            Tier::Platinum => 1600,
            Tier::Diamond => 2000,
            Tier::Master | Tier::Grandmaster | Tier::Challenger => 2400,
        }
    }
}

impl Division {
    /// The division's name.
    pub open spec fn label(self) -> Seq<char> {
        match self {
            Division::IV => "IV"@,
            Division::III => "III"@,
            Division::II => "II"@,
            Division::I => "I"@,
        }
    }

    /// The division that a name stands for, if any.
    pub open spec fn from_label(s: Seq<char>) -> Option<Division> {
        if s == "IV"@ {
            Some(Division::IV)
        } else if s == "III"@ {
            Some(Division::III)
        } else if s == "II"@ {
            Some(Division::II)
        } else if s == "I"@ {
            Some(Division::I)
        } else {
            None
        }
    }

    /// How far above the start of its band the division begins.
    pub open spec fn offset(self) -> int {
        match self {
            Division::IV => 0,
            Division::III => 100,
            Division::II => 200,
            Division::I => 300,
        }
    }

    /// The division's name as text.
    pub fn name(self) -> (s: &'static str)
        ensures
            s@ == self.label(),
    {
        match self {
            Division::IV => "IV",
            Division::III => "III",
            Division::II => "II",
            Division::I => "I",
        }
    }

    /// Reads a division name.
    pub fn from_name(s: &str) -> (division: Option<Division>)
        ensures
            division == Division::from_label(s@),
    {
        if same_text(s, "IV") {
            Some(Division::IV)
        } else if same_text(s, "III") {
            Some(Division::III)
        } else if same_text(s, "II") {
            Some(Division::II)
        } else if same_text(s, "I") {
            Some(Division::I)
        } else {
            None
        }
    }

    /// The division's offset inside a band.
    pub fn band_offset(self) -> (offset: i32)
        ensures
            offset == self.offset(),
    {
        match self {
            Division::IV => 0,
            Division::III => 100,
            Division::II => 200,
            Division::I => 300,
        }
    }
}

impl Band {
    /// The band that holds the value `x`. Values below zero belong to the
    /// lowest band, values from 2400 on to the apex band.
    pub open spec fn of(x: int) -> Band {
        if x < 400 {
            Band::Iron
        } else if x < 800 {
            Band::Bronze
        } else if x < 1200 {
            Band::Silver
        } else if x < 1600 {
            Band::Gold
        } else if x < 2000 {
            Band::Platinum
        } else if x < 2400 {
            Band::Diamond
        } else {
            Band::Apex
        }
    }

    /// The value at which the band starts.
    pub open spec fn base(self) -> int {
        match self {
            Band::Iron => 0,
            Band::Bronze => 400,
            Band::Silver => 800,
            Band::Gold => 1200,
            Band::Platinum => 1600,
            Band::Diamond => 2000,
            Band::Apex => 2400,
        }
    }

    /// The band's name: a tier name, or `MASTER+` for the apex band.
    pub open spec fn label(self) -> Seq<char> {
        match self {
            Band::Iron => "IRON"@,
            Band::Bronze => "BRONZE"@,
            Band::Silver => "SILVER"@,
            Band::Gold => "GOLD"@,
            Band::Platinum => "PLATINUM"@,
            Band::Diamond => "DIAMOND"@,
            Band::Apex => "MASTER+"@,
        }
    }

    /// The band's name as text.
    pub fn name(self) -> (s: &'static str)
        ensures
            s@ == self.label(),
    {
        match self {
            Band::Iron => "IRON",
            Band::Bronze => "BRONZE",
            Band::Silver => "SILVER",
            Band::Gold => "GOLD",
            Band::Platinum => "PLATINUM",
            Band::Diamond => "DIAMOND",
            Band::Apex => "MASTER+",
        }
    }
}

/// The encoded value of a rank given as text, where the text names a rank.
/// A tier of the apex band has no divisions: its division is not read.
pub open spec fn league_value(tier: Seq<char>, rank: Seq<char>, points: int) -> Option<int> {
    match Tier::from_label(tier) {
        None => None,
        Some(t) => if t.is_apex() {
            Some(t.base() + points)
        } else {
            match Division::from_label(rank) {
                None => None,
                Some(d) => Some(t.base() + d.offset() + points),
            }
        },
    }
}

/// The encoded value of a rank given as text, as an `i32`, or the reason why
/// there is none.
pub open spec fn checked_value(tier: Seq<char>, rank: Seq<char>, points: i32) -> Result<
    i32,
    RankError,
> {
    match Tier::from_label(tier) {
        None => Err(RankError::UnknownTier),
        Some(t) => match league_value(tier, rank, points as int) {
            None => Err(RankError::UnknownDivision),
            Some(v) => if i32::MIN <= v <= i32::MAX {
                Ok(v as i32)
            } else {
                Err(RankError::OutOfRange)
            },
        },
    }
}

/// The division that the value `x` decodes to: `I` in the apex band, else
/// by the hundred that `x` lies in above the start of its band.
pub open spec fn decoded_division(x: int) -> Division {
    let rest = x - Band::of(x).base();
    if Band::of(x) is Apex {
        Division::I
    } else if rest < 100 {
        Division::IV
    } else if rest < 200 {
        Division::III
    } else if rest < 300 {
        Division::II
    } else {
        Division::I
    }
}

/// The points that the value `x` decodes to: what is left of `x` above the
/// start of its band and, below the apex, of its division.
pub open spec fn decoded_points(x: int) -> int {
    let rest = x - Band::of(x).base();
    if Band::of(x) is Apex {
        rest
    } else {
        rest - decoded_division(x).offset()
    }
}

/// A rank written out: tier, division and points, as in `GOLD III 50LP`.
pub open spec fn rendered(league: Seq<char>, rank: Seq<char>, points: int) -> Seq<char> {
    league + seq![' '] + rank + seq![' '] + decimal(points) + seq!['L', 'P']
}

/// The value `x` decoded and written out.
pub open spec fn elo_text(x: int) -> Seq<char> {
    rendered(Band::of(x).label(), decoded_division(x).label(), decoded_points(x))
}

/// A rank as text: the name of a tier, the name of a division, and points.
pub type RankText = (Seq<char>, Seq<char>, i32);

/// The encoded value of one team member, where the member's rank is valid.
pub open spec fn entry_value(e: RankText) -> Option<int> {
    league_value(e.0, e.1, e.2 as int)
}

/// The weight of one team member in the vote on an apex label: that of the
/// member's tier, and nothing for a tier name that is unknown.
pub open spec fn entry_weight(e: RankText) -> int {
    match Tier::from_label(e.0) {
        Some(t) => t.weight(),
        None => 0,
    }
}

/// Whether every member of the team has a rank with an encoded value.
pub open spec fn team_valid(ranks: Seq<RankText>) -> bool {
    forall|i: int| 0 <= i < ranks.len() ==> (#[trigger] entry_value(ranks[i])) is Some
}

/// The sum of the members' encoded values.
pub open spec fn team_total(ranks: Seq<RankText>) -> int
    decreases ranks.len(),
{
    if ranks.len() == 0 {
        0
    } else {
        team_total(ranks.drop_last()) + entry_value(ranks.last()).unwrap()
    }
}

/// The sum of the members' weights.
pub open spec fn team_weight(ranks: Seq<RankText>) -> int
    decreases ranks.len(),
{
    if ranks.len() == 0 {
        0
    } else {
        team_weight(ranks.drop_last()) + entry_weight(ranks.last())
    }
}

/// The quotient of `a` by a positive `b`, rounded toward zero.
pub open spec fn toward_zero(a: int, b: int) -> int {
    if a >= 0 {
        a / b
    } else {
        -((-a) / b)
    }
}

/// The mean of the members' encoded values, rounded toward zero.
pub open spec fn team_mean(ranks: Seq<RankText>) -> int {
    toward_zero(team_total(ranks), ranks.len() as int)
}

/// The tier name that a team in the apex band gets for a sum of weights.
pub open spec fn apex_label(weight: int) -> Seq<char> {
    if weight < 12 {
        Tier::Master.label()
    } else if weight < 20 {
        Tier::Grandmaster.label()
    } else {
        Tier::Challenger.label()
    }
}

/// The team's average rank written out. The mean of the encoded values is
/// decoded; where it falls into the apex band, the members' tiers vote on
/// the label, and division and points stay those of the mean.
pub open spec fn team_text(ranks: Seq<RankText>) -> Seq<char> {
    let mean = team_mean(ranks);
    let label = if Band::of(mean) is Apex {
        apex_label(team_weight(ranks))
    } else {
        Band::of(mean).label()
    };
    rendered(label, decoded_division(mean).label(), decoded_points(mean))
}

/// Every tier and every division is read back from its own name: no two
/// of the names are the same text.
pub proof fn lemma_names_are_read_back(t: Tier, d: Division)
    ensures
        Tier::from_label(t.label()) == Some(t),
        Division::from_label(d.label()) == Some(d),
{
    reveal_strlit("IRON");
    reveal_strlit("BRONZE");
    reveal_strlit("SILVER");
    reveal_strlit("GOLD");
    reveal_strlit("PLATINUM");
    reveal_strlit("DIAMOND");
    reveal_strlit("MASTER");
    reveal_strlit("GRANDMASTER");
    reveal_strlit("CHALLENGER");
    reveal_strlit("IV");
    reveal_strlit("III");
    reveal_strlit("II");
    reveal_strlit("I");
    assert("IRON"@[0] == 'I' && "BRONZE"@[0] == 'B' && "SILVER"@[0] == 'S' && "GOLD"@[0] == 'G');
    assert("PLATINUM"@[0] == 'P' && "DIAMOND"@[0] == 'D' && "MASTER"@[0] == 'M');
    assert("GRANDMASTER"@[1] == 'R' && "GOLD"@[1] == 'O' && "CHALLENGER"@[0] == 'C');
    assert("MASTER"@.len() == 6 && "GRANDMASTER"@.len() == 11);
    assert("IV"@.len() == 2 && "III"@.len() == 3 && "II"@.len() == 2 && "I"@.len() == 1);
    assert("IV"@[1] == 'V' && "II"@[1] == 'I');
}

/// Decoding an encoded rank gives the rank back: for points from 0 to 99, a
/// rank below the apex decodes to its own tier, division and points, and a
/// rank of an apex tier decodes to the apex band, division `I` and its own
/// points.
pub proof fn lemma_decode_inverts_encode(tier: Seq<char>, rank: Seq<char>, points: int)
    requires
        0 <= points < 100,
        league_value(tier, rank, points) is Some,
    ensures
        ({
            let v = league_value(tier, rank, points).unwrap();
            let t = Tier::from_label(tier).unwrap();
            &&& decoded_points(v) == points
            &&& t.is_apex() ==> Band::of(v).label() == "MASTER+"@ && decoded_division(v).label()
                == "I"@
            &&& !t.is_apex() ==> Band::of(v).label() == tier && decoded_division(v).label() == rank
        }),
{
}

/// What `x` decodes to, for values wider than an `i32`.
fn decode(x: i64) -> (r: (Band, Division, i64))
    ensures
        r.0 == Band::of(x as int),
        r.1 == decoded_division(x as int),
        r.2 == decoded_points(x as int),
{
    let (band, rest): (Band, i64) = if x < 400 {
        (Band::Iron, x)
    } else if x < 800 {
        (Band::Bronze, x - 400)
    } else if x < 1200 {
        (Band::Silver, x - 800)
    } else if x < 1600 {
        (Band::Gold, x - 1200)
    } else if x < 2000 {
        (Band::Platinum, x - 1600)
    } else if x < 2400 {
        (Band::Diamond, x - 2000)
    } else {
        (Band::Apex, x - 2400)
    };
    match band {
        Band::Apex => (band, Division::I, rest),
        _ => if rest < 100 {
            (band, Division::IV, rest)
        } else if rest < 200 {
            (band, Division::III, rest - 100)
        } else if rest < 300 {
            (band, Division::II, rest - 200)
        } else {
            (band, Division::I, rest - 300)
        },
    }
}

/// Writes out a rank whose points may be wider than an `i32`.
fn render(league: &str, rank: &str, points: i64) -> (text: String)
    ensures
        text@ == rendered(league@, rank@, points as int),
{
    proof {
        reveal_strlit(" ");
        reveal_strlit("LP");
    }
    let mut text = league.to_owned();
    text.append(" ");
    text.append(rank);
    text.append(" ");
    push_decimal(&mut text, points);
    text.append("LP");
    assert(" "@ =~= seq![' ']);
    assert("LP"@ =~= seq!['L', 'P']);
    text
}

/// The encoded value of the rank that `tier`, `rank` and `league_points`
/// name, or the reason why there is none.
pub fn try_league_to_numeric(tier: &str, rank: &str, league_points: i32) -> (r: Result<
    i32,
    RankError,
>)
    ensures
        r == checked_value(tier@, rank@, league_points),
{
    let t = match Tier::from_name(tier) {
        Some(t) => t,
        None => {
            return Err(RankError::UnknownTier);
        },
    };
    let offset: i32 = if t.apex() {
        0
    } else {
        match Division::from_name(rank) {
            Some(d) => d.band_offset(),
            None => {
                return Err(RankError::UnknownDivision);
            },
        }
    };
    let value: i64 = t.band_start() as i64 + offset as i64 + league_points as i64;
    if value < i32::MIN as i64 || value > i32::MAX as i64 {
        Err(RankError::OutOfRange)
    } else {
        Ok(value as i32)
    }
}

/// The encoded value of a rank: the start of the tier's band, plus the
/// division's offset below the apex, plus the points.
pub fn league_to_numeric(tier: &str, rank: &str, league_points: i32) -> (value: i32)
    requires
        league_value(tier@, rank@, league_points as int) matches Some(v) && i32::MIN <= v
            <= i32::MAX,
    ensures
        league_value(tier@, rank@, league_points as int) == Some(value as int),
{
    match try_league_to_numeric(tier, rank, league_points) {
        Ok(value) => value,
        Err(_) => unreached(),
    }
}

/// Decodes a value into the name of its band, the name of its division and
/// its points.
pub fn numeric_to_league(x: i32) -> (r: (String, String, i32))
    ensures
        r.0@ == Band::of(x as int).label(),
        r.1@ == decoded_division(x as int).label(),
        r.2 == decoded_points(x as int),
{
    let (band, division, points) = decode(x as i64);
    (band.name().to_owned(), division.name().to_owned(), points as i32)
}

/// Writes out a rank as `<tier> <division> <points>LP`.
pub fn league_to_str(league: &str, rank: &str, lp: i32) -> (text: String)
    ensures
        text@ == rendered(league@, rank@, lp as int),
{
    render(league, rank, lp as i64)
}

/// Decodes a value and writes out the rank.
pub fn elo_to_str(x: i32) -> (text: String)
    ensures
        text@ == elo_text(x as int),
{
    let (band, division, points) = decode(x as i64);
    render(band.name(), division.name(), points)
}

/// The label of a team in the apex band, by the members' votes.
fn apex_name(weight: i128) -> (s: &'static str)
    ensures
        s@ == apex_label(weight as int),
{
    if weight < 12 {
        Tier::Master.name()
    } else if weight < 20 {
        Tier::Grandmaster.name()
    } else {
        Tier::Challenger.name()
    }
}

/// The average rank of a team, written out.
pub fn team_avg_rank_str(ranks: &[(String, String, i32)]) -> (text: String)
    requires
        ranks.deep_view().len() > 0,
        team_valid(ranks.deep_view()),
    ensures
        text@ == team_text(ranks.deep_view()),
{
    let ghost members = ranks.deep_view();
    let n: usize = ranks.len();
    let mut total: i128 = 0;
    let mut weight: i128 = 0;
    let mut i: usize = 0;
    while i < n
        invariant
            i <= n,
            n == ranks@.len(),
            members == ranks.deep_view(),
            members.len() == n,
            team_valid(members),
            total == team_total(members.take(i as int)),
            weight == team_weight(members.take(i as int)),
            -0x1_0000_0000 * i <= total <= 0x1_0000_0000 * i,
            0 <= weight <= 3 * i,
        decreases n - i,
    {
        let entry = &ranks[i];
        proof {
            assert(members.take(i as int + 1).drop_last() =~= members.take(i as int));
            assert(members.take(i as int + 1).last() == members[i as int]);
            assert(entry_value(members[i as int]) is Some);
            assert(members[i as int] == (entry.0@, entry.1@, entry.2));
        }
        let tier = Tier::from_name(entry.0.as_str());
        let t = match tier {
            Some(t) => t,
            None => unreached(),
        };
        let offset: i32 = if t.apex() {
            0
        } else {
            match Division::from_name(entry.1.as_str()) {
                Some(d) => d.band_offset(),
                None => unreached(),
            }
        };
        total = total + (t.band_start() as i128 + offset as i128 + entry.2 as i128);
        weight = weight + match t {
            Tier::Challenger => 3,
            Tier::Grandmaster => 2,
            Tier::Master => 1,
            _ => 0,
        };
        i += 1;
    }
    assert(members.take(n as int) =~= members);
    let count: i128 = n as i128;
    let mean: i128 = if total >= 0 {
        total / count
    } else {
        -((-total) / count)
    };
    assert(mean == toward_zero(total as int, count as int));
    assert(-0x1_0000_0000 <= mean <= 0x1_0000_0000) by (nonlinear_arith)
        requires
            count > 0,
            -0x1_0000_0000 * count <= total <= 0x1_0000_0000 * count,
            mean == toward_zero(total as int, count as int),
    ;
    let (band, division, points) = decode(mean as i64);
    let label: &str = match band {
        Band::Apex => apex_name(weight),
        _ => band.name(),
    };
    render(label, division.name(), points)
}

} // verus!
