use tft_stat::fanout::{
    Fanout, FanoutAction, FanoutError, FanoutEvent, IdentityFields, Participant, StandingFields,
    TeamSkill, TEAM_SIZE, UNKNOWN_SKILL,
};
use tft_stat::rank::RankError;

fn identity(n: usize) -> IdentityFields {
    IdentityFields {
        id: Some(format!("id{}", n)),
        name: Some(format!("name{}", n)),
        account_id: Some(format!("acc{}", n)),
    }
}

fn ranked(tier: &str, rank: &str, points: i32) -> StandingFields {
    StandingFields {
        tier: Some(tier.to_string()),
        rank: Some(rank.to_string()),
        league_points: Some(points),
        status: Some("ranked".to_string()),
    }
}

fn unranked() -> StandingFields {
    StandingFields {
        tier: None,
        rank: None,
        league_points: None,
        status: Some("unranked".to_string()),
    }
}

fn handles(n: usize) -> Vec<String> {
    (0..n).map(|i| format!("puuid{}", i)).collect()
}

// Resolves every participant with the standing given for it.
fn enrich(standings: Vec<StandingFields>) -> (Fanout, FanoutAction) {
    let (mut fanout, mut action) = Fanout::new(handles(standings.len()));
    for (i, standing) in standings.into_iter().enumerate() {
        assert_eq!(action, FanoutAction::ResolveIdentity(format!("puuid{}", i)));
        action = fanout.step(FanoutEvent::Identity(identity(i)));
        assert_eq!(action, FanoutAction::ResolveStanding(format!("id{}", i)));
        assert_eq!(fanout.players().len(), i);
        action = fanout.step(FanoutEvent::Standing(standing));
    }
    (fanout, action)
}

#[test]
fn fanout_constants() {
    assert_eq!(TEAM_SIZE, 8);
    assert_eq!(UNKNOWN_SKILL, i32::MIN);
}

#[test]
fn eight_ranked_participants_have_a_team_skill() {
    let points = [1144, 653, 625, 506, 526, 192, 0];
    let tiers = [
        "CHALLENGER",
        "CHALLENGER",
        "CHALLENGER",
        "GRANDMASTER",
        "GRANDMASTER",
        "MASTER",
        "MASTER",
    ];
    let mut standings: Vec<StandingFields> = (0..7)
        .map(|i| ranked(tiers[i], "I", points[i]))
        .collect();
    standings.push(ranked("DIAMOND", "II", 0));
    let (fanout, action) = enrich(standings);
    // the values are 3544 3053 3025 2906 2926 2592 2400 2200, their sum 22646
    assert_eq!(
        action,
        FanoutAction::Finish(TeamSkill {
            average: 2830,
            text: "GRANDMASTER I 430LP".to_string()
        })
    );
    assert!(fanout.is_closed());
    assert_eq!(fanout.players().len(), 8);
    assert_eq!(
        fanout.players()[3],
        Participant {
            summoner_id: "id3".to_string(),
            summoner_name: "name3".to_string(),
            account_id: "acc3".to_string(),
            puuid: "puuid3".to_string(),
            tier: "GRANDMASTER".to_string(),
            rank: "I".to_string(),
            league_points: 506,
        }
    );
}

#[test]
fn team_average_is_rounded_toward_zero() {
    let mut standings: Vec<StandingFields> = (0..7).map(|_| ranked("IRON", "IV", 0)).collect();
    standings.push(ranked("IRON", "IV", -9));
    let (_, action) = enrich(standings);
    assert_eq!(
        action,
        FanoutAction::Finish(TeamSkill { average: -1, text: "IRON IV -1LP".to_string() })
    );
}

#[test]
fn one_unranked_participant_makes_the_skill_unknown() {
    let mut standings: Vec<StandingFields> = (0..7).map(|_| ranked("GOLD", "I", 10)).collect();
    standings.insert(4, unranked());
    let (fanout, action) = enrich(standings);
    assert_eq!(
        action,
        FanoutAction::Finish(TeamSkill { average: i32::MIN, text: "UNRANKED".to_string() })
    );
    assert_eq!(
        fanout.players()[4],
        Participant {
            summoner_id: "id4".to_string(),
            summoner_name: "name4".to_string(),
            account_id: "acc4".to_string(),
            puuid: "puuid4".to_string(),
            tier: "unranked".to_string(),
            rank: "unranked".to_string(),
            league_points: i32::MIN,
        }
    );
}

#[test]
fn fewer_or_more_than_eight_ranked_is_unknown() {
    let unknown = FanoutAction::Finish(TeamSkill {
        average: i32::MIN,
        text: "UNRANKED".to_string(),
    });
    let (_, action) = enrich((0..7).map(|_| ranked("GOLD", "I", 10)).collect());
    assert_eq!(action, unknown);
    let (_, action) = enrich((0..9).map(|_| ranked("GOLD", "I", 10)).collect());
    assert_eq!(action, unknown);
    let (_, action) = enrich((0..8).map(|_| unranked()).collect());
    assert_eq!(action, unknown);
}

#[test]
fn eight_ranked_among_more_participants() {
    let mut standings: Vec<StandingFields> = (0..8).map(|_| ranked("SILVER", "II", 40)).collect();
    standings.insert(2, unranked());
    standings.push(unranked());
    let (fanout, action) = enrich(standings);
    assert_eq!(
        action,
        FanoutAction::Finish(TeamSkill { average: 1040, text: "SILVER II 40LP".to_string() })
    );
    assert_eq!(fanout.players().len(), 10);
}

#[test]
fn match_without_participants() {
    let (fanout, action) = Fanout::new(Vec::new());
    assert_eq!(
        action,
        FanoutAction::Finish(TeamSkill { average: i32::MIN, text: "UNRANKED".to_string() })
    );
    assert!(fanout.is_closed());
    assert!(fanout.players().is_empty());
}

#[test]
fn unresolved_identity_aborts() {
    let (mut fanout, _) = Fanout::new(handles(8));
    assert_eq!(
        fanout.step(FanoutEvent::Failed),
        FanoutAction::Abort(FanoutError::Unresolved)
    );
    assert!(fanout.is_closed());
}

#[test]
fn unresolved_standing_aborts() {
    let (mut fanout, _) = Fanout::new(handles(8));
    fanout.step(FanoutEvent::Identity(identity(0)));
    assert_eq!(
        fanout.step(FanoutEvent::Failed),
        FanoutAction::Abort(FanoutError::Unresolved)
    );
    assert!(fanout.is_closed());
}

#[test]
fn identity_without_id_aborts_before_the_standing_is_asked_for() {
    let (mut fanout, _) = Fanout::new(handles(8));
    let mut fields = identity(0);
    fields.id = None;
    assert_eq!(
        fanout.step(FanoutEvent::Identity(fields)),
        FanoutAction::Abort(FanoutError::MissingId)
    );
}

#[test]
fn identity_without_name_or_account_aborts_after_the_standing() {
    let (mut fanout, _) = Fanout::new(handles(8));
    let mut fields = identity(0);
    fields.name = None;
    fields.account_id = None;
    assert_eq!(
        fanout.step(FanoutEvent::Identity(fields)),
        FanoutAction::ResolveStanding("id0".to_string())
    );
    assert_eq!(
        fanout.step(FanoutEvent::Standing(unranked())),
        FanoutAction::Abort(FanoutError::MissingName)
    );

    let (mut fanout, _) = Fanout::new(handles(8));
    let mut fields = identity(0);
    fields.account_id = None;
    fanout.step(FanoutEvent::Identity(fields));
    assert_eq!(
        fanout.step(FanoutEvent::Standing(unranked())),
        FanoutAction::Abort(FanoutError::MissingAccountId)
    );
    assert!(fanout.players().is_empty());
}

#[test]
fn standing_without_status_aborts() {
    let (mut fanout, _) = Fanout::new(handles(8));
    fanout.step(FanoutEvent::Identity(identity(0)));
    let mut standing = ranked("GOLD", "I", 1);
    standing.status = None;
    assert_eq!(
        fanout.step(FanoutEvent::Standing(standing)),
        FanoutAction::Abort(FanoutError::MissingStatus)
    );
}

#[test]
fn ranked_standing_with_a_rank_that_has_no_value_aborts() {
    let cases = [
        (ranked("EMERALD", "I", 1), RankError::UnknownTier),
        (ranked("GOLD", "V", 1), RankError::UnknownDivision),
        (ranked("GOLD", "I", i32::MAX), RankError::OutOfRange),
        (
            StandingFields {
                tier: None,
                rank: None,
                league_points: None,
                status: Some("ranked".to_string()),
            },
            RankError::UnknownTier,
        ),
        (
            StandingFields {
                tier: Some("GOLD".to_string()),
                rank: None,
                league_points: Some(3),
                status: Some("ranked".to_string()),
            },
            RankError::UnknownDivision,
        ),
    ];
    for (standing, error) in cases {
        let (mut fanout, _) = Fanout::new(handles(8));
        fanout.step(FanoutEvent::Identity(identity(0)));
        assert_eq!(
            fanout.step(FanoutEvent::Standing(standing)),
            FanoutAction::Abort(FanoutError::Rank(error))
        );
        assert!(fanout.is_closed());
    }
}

#[test]
fn unranked_standing_may_hold_any_rank() {
    let standing = StandingFields {
        tier: Some("EMERALD".to_string()),
        rank: Some("V".to_string()),
        league_points: Some(5),
        status: Some("provisional".to_string()),
    };
    let (fanout, action) = enrich(vec![standing]);
    assert_eq!(
        action,
        FanoutAction::Finish(TeamSkill { average: i32::MIN, text: "UNRANKED".to_string() })
    );
    assert_eq!(fanout.players()[0].tier, "EMERALD");
    assert_eq!(fanout.players()[0].rank, "V");
    assert_eq!(fanout.players()[0].league_points, 5);
}

#[test]
fn ranked_standing_without_points_counts_the_least_points() {
    let standing = StandingFields {
        tier: Some("CHALLENGER".to_string()),
        rank: None,
        league_points: None,
        status: Some("ranked".to_string()),
    };
    let (fanout, _) = enrich(vec![standing]);
    assert_eq!(fanout.players()[0].league_points, i32::MIN);
    assert_eq!(fanout.players()[0].rank, "unranked");
}

#[test]
fn events_out_of_turn_abort() {
    let (mut fanout, _) = Fanout::new(handles(2));
    assert_eq!(
        fanout.step(FanoutEvent::Standing(unranked())),
        FanoutAction::Abort(FanoutError::Protocol)
    );
    assert_eq!(
        fanout.step(FanoutEvent::Identity(identity(0))),
        FanoutAction::Abort(FanoutError::Protocol)
    );

    let (mut fanout, _) = Fanout::new(handles(2));
    fanout.step(FanoutEvent::Identity(identity(0)));
    assert_eq!(
        fanout.step(FanoutEvent::Identity(identity(1))),
        FanoutAction::Abort(FanoutError::Protocol)
    );

    let (mut fanout, action) = enrich(vec![unranked()]);
    assert!(matches!(action, FanoutAction::Finish(_)));
    assert_eq!(
        fanout.step(FanoutEvent::Failed),
        FanoutAction::Abort(FanoutError::Protocol)
    );
}
