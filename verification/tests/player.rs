use tft_stat::cache::{Failure, Outcome};
use tft_stat::player::{
    PlayerAction, PlayerEvent, PlayerFailure, PlayerRun, Tally, PLAYERS_AT_ONCE, RECENT_MATCHES,
    START_PAUSE,
};

fn ids(list: &[&str]) -> Vec<String> {
    list.iter().map(|s| s.to_string()).collect()
}

#[test]
fn player_constants() {
    assert_eq!(RECENT_MATCHES, 10);
    assert_eq!(PLAYERS_AT_ONCE, 10);
    assert_eq!(START_PAUSE, 2000);
}

#[test]
fn matches_are_resolved_in_order_and_counted() {
    let mut run = PlayerRun::new();
    assert_eq!(
        run.step(PlayerEvent::Player("puuid-1".to_string())),
        PlayerAction::ListMatches { puuid: "puuid-1".to_string(), limit: 10 }
    );
    assert_eq!(
        run.step(PlayerEvent::Matches(ids(&["m1", "m2", "m3", "m4", "m5"]))),
        PlayerAction::Resolve("m1".to_string())
    );
    assert_eq!(
        run.step(PlayerEvent::Resolved(Outcome::Stored)),
        PlayerAction::Resolve("m2".to_string())
    );
    assert_eq!(
        run.step(PlayerEvent::Resolved(Outcome::Hit)),
        PlayerAction::Resolve("m3".to_string())
    );
    assert_eq!(
        run.step(PlayerEvent::Resolved(Outcome::Failed(Failure::Enrichment))),
        PlayerAction::Resolve("m4".to_string())
    );
    assert_eq!(run.tally(), Tally { fresh: 1, repeat: 1, tombstoned: 0 });
    assert_eq!(
        run.step(PlayerEvent::Resolved(Outcome::Tombstoned)),
        PlayerAction::Resolve("m5".to_string())
    );
    assert_eq!(
        run.step(PlayerEvent::Resolved(Outcome::Stored)),
        PlayerAction::Finish(Tally { fresh: 2, repeat: 1, tombstoned: 1 })
    );
}

#[test]
fn player_without_matches_finishes_at_once() {
    let mut run = PlayerRun::new();
    run.step(PlayerEvent::Player("p".to_string()));
    assert_eq!(
        run.step(PlayerEvent::Matches(Vec::new())),
        PlayerAction::Finish(Tally { fresh: 0, repeat: 0, tombstoned: 0 })
    );
}

#[test]
fn failed_resolutions_are_passed_over() {
    let mut run = PlayerRun::new();
    run.step(PlayerEvent::Player("p".to_string()));
    run.step(PlayerEvent::Matches(ids(&["a", "b"])));
    assert_eq!(
        run.step(PlayerEvent::Resolved(Outcome::Failed(Failure::Store))),
        PlayerAction::Resolve("b".to_string())
    );
    assert_eq!(
        run.step(PlayerEvent::Resolved(Outcome::Failed(Failure::Clock))),
        PlayerAction::Finish(Tally { fresh: 0, repeat: 0, tombstoned: 0 })
    );
}

#[test]
fn player_that_cannot_be_fetched_is_abandoned() {
    let mut run = PlayerRun::new();
    assert_eq!(
        run.step(PlayerEvent::Failed),
        PlayerAction::Abandon(PlayerFailure::Player)
    );
}

#[test]
fn player_whose_matches_cannot_be_listed_is_abandoned() {
    let mut run = PlayerRun::new();
    run.step(PlayerEvent::Player("p".to_string()));
    assert_eq!(
        run.step(PlayerEvent::Failed),
        PlayerAction::Abandon(PlayerFailure::Matches)
    );
}

#[test]
fn events_out_of_turn_abandon_the_player() {
    let mut run = PlayerRun::new();
    assert_eq!(
        run.step(PlayerEvent::Matches(ids(&["a"]))),
        PlayerAction::Abandon(PlayerFailure::Protocol)
    );
    assert_eq!(
        run.step(PlayerEvent::Player("p".to_string())),
        PlayerAction::Abandon(PlayerFailure::Protocol)
    );

    let mut run = PlayerRun::new();
    run.step(PlayerEvent::Player("p".to_string()));
    assert_eq!(
        run.step(PlayerEvent::Resolved(Outcome::Hit)),
        PlayerAction::Abandon(PlayerFailure::Protocol)
    );

    let mut run = PlayerRun::new();
    run.step(PlayerEvent::Player("p".to_string()));
    run.step(PlayerEvent::Matches(ids(&["a"])));
    assert_eq!(
        run.step(PlayerEvent::Failed),
        PlayerAction::Abandon(PlayerFailure::Protocol)
    );
}
