use tft_stat::ladder::{
    Enumerator, LadderAction, LadderEvent, LadderFailure, LadderPhase, FIRST_PAGE, MAX_ATTEMPTS,
    RETRY_DELAY,
};
use tft_stat::rank::Tier;

fn pairs(list: &[(&str, &str)]) -> Vec<(String, String)> {
    list.iter().map(|(t, d)| (t.to_string(), d.to_string())).collect()
}

fn ids(list: &[&str]) -> Vec<String> {
    list.iter().map(|s| s.to_string()).collect()
}

fn page(tier: &str, division: &str, page: i32) -> LadderAction {
    LadderAction::FetchPage { tier: tier.to_string(), division: division.to_string(), page }
}

#[test]
fn ladder_constants() {
    assert_eq!(MAX_ATTEMPTS, 5);
    assert_eq!(RETRY_DELAY, 20);
    assert_eq!(FIRST_PAGE, 1);
}

#[test]
fn empty_table_is_finished_at_once() {
    let (walk, action) = Enumerator::new(Vec::new());
    assert_eq!(action, LadderAction::Finish);
    assert_eq!(walk.phase(), LadderPhase::Finished);
    assert!(walk.into_ids().is_empty());
}

#[test]
fn paged_tier_is_fetched_until_a_page_is_empty() {
    let (mut walk, action) = Enumerator::new(pairs(&[("DIAMOND", "I")]));
    assert_eq!(action, page("DIAMOND", "I", 1));
    assert_eq!(
        walk.step(LadderEvent::Entries(ids(&["a", "b"]))),
        page("DIAMOND", "I", 2)
    );
    assert_eq!(
        walk.step(LadderEvent::Entries(ids(&["c"]))),
        page("DIAMOND", "I", 3)
    );
    assert!(walk.ids().is_empty());
    assert_eq!(walk.step(LadderEvent::Entries(Vec::new())), LadderAction::Finish);
    assert_eq!(walk.phase(), LadderPhase::Finished);
    assert_eq!(walk.into_ids(), ids(&["a", "b", "c"]));
}

#[test]
fn apex_tier_is_fetched_as_one_list() {
    let (mut walk, action) = Enumerator::new(pairs(&[
        ("CHALLENGER", "I"),
        ("GRANDMASTER", "I"),
        ("MASTER", "I"),
    ]));
    assert_eq!(action, LadderAction::FetchApex(Tier::Challenger));
    assert_eq!(
        walk.step(LadderEvent::Entries(ids(&["c1", "c2"]))),
        LadderAction::FetchApex(Tier::Grandmaster)
    );
    // an empty apex list completes the pair as well
    assert_eq!(
        walk.step(LadderEvent::Entries(Vec::new())),
        LadderAction::FetchApex(Tier::Master)
    );
    assert_eq!(
        walk.step(LadderEvent::Entries(ids(&["m1"]))),
        LadderAction::Finish
    );
    assert_eq!(walk.into_ids(), ids(&["c1", "c2", "m1"]));
}

#[test]
fn ids_keep_the_order_of_pairs_and_pages_and_may_repeat() {
    let (mut walk, action) = Enumerator::new(pairs(&[
        ("DIAMOND", "I"),
        ("MASTER", "I"),
        ("PLATINUM", "III"),
    ]));
    assert_eq!(action, page("DIAMOND", "I", 1));
    walk.step(LadderEvent::Entries(ids(&["x", "y"])));
    walk.step(LadderEvent::Entries(ids(&["x"])));
    assert_eq!(
        walk.step(LadderEvent::Entries(Vec::new())),
        LadderAction::FetchApex(Tier::Master)
    );
    assert_eq!(walk.ids(), &ids(&["x", "y", "x"]));
    assert_eq!(
        walk.step(LadderEvent::Entries(ids(&["y", "z"]))),
        page("PLATINUM", "III", 1)
    );
    assert_eq!(walk.step(LadderEvent::Entries(Vec::new())), LadderAction::Finish);
    assert_eq!(walk.into_ids(), ids(&["x", "y", "x", "y", "z"]));
}

#[test]
fn names_that_are_no_tier_are_fetched_by_page() {
    let (mut walk, action) = Enumerator::new(pairs(&[("EMERALD", "II"), ("master", "I")]));
    assert_eq!(action, page("EMERALD", "II", 1));
    assert_eq!(
        walk.step(LadderEvent::Entries(Vec::new())),
        page("master", "I", 1)
    );
}

#[test]
fn failed_attempt_rests_and_begins_the_pair_again() {
    let (mut walk, _) = Enumerator::new(pairs(&[("DIAMOND", "I"), ("DIAMOND", "II")]));
    walk.step(LadderEvent::Entries(ids(&["a", "b"])));
    assert_eq!(walk.step(LadderEvent::Failed), LadderAction::Rest(20));
    assert_eq!(walk.phase(), LadderPhase::Resting);
    assert_eq!(walk.failures(), 1);
    // the pair starts again at its first page; what was gathered is not used
    assert_eq!(walk.step(LadderEvent::Rested), page("DIAMOND", "I", 1));
    walk.step(LadderEvent::Entries(ids(&["c"])));
    assert_eq!(
        walk.step(LadderEvent::Entries(Vec::new())),
        page("DIAMOND", "II", 1)
    );
    assert_eq!(walk.ids(), &ids(&["c"]));
    // the next pair has all its attempts
    assert_eq!(walk.failures(), 0);
}

#[test]
fn fifth_failure_is_fatal_and_no_sixth_attempt_is_made() {
    let (mut walk, action) = Enumerator::new(pairs(&[("PLATINUM", "I")]));
    let mut attempts = 0;
    let mut next = action;
    loop {
        match next {
            LadderAction::FetchPage { ref tier, ref division, page } => {
                assert_eq!((tier.as_str(), division.as_str(), page), ("PLATINUM", "I", 1));
                attempts += 1;
                next = walk.step(LadderEvent::Failed);
            }
            LadderAction::Rest(seconds) => {
                assert_eq!(seconds, 20);
                next = walk.step(LadderEvent::Rested);
            }
            LadderAction::Fatal(failure) => {
                assert_eq!(failure, LadderFailure::Exhausted);
                break;
            }
            other => panic!("{:?}", other),
        }
    }
    assert_eq!(attempts, 5);
    assert_eq!(walk.failures(), 5);
    assert_eq!(walk.phase(), LadderPhase::Fatal(LadderFailure::Exhausted));
    for event in [LadderEvent::Rested, LadderEvent::Failed, LadderEvent::Entries(ids(&["a"]))] {
        assert_eq!(walk.step(event), LadderAction::Fatal(LadderFailure::Exhausted));
    }
    assert!(walk.into_ids().is_empty());
}

#[test]
fn failures_at_later_pages_count_as_well() {
    let (mut walk, _) = Enumerator::new(pairs(&[("MASTER", "I"), ("GOLD", "IV")]));
    walk.step(LadderEvent::Entries(ids(&["m"])));
    for attempt in 1..5 {
        for _ in 0..attempt {
            walk.step(LadderEvent::Entries(ids(&["g"])));
        }
        assert_eq!(walk.step(LadderEvent::Failed), LadderAction::Rest(20));
        assert_eq!(walk.step(LadderEvent::Rested), page("GOLD", "IV", 1));
    }
    walk.step(LadderEvent::Entries(ids(&["g"])));
    assert_eq!(
        walk.step(LadderEvent::Failed),
        LadderAction::Fatal(LadderFailure::Exhausted)
    );
    // what the completed pairs delivered is still there
    assert_eq!(walk.into_ids(), ids(&["m"]));
}

#[test]
fn four_failures_leave_one_attempt() {
    let (mut walk, _) = Enumerator::new(pairs(&[("CHALLENGER", "I")]));
    for _ in 0..4 {
        assert_eq!(walk.step(LadderEvent::Failed), LadderAction::Rest(20));
        assert_eq!(
            walk.step(LadderEvent::Rested),
            LadderAction::FetchApex(Tier::Challenger)
        );
    }
    assert_eq!(
        walk.step(LadderEvent::Entries(ids(&["p"]))),
        LadderAction::Finish
    );
    assert_eq!(walk.into_ids(), ids(&["p"]));
}

#[test]
fn finished_walk_stays_finished() {
    let (mut walk, _) = Enumerator::new(pairs(&[("MASTER", "I")]));
    walk.step(LadderEvent::Entries(ids(&["p"])));
    for event in [LadderEvent::Rested, LadderEvent::Failed, LadderEvent::Entries(ids(&["q"]))] {
        assert_eq!(walk.step(event), LadderAction::Finish);
    }
    assert_eq!(walk.into_ids(), ids(&["p"]));
}

#[test]
fn events_out_of_turn_are_fatal() {
    let (mut walk, _) = Enumerator::new(pairs(&[("DIAMOND", "I")]));
    assert_eq!(
        walk.step(LadderEvent::Rested),
        LadderAction::Fatal(LadderFailure::Protocol)
    );
    let (mut walk, _) = Enumerator::new(pairs(&[("DIAMOND", "I")]));
    walk.step(LadderEvent::Failed);
    assert_eq!(
        walk.step(LadderEvent::Entries(Vec::new())),
        LadderAction::Fatal(LadderFailure::Protocol)
    );
    let (mut walk, _) = Enumerator::new(pairs(&[("DIAMOND", "I")]));
    walk.step(LadderEvent::Failed);
    assert_eq!(
        walk.step(LadderEvent::Failed),
        LadderAction::Fatal(LadderFailure::Protocol)
    );
    assert_eq!(walk.phase(), LadderPhase::Fatal(LadderFailure::Protocol));
}
