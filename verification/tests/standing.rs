use tft_stat::standing::{pick_ranked, status_name};

fn queues(list: &[&str]) -> Vec<String> {
    list.iter().map(|s| s.to_string()).collect()
}

#[test]
fn the_first_entry_of_the_ranked_queue_is_picked() {
    assert_eq!(pick_ranked(&queues(&["RANKED_TFT"])), Some(0));
    assert_eq!(
        pick_ranked(&queues(&["RANKED_TFT_TURBO", "RANKED_TFT", "RANKED_TFT"])),
        Some(1)
    );
    assert_eq!(
        pick_ranked(&queues(&["RANKED_SOLO_5x5", "RANKED_FLEX_SR", "RANKED_TFT"])),
        Some(2)
    );
}

#[test]
fn a_player_without_ranked_entry_has_none() {
    assert_eq!(pick_ranked(&Vec::new()), None);
    assert_eq!(
        pick_ranked(&queues(&["RANKED_TFT_TURBO", "ranked_tft", "RANKED_TFT "])),
        None
    );
}

#[test]
fn status_names() {
    assert_eq!(status_name(true), "ranked");
    assert_eq!(status_name(false), "unranked");
}
