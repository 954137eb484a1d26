//! Which of a player's league entries is the player's skill standing.
//!
//! The upstream service lists a player's entries for several queues. The
//! standing is the first entry of the ranked queue; a player without such an
//! entry is unranked. A stored standing says which of the two it is.

use crate::text::same_text;
use vstd::prelude::*;
use vstd::string::*;

verus! {

/// Whether `queue` is the name of the ranked queue.
pub open spec fn is_ranked_queue(queue: Seq<char>) -> bool {
    queue == "RANKED_TFT"@
}

/// What a stored standing says of a player with or without an entry in the
/// ranked queue.
pub open spec fn status_label(ranked: bool) -> Seq<char> {
    if ranked {
        "ranked"@
    } else {
        "unranked"@
    }
}

/// Whether `at` is the place of the first entry of the ranked queue among
/// the entries with the queues `queues`.
pub open spec fn is_first_ranked(queues: Seq<Seq<char>>, at: int) -> bool {
    &&& 0 <= at < queues.len()
    &&& is_ranked_queue(queues[at])
    &&& forall|i: int| 0 <= i < at ==> !is_ranked_queue(#[trigger] queues[i])
}

/// Whether none of the entries with the queues `queues` is of the ranked queue.
pub open spec fn none_ranked(queues: Seq<Seq<char>>) -> bool {
    forall|i: int| 0 <= i < queues.len() ==> !is_ranked_queue(#[trigger] queues[i])
}

/// Finds the player's standing among the entries of a player, given the
/// queue of each entry in order: the place of the first entry of the ranked
/// queue, or nothing where the player has none.
pub fn pick_ranked(queues: &Vec<String>) -> (picked: Option<usize>)
    ensures
        match picked {
            Some(at) => is_first_ranked(queues.deep_view(), at as int),
            None => none_ranked(queues.deep_view()),
        },
{
    let ghost names = queues.deep_view();
    let mut i: usize = 0;
    while i < queues.len()
        invariant
            i <= queues.len(),
            names == queues.deep_view(),
            names.len() == queues.len(),
            forall|k: int| 0 <= k < i ==> !is_ranked_queue(#[trigger] names[k]),
        decreases queues.len() - i,
    {
        assert(names[i as int] == queues@[i as int]@);
        if same_text(queues[i].as_str(), "RANKED_TFT") {
            return Some(i);
        }
        i += 1;
    }
    None
}

/// What to store as the status of a player: `ranked` for a player with an
/// entry in the ranked queue, else `unranked`.
pub fn status_name(ranked: bool) -> (status: &'static str)
    ensures
        status@ == status_label(ranked),
{
    if ranked {
        "ranked"
    } else {
        "unranked"
    }
}

} // verus!
