//! The decisions of a harvester of ranked-ladder standings and matches.
//!
//! The harvester walks the ladder of a region, works through the players it
//! finds with a bounded number of tasks at once, and stores each player's
//! recent matches together with what is known about their participants. The
//! store is a read-through cache: an entity is fetched only where the store
//! does not hold it.
//!
//! This crate holds what the harvester decides and computes; it makes no
//! request and stores nothing itself. Each part that waits for the outside
//! world is a state machine that names the next call and is told what came
//! of it:
//!
//! - [`rank`]: ranks as a single ordered integer, and a team's average rank;
//! - [`scheduler`]: a queue of tasks with a ceiling on how many run at once;
//! - [`ladder`]: the players of a list of tiers and divisions, with retries;
//! - [`cache`]: resolving an entity by its id, and when documents expire;
//! - [`fanout`]: the participants of a match and the skill of their team;
//! - [`player`]: a player's recent matches, counted by how they ended;
//! - [`standing`]: which league entry is a player's standing;
//! - [`document`]: the fields of stored documents;
//! - [`text`]: comparing text and writing numbers.

pub mod cache;
pub mod document;
pub mod fanout;
pub mod ladder;
pub mod player;
pub mod rank;
pub mod scheduler;
pub mod standing;
pub mod text;
