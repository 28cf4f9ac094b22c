//! The two read operations of the query interface, as far as they decide
//! anything: which query runs, and what is answered for each outcome.
//!
//! Listening, routing and the encoding of a reply as JSON are left to the
//! caller.

use vstd::prelude::*;
use crate::error::StorageError;
use crate::ranking::{accepts, all_games_filter, is_ranked, views};
use crate::record::Game;
use crate::store::GameDataBase;

verus! {

/// The status of a reply that carries records.
pub const STATUS_OK: u16 = 200;

/// The status of a reply to a query that the store could not answer.
pub const STATUS_STORAGE_UNAVAILABLE: u16 = 500;

/// The error code in the body of a reply to a query that the store could
/// not answer.
pub const STORAGE_UNAVAILABLE: &'static str = "storage_unavailable";

/// What a read operation answers.
#[derive(Clone, Debug, PartialEq, Eq)]
pub enum Reply {
    /// The records asked for, highest score first; there may be none.
    Ranking(Vec<Game>),
    /// The store failed. The failure itself is not shown to the client.
    StorageUnavailable,
}

impl Reply {
    /// The HTTP status that goes with the reply.
    pub open spec fn status_of(self) -> u16 {
        match self {
            Reply::Ranking(_) => STATUS_OK,
            Reply::StorageUnavailable => STATUS_STORAGE_UNAVAILABLE,
        }
    }

    /// The HTTP status that goes with the reply.
    pub fn status(&self) -> (status: u16)
        ensures
            status == self.status_of(),
    {
        match self {
            Reply::Ranking(_) => STATUS_OK,
            Reply::StorageUnavailable => STATUS_STORAGE_UNAVAILABLE,
        }
    }
}

/// Turns the outcome of a query into a reply: the records as they are, and
/// any failure of the store into the one reply that says so.
pub fn respond(outcome: Result<Vec<Game>, StorageError>) -> (reply: Reply)
    ensures
        match outcome {
            Ok(records) => reply == Reply::Ranking(records),
            Err(_) => reply == Reply::StorageUnavailable,
        },
{
    match outcome {
        Ok(records) => Reply::Ranking(records),
        Err(_) => Reply::StorageUnavailable,
    }
}

/// Answers a request for the records of every game.
pub fn get_all_game(db: &GameDataBase) -> (reply: Reply)
    ensures
        !db.is_open() ==> reply == Reply::StorageUnavailable,
        reply matches Reply::Ranking(records) ==> is_ranked(views(records@)),
{
    respond(db.get_all_for_game(all_games_filter()))
}

/// Answers a request for the records of the game `name`. The name is used
/// as it is given: no trimming, no change of case.
pub fn get_game_by_name(db: &GameDataBase, name: &str) -> (reply: Reply)
    ensures
        !db.is_open() ==> reply == Reply::StorageUnavailable,
        reply matches Reply::Ranking(records) ==> is_ranked(views(records@)) && forall|i: int|
            0 <= i < records.len() ==> accepts(name@, #[trigger] records[i].game@),
{
    respond(db.get_all_for_game(name))
}

} // verus!
