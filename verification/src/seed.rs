//! Bringing a store up: connecting, initializing the schema and inserting
//! the seed records.

use vstd::prelude::*;
use crate::error::{Stage, StorageError};
use crate::ranking::views;
use crate::record::{Game, GameView};
use crate::store::GameDataBase;

verus! {

/// One seed record, as mathematics.
pub open spec fn seed_view(game: &str, player_name: &str, score: nat) -> GameView {
    GameView { game: game@, player_name: player_name@, score }
}

/// The seed records, as mathematics: four scores in each of two games.
pub open spec fn seed_views() -> Seq<GameView> {
    seq![
        seed_view("snake", "austin", 10),
        seed_view("snake", "alec", 19),
        seed_view("snake", "keith", 15),
        seed_view("snake", "karen", 16),
        seed_view("breakout", "austin", 35),
        seed_view("breakout", "alec", 30),
        seed_view("breakout", "keith", 32),
        seed_view("breakout", "karen", 33),
    ]
}

/// Builds one seed record.
fn seed_record(game: &str, player_name: &str, score: u64) -> (record: Game)
    ensures
        record@ == seed_view(game, player_name, score as nat),
{
    Game::new(game.to_owned(), player_name.to_owned(), score)
}

/// The seed records, in the order in which they are inserted.
pub fn seed_records() -> (records: Vec<Game>)
    ensures
        views(records@) == seed_views(),
{
    let mut records: Vec<Game> = Vec::new();
    records.push(seed_record("snake", "austin", 10));
    records.push(seed_record("snake", "alec", 19));
    records.push(seed_record("snake", "keith", 15));
    records.push(seed_record("snake", "karen", 16));
    records.push(seed_record("breakout", "austin", 35));
    records.push(seed_record("breakout", "alec", 30));
    records.push(seed_record("breakout", "keith", 32));
    records.push(seed_record("breakout", "karen", 33));
    assert(views(records@) =~= seed_views());
    records
}

/// Inserts the seed records, whatever the store already holds, and stops at
/// the first failure.
pub fn seed(db: &GameDataBase) -> (seeded: Result<(), StorageError>)
    ensures
        !db.is_open() ==> (seeded matches Err(error) && error.stage_of() == Stage::Closed),
        seeded matches Err(error) && error.stage_of() == Stage::Closed ==> !db.is_open(),
{
    let mut records = seed_records();
    let ghost total = records.len();
    assert(total == 8) by {
        assert(views(records@).len() == seed_views().len());
    }
    while records.len() > 0
        invariant
            records.len() <= total,
            total == 8,
            records.len() < total ==> db.is_open(),
        decreases records.len(),
    {
        let record = records.remove(0);
        match db.insert(record) {
            Ok(()) => {},
            Err(error) => {
                return Err(error);
            },
        }
    }
    Ok(())
}

/// Brings a store up: connects to the database at `path`, makes sure the
/// score table exists and inserts the seed records. Any failure on the way
/// is returned, and no store with it.
pub fn bootstrap(path: &str) -> (store: Result<GameDataBase, StorageError>)
    ensures
        store matches Ok(store) ==> store.is_open() && store.path_of() == path@,
        store matches Err(error) ==> error.stage_of() != Stage::Closed,
{
    let mut store = match GameDataBase::new(path) {
        Ok(store) => store,
        Err(error) => {
            return Err(error);
        },
    };
    match store.try_create_table() {
        Ok(()) => {},
        Err(error) => {
            return Err(error);
        },
    }
    match seed(&store) {
        Ok(()) => Ok(store),
        Err(error) => Err(error),
    }
}

} // verus!
