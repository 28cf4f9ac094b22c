use leaderboard::api::{get_all_game, get_game_by_name, respond, Reply};
use leaderboard::api::{STATUS_OK, STATUS_STORAGE_UNAVAILABLE, STORAGE_UNAVAILABLE};
use leaderboard::error::{Fault, StorageError};
use leaderboard::record::Game;
use leaderboard::store::GameDataBase;

fn record(game: &str, player_name: &str, score: u64) -> Game {
    Game::new(game.to_string(), player_name.to_string(), score)
}

fn two_games() -> GameDataBase {
    let mut store = GameDataBase::new(":memory:").unwrap();
    store.try_create_table().unwrap();
    store.insert(record("snake", "austin", 10)).unwrap();
    store.insert(record("breakout", "austin", 35)).unwrap();
    store.insert(record("snake", "alec", 19)).unwrap();
    store.insert(record("breakout", "alec", 30)).unwrap();
    store
}

#[test]
fn all_games_come_as_one_ranked_array() {
    let store = two_games();
    assert_eq!(
        get_all_game(&store),
        Reply::Ranking(vec![
            record("breakout", "austin", 35),
            record("breakout", "alec", 30),
            record("snake", "alec", 19),
            record("snake", "austin", 10),
        ])
    );
}

#[test]
fn a_game_by_name_comes_ranked() {
    let store = two_games();
    assert_eq!(
        get_game_by_name(&store, "snake"),
        Reply::Ranking(vec![record("snake", "alec", 19), record("snake", "austin", 10)])
    );
}

#[test]
fn an_unknown_game_is_an_empty_ranking_with_status_ok() {
    let store = two_games();
    let reply = get_game_by_name(&store, "tetris");
    assert_eq!(reply, Reply::Ranking(Vec::new()));
    assert_eq!(reply.status(), 200);
}

#[test]
fn the_name_is_taken_verbatim() {
    let store = two_games();
    assert_eq!(get_game_by_name(&store, "SNAKE"), Reply::Ranking(Vec::new()));
    assert_eq!(get_game_by_name(&store, " snake"), Reply::Ranking(Vec::new()));
}

#[test]
fn a_failing_store_is_answered_with_storage_unavailable() {
    let closed = GameDataBase::new(":memory:").unwrap();
    let all = get_all_game(&closed);
    assert_eq!(all, Reply::StorageUnavailable);
    assert_eq!(all.status(), 500);
    let named = get_game_by_name(&closed, "snake");
    assert_eq!(named, Reply::StorageUnavailable);
    assert_eq!(named.status(), 500);
}

#[test]
fn respond_passes_records_on_and_hides_failures() {
    let records = vec![record("snake", "alec", 19)];
    assert_eq!(respond(Ok(records.clone())), Reply::Ranking(records));
    assert_eq!(respond(Ok(Vec::new())), Reply::Ranking(Vec::new()));
    assert_eq!(respond(Err(StorageError::Closed)), Reply::StorageUnavailable);
    let fault = Fault { code: Some(5), message: None };
    assert_eq!(respond(Err(StorageError::Evaluation(fault))), Reply::StorageUnavailable);
    assert_eq!(respond(Err(StorageError::RowLimit)), Reply::StorageUnavailable);
}

#[test]
fn the_status_codes_and_the_error_code_are_fixed() {
    assert_eq!(STATUS_OK, 200);
    assert_eq!(STATUS_STORAGE_UNAVAILABLE, 500);
    assert_eq!(STORAGE_UNAVAILABLE, "storage_unavailable");
    assert_eq!(Reply::Ranking(Vec::new()).status(), STATUS_OK);
    assert_eq!(Reply::StorageUnavailable.status(), STATUS_STORAGE_UNAVAILABLE);
}

#[test]
fn queries_through_a_shared_lock_each_see_the_whole_ranking() {
    let store = match leaderboard::seed::bootstrap(":memory:") {
        Ok(store) => store,
        Err(error) => panic!("bootstrap failed: {:?}", error),
    };
    let shared = std::sync::Arc::new(std::sync::Mutex::new(store));
    let mut callers = Vec::new();
    for _ in 0..8 {
        callers.push(std::sync::Arc::clone(&shared));
    }
    for round in 0..5 {
        for (turn, caller) in callers.iter().enumerate() {
            let reply = {
                let store = caller.lock().unwrap();
                if (turn + round) % 2 == 0 {
                    get_all_game(&store)
                } else {
                    get_game_by_name(&store, "snake")
                }
            };
            let expected = if (turn + round) % 2 == 0 { 8 } else { 4 };
            match reply {
                Reply::Ranking(records) => {
                    assert_eq!(records.len(), expected);
                    for pair in records.windows(2) {
                        assert!(pair[0].score >= pair[1].score);
                    }
                },
                Reply::StorageUnavailable => panic!("the store failed"),
            }
        }
    }
}
