use leaderboard::command::{insert_command, query_command, Command, Parameter};
use leaderboard::command::{CREATE_TABLE, INSERT_RECORD, SELECT_RANKED};
use leaderboard::record::{read_score, store_score, Cell, Game, RawRow};
use leaderboard::seed::seed_records;

fn record(game: &str, player_name: &str, score: u64) -> Game {
    Game::new(game.to_string(), player_name.to_string(), score)
}

fn row(game: Cell, score: Cell, player_name: Cell) -> RawRow {
    RawRow { game, score, player_name }
}

fn text(value: &str) -> Cell {
    Cell::Text(value.to_string())
}

#[test]
fn new_keeps_the_three_attributes() {
    let made = record("snake", "austin", 10);
    assert_eq!(made.game, "snake");
    assert_eq!(made.player_name, "austin");
    assert_eq!(made.score, 10);
}

#[test]
fn small_scores_are_stored_as_they_are() {
    assert_eq!(store_score(0), 0);
    assert_eq!(store_score(19), 19);
    assert_eq!(store_score(9223372036854775807), i64::MAX);
}

#[test]
fn large_scores_are_stored_with_the_same_bits() {
    assert_eq!(store_score(9223372036854775808), i64::MIN);
    assert_eq!(store_score(u64::MAX), -1);
    assert_eq!(store_score(u64::MAX - 1), -2);
}

#[test]
fn stored_integers_read_as_unsigned() {
    assert_eq!(read_score(0), 0);
    assert_eq!(read_score(35), 35);
    assert_eq!(read_score(i64::MAX), 9223372036854775807);
    assert_eq!(read_score(-1), u64::MAX);
    assert_eq!(read_score(i64::MIN), 9223372036854775808);
}

#[test]
fn every_edge_score_round_trips() {
    let scores: Vec<u64> =
        vec![0, 1, 10, 9223372036854775806, 9223372036854775807, 9223372036854775808, u64::MAX];
    for score in scores {
        assert_eq!(read_score(store_score(score)), score);
    }
}

#[test]
fn from_row_decodes_a_well_formed_row() {
    let decoded = Game::from_row(&row(text("snake"), Cell::Integer(19), text("alec")));
    assert_eq!(decoded, Some(record("snake", "alec", 19)));
}

#[test]
fn from_row_reads_a_negative_score_as_unsigned() {
    let decoded = Game::from_row(&row(text("snake"), Cell::Integer(-2), text("alec")));
    assert_eq!(decoded, Some(record("snake", "alec", 18446744073709551614)));
}

#[test]
fn from_row_refuses_cells_of_the_wrong_class() {
    assert_eq!(Game::from_row(&row(Cell::Null, Cell::Integer(1), text("a"))), None);
    assert_eq!(Game::from_row(&row(text("g"), Cell::Null, text("a"))), None);
    assert_eq!(Game::from_row(&row(text("g"), Cell::Integer(1), Cell::Null)), None);
    assert_eq!(Game::from_row(&row(text("g"), text("1"), text("a"))), None);
    assert_eq!(Game::from_row(&row(text("g"), Cell::Real, text("a"))), None);
    assert_eq!(Game::from_row(&row(Cell::Integer(7), Cell::Integer(1), text("a"))), None);
    assert_eq!(Game::from_row(&row(text("g"), Cell::Integer(1), Cell::Blob(vec![1, 2]))), None);
}

#[test]
fn to_row_encodes_the_three_cells() {
    let encoded = record("breakout", "karen", 33).to_row();
    assert_eq!(encoded, row(text("breakout"), Cell::Integer(33), text("karen")));
}

#[test]
fn to_row_then_from_row_gives_the_record_back() {
    let records = vec![
        record("snake", "austin", 10),
        record("", "", 0),
        record("*", "Robert'); DROP TABLE scores;--", u64::MAX),
        record("sn\"ake", "o'neil; \u{e9}\u{4e16}", 9223372036854775808),
    ];
    for written in records {
        assert_eq!(Game::from_row(&written.to_row()), Some(written));
    }
}

#[test]
fn insert_command_binds_the_record_and_keeps_the_text() {
    let command = insert_command(&record("snake", "x'); DROP TABLE scores;--", 7));
    assert_eq!(
        command,
        Command {
            text: "INSERT INTO scores (game, score, player_name) VALUES (?1, ?2, ?3);",
            parameters: vec![
                Parameter::Text("snake".to_string()),
                Parameter::Integer(7),
                Parameter::Text("x'); DROP TABLE scores;--".to_string()),
            ],
        }
    );
    assert_eq!(command.text, INSERT_RECORD);
    assert_eq!(command.text, insert_command(&record("breakout", "karen", 33)).text);
}

#[test]
fn insert_command_stores_a_large_score_as_a_negative_integer() {
    let command = insert_command(&record("snake", "austin", u64::MAX));
    assert_eq!(command.parameters[1], Parameter::Integer(-1));
}

#[test]
fn query_command_binds_the_filter() {
    let command = query_command("sn'ake");
    assert_eq!(command.text, SELECT_RANKED);
    assert_eq!(command.parameters, vec![Parameter::Text("sn'ake".to_string())]);
    assert_eq!(query_command("*").text, command.text);
}

#[test]
fn statement_texts_are_what_the_table_needs() {
    assert_eq!(
        CREATE_TABLE,
        "CREATE TABLE IF NOT EXISTS scores (game TEXT, score INTEGER, player_name TEXT);"
    );
    assert_eq!(
        SELECT_RANKED,
        "SELECT game AS game, score AS score, player_name AS player_name FROM scores WHERE game = ?1 OR ?1 = '*' ORDER BY score DESC;"
    );
}

#[test]
fn seed_records_are_the_eight_fixed_scores() {
    assert_eq!(
        seed_records(),
        vec![
            record("snake", "austin", 10),
            record("snake", "alec", 19),
            record("snake", "keith", 15),
            record("snake", "karen", 16),
            record("breakout", "austin", 35),
            record("breakout", "alec", 30),
            record("breakout", "keith", 32),
            record("breakout", "karen", 33),
        ]
    );
}
