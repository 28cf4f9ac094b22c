//! The score record, the only entity the leaderboard stores, and the row of
//! cells it is kept as.

use vstd::prelude::*;

verus! {

/// One score of one player in one game.
///
/// Nothing about a record is unique: the same player may hold several scores
/// in the same game, and each is a record of its own.
#[derive(Clone, Debug, PartialEq, Eq)]
pub struct Game {
    pub game: String,
    pub player_name: String,
    pub score: u64,
}

/// What a record says, as mathematics.
pub struct GameView {
    pub game: Seq<char>,
    pub player_name: Seq<char>,
    pub score: nat,
}

impl View for Game {
    type V = GameView;

    open spec fn view(&self) -> GameView {
        GameView { game: self.game@, player_name: self.player_name@, score: self.score as nat }
    }
}

/// One cell of a row, by the storage class the engine reports for it.
#[derive(Clone, Debug, PartialEq, Eq)]
pub enum Cell {
    /// No value.
    Null,
    /// A signed 64-bit integer.
    Integer(i64),
    /// A text.
    Text(String),
    /// A floating-point number; the leaderboard never reads its value.
    Real,
    /// Raw bytes.
    Blob(Vec<u8>),
}

/// What a cell holds, as mathematics.
pub enum CellView {
    Null,
    Integer(int),
    Text(Seq<char>),
    Real,
    Blob(Seq<u8>),
}

impl View for Cell {
    type V = CellView;

    open spec fn view(&self) -> CellView {
        match self {
            Cell::Null => CellView::Null,
            Cell::Integer(number) => CellView::Integer(*number as int),
            Cell::Text(text) => CellView::Text(text@),
            Cell::Real => CellView::Real,
            Cell::Blob(bytes) => CellView::Blob(bytes@),
        }
    }
}

/// A row of the score table as the engine hands it out: three cells, not yet
/// known to be a record.
#[derive(Clone, Debug, PartialEq, Eq)]
pub struct RawRow {
    pub game: Cell,
    pub score: Cell,
    pub player_name: Cell,
}

/// What a row holds, as mathematics.
pub struct RowView {
    pub game: CellView,
    pub score: CellView,
    pub player_name: CellView,
}

impl View for RawRow {
    type V = RowView;

    open spec fn view(&self) -> RowView {
        RowView { game: self.game@, score: self.score@, player_name: self.player_name@ }
    }
}

/// The score that a stored integer stands for. The column is signed and the
/// score is not: a negative integer reads as the unsigned number with the
/// same 64 bits.
pub open spec fn score_read(stored: int) -> nat {
    if stored >= 0 {
        stored as nat
    } else {
        (stored + 0x1_0000_0000_0000_0000) as nat
    }
}

/// The integer that a score is stored as: the signed number with the same
/// 64 bits.
pub open spec fn score_stored(score: nat) -> int {
    if score <= i64::MAX {
        score as int
    } else {
        score - 0x1_0000_0000_0000_0000
    }
}

/// The record that a row decodes to: its game and player name must be texts
/// and its score an integer. Any other row is no record.
pub open spec fn decode(row: RowView) -> Option<GameView> {
    match (row.game, row.score, row.player_name) {
        (CellView::Text(game), CellView::Integer(stored), CellView::Text(player_name)) => Some(
            GameView { game, player_name, score: score_read(stored) },
        ),
        _ => None,
    }
}

/// The row that a record is stored as.
pub open spec fn encode(record: GameView) -> RowView {
    RowView {
        game: CellView::Text(record.game),
        score: CellView::Integer(score_stored(record.score)),
        player_name: CellView::Text(record.player_name),
    }
}

/// Reads a stored integer as a score.
pub fn read_score(stored: i64) -> (score: u64)
    ensures
        score == score_read(stored as int),
{
    if stored >= 0 {
        stored as u64
    } else {
        let below: i64 = -(stored + 1);
        u64::MAX - (below as u64)
    }
}

/// Gives the integer a score is stored as.
pub fn store_score(score: u64) -> (stored: i64)
    ensures
        stored == score_stored(score as nat),
{
    if score <= 0x7fff_ffff_ffff_ffff {
        score as i64
    } else {
        let below: u64 = u64::MAX - score;
        -(below as i64) - 1
    }
}

impl Game {
    /// Builds a record from its three attributes.
    pub fn new(game: String, player_name: String, score: u64) -> (record: Game)
        ensures
            record@ == (GameView { game: game@, player_name: player_name@, score: score as nat }),
    {
        Game { game, player_name, score }
    }

    /// Decodes a row into a record, or says that the row is none.
    pub fn from_row(row: &RawRow) -> (record: Option<Game>)
        ensures
            match record {
                Some(record) => decode(row@) == Some(record@),
                None => decode(row@) is None,
            },
    {
        match (&row.game, &row.score, &row.player_name) {
            (Cell::Text(game), Cell::Integer(stored), Cell::Text(player_name)) => Some(
                Game {
                    game: game.clone(),
                    player_name: player_name.clone(),
                    score: read_score(*stored),
                },
            ),
            _ => None,
        }
    }

    /// Encodes the record as the row it is stored as.
    pub fn to_row(&self) -> (row: RawRow)
        ensures
            row@ == encode(self@),
    {
        RawRow {
            game: Cell::Text(self.game.clone()),
            score: Cell::Integer(store_score(self.score)),
            player_name: Cell::Text(self.player_name.clone()),
        }
    }
}

} // verus!
