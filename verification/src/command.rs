//! What the store hands to the engine: a fixed statement text and, apart
//! from it, the values bound to its parameters.
//!
//! No value ever becomes part of a statement text. The text of each command
//! is a constant, so what a record or a filter holds cannot change which
//! statement runs.

use vstd::prelude::*;
use crate::record::{encode, CellView, Game, GameView};
use crate::record::store_score;

verus! {

/// Creates the score table unless it exists.
pub const CREATE_TABLE: &'static str =
    "CREATE TABLE IF NOT EXISTS scores (game TEXT, score INTEGER, player_name TEXT);";

/// Appends one row; its three cells are the parameters.
pub const INSERT_RECORD: &'static str =
    "INSERT INTO scores (game, score, player_name) VALUES (?1, ?2, ?3);";

/// Asks for the rows of the game bound to the parameter, or for all rows
/// where the parameter is the filter for every game, highest stored score
/// first. The columns of the answer are named here, so that they can be
/// read by name however the table spells them.
pub const SELECT_RANKED: &'static str =
    "SELECT game AS game, score AS score, player_name AS player_name FROM scores WHERE game = ?1 OR ?1 = '*' ORDER BY score DESC;";

/// A value bound to a parameter of a statement.
#[derive(Clone, Debug, PartialEq, Eq)]
pub enum Parameter {
    Integer(i64),
    Text(String),
}

impl View for Parameter {
    type V = CellView;

    /// The cell that the parameter fills.
    open spec fn view(&self) -> CellView {
        match self {
            Parameter::Integer(number) => CellView::Integer(*number as int),
            Parameter::Text(text) => CellView::Text(text@),
        }
    }
}

/// A statement text with the values for its parameters, the first value for
/// the parameter at position 1.
#[derive(Clone, Debug, PartialEq, Eq)]
pub struct Command {
    pub text: &'static str,
    pub parameters: Vec<Parameter>,
}

/// The cells that parameters fill, in their order.
pub open spec fn cells_of(parameters: Seq<Parameter>) -> Seq<CellView> {
    parameters.map_values(|parameter: Parameter| parameter@)
}

/// What a command holds, as mathematics.
pub struct CommandView {
    pub text: Seq<char>,
    pub parameters: Seq<CellView>,
}

impl View for Command {
    type V = CommandView;

    open spec fn view(&self) -> CommandView {
        CommandView {
            text: self.text@,
            parameters: cells_of(self.parameters@),
        }
    }
}

/// The command that appends `record`: the insert statement, with the cells
/// of the record's row as its parameters.
pub open spec fn insert_command_of(record: GameView) -> CommandView {
    CommandView {
        text: INSERT_RECORD@,
        parameters: seq![encode(record).game, encode(record).score, encode(record).player_name],
    }
}

/// The command that asks for the records that `filter` lets through: the
/// select statement, with the filter as its only parameter.
pub open spec fn query_command_of(filter: Seq<char>) -> CommandView {
    CommandView { text: SELECT_RANKED@, parameters: seq![CellView::Text(filter)] }
}

/// Builds the command that appends `record`.
pub fn insert_command(record: &Game) -> (command: Command)
    ensures
        command@ == insert_command_of(record@),
{
    let mut parameters: Vec<Parameter> = Vec::new();
    parameters.push(Parameter::Text(record.game.clone()));
    parameters.push(Parameter::Integer(store_score(record.score)));
    parameters.push(Parameter::Text(record.player_name.clone()));
    let command = Command { text: INSERT_RECORD, parameters };
    assert(command@.parameters =~= insert_command_of(record@).parameters);
    command
}

/// Builds the command that asks for the records that `filter` lets through.
pub fn query_command(filter: &str) -> (command: Command)
    ensures
        command@ == query_command_of(filter@),
{
    let mut parameters: Vec<Parameter> = Vec::new();
    parameters.push(Parameter::Text(filter.to_owned()));
    let command = Command { text: SELECT_RANKED, parameters };
    assert(command@.parameters =~= query_command_of(filter@).parameters);
    command
}

} // verus!
