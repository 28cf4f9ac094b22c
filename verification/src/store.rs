//! The score store: the one owner of the database connection.
//!
//! A store is closed until its schema has been initialized and open from
//! then on. Inserting and querying need an open store.

use vstd::prelude::*;
use crate::command::{cells_of, insert_command, query_command, Command, Parameter};
use crate::command::{CREATE_TABLE, INSERT_RECORD, SELECT_RANKED};
use crate::engine::{bind_integer, bind_text, bindings, execute, fault_of, held, location, open};
use crate::engine::{prepare, read_cell, report, step, text_size, Step, ENGINE_LIMIT};
use crate::error::{Stage, StorageError};
use crate::ranking::{accepts, is_ranked, rank_rows, views};
use crate::record::{Cell, CellView, Game, RawRow};

verus! {

/// The score store.
pub struct GameDataBase {
    connection: sqlite::Connection,
    ready: bool,
}

/// Whether a cell can be handed to the engine unchanged: a text can unless
/// it is larger than the engine can be told.
pub open spec fn cell_fits(cell: CellView) -> bool {
    cell matches CellView::Text(text) ==> text_size(text) <= ENGINE_LIMIT
}

/// Whether cells can all be bound: there are no more of them than there are
/// positions, and each can be handed to the engine unchanged.
pub open spec fn bindable(cells: Seq<CellView>) -> bool {
    &&& cells.len() <= ENGINE_LIMIT
    &&& forall|i: int| 0 <= i < cells.len() ==> cell_fits(#[trigger] cells[i])
}

/// The bindings of a statement after `cells` have been bound to it in
/// order, the first at position 1: what was bound at other positions stays.
pub open spec fn bound_after(before: Map<int, CellView>, cells: Seq<CellView>) -> Map<
    int,
    CellView,
> {
    Map::new(
        |position: int| before.dom().contains(position) || 1 <= position <= cells.len(),
        |position: int|
            if 1 <= position <= cells.len() {
                cells[position - 1]
            } else {
                before[position]
            },
    )
}

/// Whether `cells` are what is bound at the first positions of a statement,
/// the first cell at position 1.
pub open spec fn binds(bound: Map<int, CellView>, cells: Seq<CellView>) -> bool {
    forall|position: int|
        1 <= position <= cells.len() ==> bound.dom().contains(position) && #[trigger] bound[position]
            == cells[position - 1]
}

/// Turns the outcome of a call of the engine into an outcome of the store:
/// a success as it is, a failure into the failure at `stage` with the
/// engine's report.
pub fn settle<T>(outcome: Result<T, sqlite::Error>, stage: Stage) -> (settled: Result<
    T,
    StorageError,
>)
    ensures
        settled == match outcome {
            Ok(value) => Ok::<T, StorageError>(value),
            Err(error) => Err(StorageError::at(stage, report(error))),
        },
{
    match outcome {
        Ok(value) => Ok(value),
        Err(error) => Err(StorageError::raised(stage, fault_of(error))),
    }
}

/// Says whether a text can be handed to the engine unchanged: whether it
/// is no larger than the engine can be told.
pub fn text_fits(text: &str) -> (fit: bool)
    ensures
        fit == (text_size(text@) <= ENGINE_LIMIT),
{
    let bytes = text.as_bytes();
    assert(text_size(text@) == bytes@.len());
    bytes.len() <= ENGINE_LIMIT
}

/// Binds the values of a command to the parameters of its statement, the
/// first value at position 1, and stops at the first that the engine
/// refuses.
fn bind_parameters(statement: &mut sqlite::Statement<'_>, parameters: &Vec<Parameter>) -> (bound:
    Result<(), StorageError>)
    requires
        bindable(cells_of(parameters@)),
    ensures
        parameters.len() == 0 ==> bound is Ok,
        bound is Ok ==> bindings(*final(statement)) == bound_after(
            bindings(*old(statement)),
            cells_of(parameters@),
        ),
        bound matches Err(error) ==> error.stage_of() == Stage::Binding,
{
    let ghost before = bindings(*statement);
    let ghost cells = cells_of(parameters@);
    let mut next: usize = 0;
    assert(bindings(*statement) =~= bound_after(before, cells.take(0)));
    while next < parameters.len()
        invariant
            next <= parameters.len() <= ENGINE_LIMIT,
            cells == cells_of(parameters@),
            bindable(cells),
            bindings(*statement) == bound_after(before, cells.take(next as int)),
        decreases parameters.len() - next,
    {
        let ghost so_far = bindings(*statement);
        assert(cells[next as int] == parameters[next as int]@);
        assert(cell_fits(cells[next as int]));
        let outcome = match &parameters[next] {
            Parameter::Integer(number) => bind_integer(statement, next + 1, *number),
            Parameter::Text(text) => bind_text(statement, next + 1, text.as_str()),
        };
        match settle(outcome, Stage::Binding) {
            Ok(()) => {},
            Err(error) => {
                return Err(error);
            },
        }
        proof {
            assert(bindings(*statement) == so_far.insert(next + 1, cells[next as int]));
            assert(so_far.insert(next + 1, cells[next as int]) =~= bound_after(
                before,
                cells.take(next + 1),
            ));
        }
        next += 1;
    }
    assert(cells.take(next as int) =~= cells);
    Ok(())
}

/// Puts the cells read from the three columns of a row together. A row
/// with a cell that could not be read is given up.
pub fn row_of_cells<E>(
    game: Result<Cell, E>,
    score: Result<Cell, E>,
    player_name: Result<Cell, E>,
) -> (row: Option<RawRow>)
    ensures
        row == match (game, score, player_name) {
            (Ok(game), Ok(score), Ok(player_name)) => Some(RawRow { game, score, player_name }),
            _ => None,
        },
{
    match (game, score, player_name) {
        (Ok(game), Ok(score), Ok(player_name)) => Some(RawRow { game, score, player_name }),
        _ => None,
    }
}

/// Reads the row that the statement stands on: the cells in its columns
/// `game`, `score` and `player_name`.
fn read_row(statement: &sqlite::Statement<'_>) -> (row: Option<RawRow>)
    ensures
        row matches Some(row) ==> held(*statement, "game"@) == Some(row@.game) && held(
            *statement,
            "score"@,
        ) == Some(row@.score) && held(*statement, "player_name"@) == Some(row@.player_name),
{
    let game = read_cell(statement, "game");
    let score = read_cell(statement, "score");
    let player_name = read_cell(statement, "player_name");
    row_of_cells(game, score, player_name)
}

/// Where an evaluation stands after a step.
#[derive(Clone, Debug, PartialEq, Eq)]
pub enum Progress {
    /// The step gave a row: more may follow the rows collected so far.
    Unfinished(Vec<RawRow>),
    /// The statement came to its end: these are all its rows.
    Complete(Vec<RawRow>),
    /// The step failed. The rows collected before it are given up.
    Failed(StorageError),
}

/// Decides how an evaluation goes on after a step, from the rows collected
/// so far, the outcome of the step and the row read where the step gave
/// one. A failed step fails the evaluation, whatever was collected. The end
/// of the statement completes it with the rows as they are. A row is added
/// to them, unless it could not be read.
pub fn advance(rows: Vec<RawRow>, stepped: Result<Step, StorageError>, row: Option<RawRow>) -> (progress:
    Progress)
    ensures
        match stepped {
            Err(error) => progress == Progress::Failed(error),
            Ok(Step::Done) => progress == Progress::Complete(rows),
            Ok(Step::Row) => progress matches Progress::Unfinished(more) && more@ == match row {
                Some(row) => rows@.push(row),
                None => rows@,
            },
        },
{
    match stepped {
        Err(error) => Progress::Failed(error),
        Ok(Step::Done) => Progress::Complete(rows),
        Ok(Step::Row) => {
            let mut more = rows;
            match row {
                Some(row) => {
                    more.push(row);
                },
                None => {},
            }
            Progress::Unfinished(more)
        },
    }
}

/// Evaluates a statement, to which `cells` have been bound, to its end and
/// collects the rows it yields. A failed step fails the whole evaluation:
/// no partial answer is returned.
fn fetch_rows(statement: &mut sqlite::Statement<'_>, cells: Ghost<Seq<CellView>>) -> (rows: Result<
    Vec<RawRow>,
    StorageError,
>)
    requires
        binds(bindings(*old(statement)), cells@),
    ensures
        rows matches Err(error) ==> error.stage_of() == Stage::Evaluation || error.stage_of()
            == Stage::RowLimit,
{
    let mut rows: Vec<RawRow> = Vec::new();
    let mut budget: usize = usize::MAX;
    while budget > 0
        decreases budget,
    {
        budget -= 1;
        let stepped = settle(step(statement), Stage::Evaluation);
        let row = match &stepped {
            Ok(Step::Row) => read_row(statement),
            _ => None,
        };
        match advance(rows, stepped, row) {
            Progress::Unfinished(more) => {
                rows = more;
            },
            Progress::Complete(all) => {
                return Ok(all);
            },
            Progress::Failed(error) => {
                return Err(error);
            },
        }
    }
    Err(StorageError::RowLimit)
}

impl GameDataBase {
    /// Whether the schema has been initialized through this store.
    pub closed spec fn is_open(&self) -> bool {
        self.ready
    }

    /// The path of the database that the store is connected to.
    pub closed spec fn path_of(&self) -> Seq<char> {
        location(self.connection)
    }

    /// Says whether the store is open.
    pub fn ready(&self) -> (ready: bool)
        ensures
            ready == self.is_open(),
    {
        self.ready
    }

    /// Connects to the database at `path`, creating it if it does not
    /// exist. The store is closed until `try_create_table` has succeeded.
    pub fn new(path: &str) -> (store: Result<GameDataBase, StorageError>)
        ensures
            store matches Ok(store) ==> !store.is_open() && store.path_of() == path@,
            store matches Err(error) ==> error.stage_of() == Stage::Connection,
    {
        match settle(open(path), Stage::Connection) {
            Ok(connection) => Ok(GameDataBase { connection, ready: false }),
            Err(error) => Err(error),
        }
    }

    /// Makes sure the score table exists and opens the store. On an open
    /// store this does nothing and succeeds; a failure leaves the store as
    /// it was.
    pub fn try_create_table(&mut self) -> (created: Result<(), StorageError>)
        ensures
            old(self).is_open() ==> created is Ok && *final(self) == *old(self),
            created is Ok ==> final(self).is_open(),
            final(self).path_of() == old(self).path_of(),
            created matches Err(error) ==> error.stage_of() == Stage::Schema && *final(self)
                == *old(self),
    {
        if self.ready {
            return Ok(());
        }
        match settle(execute(&self.connection, CREATE_TABLE), Stage::Schema) {
            Ok(()) => {
                self.ready = true;
                Ok(())
            },
            Err(error) => Err(error),
        }
    }

    /// Hands a command of the store to the engine and collects the rows it
    /// yields. The store is open, and the values of the command can all be
    /// bound: the callers have seen to both.
    fn run(&self, command: &Command) -> (rows: Result<Vec<RawRow>, StorageError>)
        requires
            self.is_open(),
            command@.text == INSERT_RECORD@ || command@.text == SELECT_RANKED@,
            bindable(command@.parameters),
        ensures
            rows matches Err(error) ==> error.stage_of() == Stage::Statement || error.stage_of()
                == Stage::Binding || error.stage_of() == Stage::Evaluation || error.stage_of()
                == Stage::RowLimit,
    {
        let mut statement = match settle(prepare(&self.connection, command.text), Stage::Statement) {
            Ok(statement) => statement,
            Err(error) => {
                return Err(error);
            },
        };
        match bind_parameters(&mut statement, &command.parameters) {
            Ok(()) => {},
            Err(error) => {
                return Err(error);
            },
        }
        fetch_rows(&mut statement, Ghost(command@.parameters))
    }

    /// Appends one record. Its texts and its score reach the engine as
    /// bound parameters of the insert statement, never as part of its text.
    /// On a closed store nothing is handed to the engine, nor is a record
    /// with a text larger than the engine can be told.
    pub fn insert(&self, game: Game) -> (inserted: Result<(), StorageError>)
        ensures
            !self.is_open() <==> (inserted matches Err(error) && error.stage_of()
                == Stage::Closed),
            (self.is_open() && (text_size(game.game@) > ENGINE_LIMIT || text_size(
                game.player_name@,
            ) > ENGINE_LIMIT)) <==> (inserted matches Err(error) && error.stage_of()
                == Stage::Oversize),
    {
        if !self.ready {
            return Err(StorageError::Closed);
        }
        if !text_fits(game.game.as_str()) || !text_fits(game.player_name.as_str()) {
            return Err(StorageError::Oversize);
        }
        let command = insert_command(&game);
        proof {
            let cells = command@.parameters;
            assert(cells[0] == CellView::Text(game.game@));
            assert(cells[1] is Integer);
            assert(cells[2] == CellView::Text(game.player_name@));
        }
        match self.run(&command) {
            Ok(_) => Ok(()),
            Err(error) => Err(error),
        }
    }

    /// Returns the records that the filter `game` lets through, highest
    /// score first: those of the game of that name, or those of every game
    /// for the filter `"*"`. An answer is complete or an error. Rows that
    /// are no record are passed over. A filter larger than the engine can
    /// be told is refused before the engine is asked.
    pub fn get_all_for_game(&self, game: &str) -> (ranked: Result<Vec<Game>, StorageError>)
        ensures
            !self.is_open() <==> (ranked matches Err(error) && error.stage_of() == Stage::Closed),
            (self.is_open() && text_size(game@) > ENGINE_LIMIT) <==> (ranked matches Err(error)
                && error.stage_of() == Stage::Oversize),
            ranked matches Ok(records) ==> is_ranked(views(records@)) && forall|i: int|
                0 <= i < records.len() ==> accepts(game@, #[trigger] records[i].game@),
    {
        if !self.ready {
            return Err(StorageError::Closed);
        }
        if !text_fits(game) {
            return Err(StorageError::Oversize);
        }
        let command = query_command(game);
        proof {
            assert(command@.parameters[0] == CellView::Text(game@));
        }
        match self.run(&command) {
            Ok(rows) => Ok(rank_rows(&rows, game)),
            Err(error) => Err(error),
        }
    }
}

} // verus!
