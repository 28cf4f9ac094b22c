//! How the store fails.

use vstd::prelude::*;

verus! {

/// What the engine reported with a failure: its result code and its message,
/// either of which may be missing.
#[derive(Clone, Debug, PartialEq, Eq)]
pub struct Fault {
    pub code: Option<isize>,
    pub message: Option<String>,
}

/// A failure of the score store, by the stage at which it arose.
#[derive(Clone, Debug, PartialEq, Eq)]
pub enum StorageError {
    /// The operation needs the schema, and the store has not yet been
    /// initialized.
    Closed,
    /// A text is larger than the engine can be told, or there are more
    /// values than a statement has positions. The engine is not asked.
    Oversize,
    /// The database could not be opened.
    Connection(Fault),
    /// The schema could not be created.
    Schema(Fault),
    /// The engine refused the text of a statement.
    Statement(Fault),
    /// The engine refused a parameter of a statement.
    Binding(Fault),
    /// The engine failed while it evaluated a statement.
    Evaluation(Fault),
    /// The answer holds more rows than can be counted.
    RowLimit,
}

/// The stage at which a failure arose, without the engine's report.
#[derive(Clone, Copy, Debug, PartialEq, Eq, Structural)]
pub enum Stage {
    Closed,
    Oversize,
    Connection,
    Schema,
    Statement,
    Binding,
    Evaluation,
    RowLimit,
}

impl StorageError {
    /// The stage at which the failure arose.
    pub open spec fn stage_of(self) -> Stage {
        match self {
            StorageError::Closed => Stage::Closed,
            StorageError::Oversize => Stage::Oversize,
            StorageError::Connection(_) => Stage::Connection,
            StorageError::Schema(_) => Stage::Schema,
            StorageError::Statement(_) => Stage::Statement,
            StorageError::Binding(_) => Stage::Binding,
            StorageError::Evaluation(_) => Stage::Evaluation,
            StorageError::RowLimit => Stage::RowLimit,
        }
    }

    /// What the engine reported with the failure, where it was the engine
    /// that failed.
    pub open spec fn report_of(self) -> Option<Fault> {
        match self {
            StorageError::Closed => None,
            StorageError::Oversize => None,
            StorageError::Connection(fault) => Some(fault),
            StorageError::Schema(fault) => Some(fault),
            StorageError::Statement(fault) => Some(fault),
            StorageError::Binding(fault) => Some(fault),
            StorageError::Evaluation(fault) => Some(fault),
            StorageError::RowLimit => None,
        }
    }

    /// The failure at `stage` with the report `fault`. The stages at which
    /// the engine is not asked carry no report.
    pub open spec fn at(stage: Stage, fault: Fault) -> StorageError {
        match stage {
            Stage::Closed => StorageError::Closed,
            Stage::Oversize => StorageError::Oversize,
            Stage::Connection => StorageError::Connection(fault),
            Stage::Schema => StorageError::Schema(fault),
            Stage::Statement => StorageError::Statement(fault),
            Stage::Binding => StorageError::Binding(fault),
            Stage::Evaluation => StorageError::Evaluation(fault),
            Stage::RowLimit => StorageError::RowLimit,
        }
    }

    /// Builds the failure at `stage` with the report `fault`.
    pub fn raised(stage: Stage, fault: Fault) -> (error: StorageError)
        ensures
            error == StorageError::at(stage, fault),
    {
        match stage {
            Stage::Closed => StorageError::Closed,
            Stage::Oversize => StorageError::Oversize,
            Stage::Connection => StorageError::Connection(fault),
            Stage::Schema => StorageError::Schema(fault),
            Stage::Statement => StorageError::Statement(fault),
            Stage::Binding => StorageError::Binding(fault),
            Stage::Evaluation => StorageError::Evaluation(fault),
            Stage::RowLimit => StorageError::RowLimit,
        }
    }

    /// The stage at which the failure arose.
    pub fn stage(&self) -> (stage: Stage)
        ensures
            stage == self.stage_of(),
    {
        match self {
            StorageError::Closed => Stage::Closed,
            StorageError::Oversize => Stage::Oversize,
            StorageError::Connection(_) => Stage::Connection,
            StorageError::Schema(_) => Stage::Schema,
            StorageError::Statement(_) => Stage::Statement,
            StorageError::Binding(_) => Stage::Binding,
            StorageError::Evaluation(_) => Stage::Evaluation,
            StorageError::RowLimit => Stage::RowLimit,
        }
    }
}

} // verus!
