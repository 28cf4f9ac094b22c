//! Selecting the records of one game and ranking them by score.
//!
//! The engine is asked for the rows of a game in descending order of the
//! stored integer. What it answers is not taken on trust: the rows are
//! decoded, selected and ranked here, so that the result is ranked by the
//! score as it reads, whatever rows came back.

use vstd::prelude::*;
use vstd::seq_lib::{to_multiset_build, to_multiset_contains, to_multiset_insert};
use crate::record::{decode, Game, GameView, RawRow, RowView};

verus! {

/// The filter that asks for the records of every game.
pub open spec fn all_games() -> Seq<char> {
    seq!['*']
}

/// Whether a filter lets a game through: the filter for every game lets
/// every game through, any other filter only the game it names.
pub open spec fn accepts(filter: Seq<char>, game: Seq<char>) -> bool {
    filter == all_games() || game == filter
}

/// Whether records stand in non-increasing order of score.
pub open spec fn is_ranked(records: Seq<GameView>) -> bool {
    forall|i: int, j: int| 0 <= i <= j < records.len() ==> records[i].score >= records[j].score
}

/// The records among `records` that `filter` lets through, in their order.
pub open spec fn matching(records: Seq<GameView>, filter: Seq<char>) -> Seq<GameView> {
    records.filter(|record: GameView| accepts(filter, record.game))
}

/// The record a row contributes to a query: the one it decodes to, if the
/// filter lets it through.
pub open spec fn select(row: RowView, filter: Seq<char>) -> Option<GameView> {
    match decode(row) {
        Some(record) => if accepts(filter, record.game) {
            Some(record)
        } else {
            None
        },
        None => None,
    }
}

/// The records that rows contribute to a query, in the order of the rows:
/// rows that are no record are passed over.
pub open spec fn selection(rows: Seq<RowView>, filter: Seq<char>) -> Seq<GameView> {
    rows.filter_map(|row: RowView| select(row, filter))
}

/// The views of a sequence of records.
pub open spec fn views(records: Seq<Game>) -> Seq<GameView> {
    records.map_values(|record: Game| record@)
}

/// The views of a sequence of rows.
pub open spec fn row_views(rows: Seq<RawRow>) -> Seq<RowView> {
    rows.map_values(|row: RawRow| row@)
}

/// Taking one more row adds the record that the row contributes, if any.
pub proof fn lemma_selection_step(rows: Seq<RowView>, filter: Seq<char>, at: int)
    requires
        0 <= at < rows.len(),
    ensures
        selection(rows.take(at + 1), filter) == match select(rows[at], filter) {
            Some(record) => selection(rows.take(at), filter).push(record),
            None => selection(rows.take(at), filter),
        },
{
    let chosen = |row: RowView| select(row, filter);
    rows.lemma_filter_map_take_succ(chosen, at);
    match select(rows[at], filter) {
        Some(record) => {
            assert(rows.take(at).filter_map(chosen) + seq![record] =~= rows.take(at).filter_map(
                chosen,
            ).push(record));
        },
        None => {
            assert(rows.take(at).filter_map(chosen) + Seq::<GameView>::empty()
                =~= rows.take(at).filter_map(chosen));
        },
    }
}

/// Every record that rows contribute to a query is one that the filter
/// lets through.
pub proof fn lemma_selection_accepted(rows: Seq<RowView>, filter: Seq<char>)
    ensures
        forall|record: GameView| #[trigger]
            selection(rows, filter).contains(record) ==> accepts(filter, record.game),
{
    assert forall|record: GameView| #[trigger]
        selection(rows, filter).contains(record) implies accepts(filter, record.game) by {
        rows.lemma_filter_map_contains(|row: RowView| select(row, filter), record);
    }
}

/// The filter that asks for the records of every game.
pub fn all_games_filter() -> (filter: &'static str)
    ensures
        filter@ == all_games(),
{
    proof {
        reveal_strlit("*");
    }
    let filter = "*";
    assert(filter@ =~= all_games());
    filter
}

/// Says whether `filter` lets `game` through.
pub fn filter_accepts(filter: &str, game: &String) -> (accepted: bool)
    ensures
        accepted == accepts(filter@, game@),
{
    let wanted = filter.to_owned();
    let every = all_games_filter().to_owned();
    wanted == every || *game == wanted
}

/// Puts a record into a ranked list, behind every record that scores at
/// least as much.
pub fn insert_ranked(ranked: &mut Vec<Game>, record: Game)
    requires
        is_ranked(views(old(ranked)@)),
    ensures
        is_ranked(views(final(ranked)@)),
        views(final(ranked)@).to_multiset() == views(old(ranked)@).to_multiset().insert(record@),
{
    let mut at: usize = 0;
    while at < ranked.len() && ranked[at].score >= record.score
        invariant
            at <= ranked.len(),
            forall|k: int| 0 <= k < at ==> ranked[k].score >= record.score,
        decreases ranked.len() - at,
    {
        at += 1;
    }
    let ghost before = views(ranked@);
    ranked.insert(at, record);
    proof {
        let after = views(ranked@);
        assert(after =~= before.insert(at as int, record@));
        to_multiset_insert(before, at as int, record@);
        assert forall|i: int, j: int| 0 <= i <= j < after.len() implies after[i].score
            >= after[j].score by {
            if j < at {
                assert(after[i] == before[i] && after[j] == before[j]);
            } else if j == at {
                assert(i < at ==> after[i] == before[i]);
            } else if i < at {
                assert(after[i] == before[i] && after[j] == before[j - 1]);
            } else if i == at {
                assert(after[j] == before[j - 1]);
                assert(before[at as int].score >= before[j - 1].score);
            } else {
                assert(after[i] == before[i - 1] && after[j] == before[j - 1]);
            }
        }
    }
}

/// Decodes the rows of a query, keeps the records that `filter` lets
/// through and ranks them by score, highest first. Rows that are no record
/// are passed over. Records of equal score come in no promised order.
pub fn rank_rows(rows: &Vec<RawRow>, filter: &str) -> (ranked: Vec<Game>)
    ensures
        is_ranked(views(ranked@)),
        views(ranked@).to_multiset() == selection(row_views(rows@), filter@).to_multiset(),
        forall|i: int| 0 <= i < ranked.len() ==> accepts(filter@, #[trigger] ranked[i].game@),
{
    let mut ranked: Vec<Game> = Vec::new();
    let mut next: usize = 0;
    assert(views(ranked@) =~= selection(row_views(rows@).take(0), filter@));
    while next < rows.len()
        invariant
            next <= rows.len(),
            is_ranked(views(ranked@)),
            views(ranked@).to_multiset() == selection(
                row_views(rows@).take(next as int),
                filter@,
            ).to_multiset(),
        decreases rows.len() - next,
    {
        proof {
            lemma_selection_step(row_views(rows@), filter@, next as int);
            assert(row_views(rows@)[next as int] == rows[next as int]@);
        }
        match Game::from_row(&rows[next]) {
            Some(record) => {
                if filter_accepts(filter, &record.game) {
                    proof {
                        to_multiset_build(
                            selection(row_views(rows@).take(next as int), filter@),
                            record@,
                        );
                    }
                    insert_ranked(&mut ranked, record);
                }
            },
            None => {},
        }
        next += 1;
    }
    assert(row_views(rows@).take(rows.len() as int) =~= row_views(rows@));
    proof {
        let chosen = selection(row_views(rows@), filter@);
        assert forall|i: int| 0 <= i < ranked.len() implies accepts(
            filter@,
            #[trigger] ranked[i].game@,
        ) by {
            let record = views(ranked@)[i];
            assert(record == ranked[i]@);
            lemma_selection_accepted(row_views(rows@), filter@);
            to_multiset_contains(views(ranked@), record);
            to_multiset_contains(chosen, record);
            assert(views(ranked@).contains(record));
        }
    }
    ranked
}

} // verus!
