//! What holds of the leaderboard for all records, rows and filters.
//!
//! The laws speak of the rows that reach a query. That the engine keeps the
//! rows it was given is its own business and is not proved here.

use vstd::prelude::*;
use vstd::seq_lib::to_multiset_build;
use crate::command::insert_command_of;
use crate::ranking::{accepts, all_games, matching, select, selection};
use crate::record::{decode, encode, CellView, GameView, RowView};

verus! {

/// Whether every score fits the 64 bits a score has.
pub open spec fn scores_fit(records: Seq<GameView>) -> bool {
    forall|i: int| 0 <= i < records.len() ==> (#[trigger] records[i]).score <= u64::MAX
}

/// The rows that records are stored as, in their order.
pub open spec fn stored(records: Seq<GameView>) -> Seq<RowView> {
    records.map_values(|record: GameView| encode(record))
}

/// A record reads back from its row as it was written, whatever characters
/// its texts hold and however large its score is.
pub proof fn lemma_record_round_trips(record: GameView)
    requires
        record.score <= u64::MAX,
    ensures
        decode(encode(record)) == Some(record),
{
}

/// The row that the values bound to an insert statement fill.
pub open spec fn bound_row(parameters: Seq<CellView>) -> RowView {
    RowView { game: parameters[0], score: parameters[1], player_name: parameters[2] }
}

/// The statement that inserts a record is the same text for every record,
/// and the values bound to it are the cells of the record's row, which
/// decode to the record again: nothing a record holds can reach the
/// statement text.
pub proof fn lemma_insert_binds_the_record(record: GameView, other: GameView)
    requires
        record.score <= u64::MAX,
    ensures
        insert_command_of(record).text == insert_command_of(other).text,
        insert_command_of(record).parameters.len() == 3,
        decode(bound_row(insert_command_of(record).parameters)) == Some(record),
{
}

/// A query over the rows of stored records yields exactly the stored
/// records that the filter lets through, each as often as it was stored and
/// in the order of the rows.
pub proof fn lemma_query_reads_back(records: Seq<GameView>, filter: Seq<char>)
    requires
        scores_fit(records),
    ensures
        selection(stored(records), filter) == matching(records, filter),
    decreases records.len(),
{
    let accepted = |record: GameView| accepts(filter, record.game);
    if records.len() == 0 {
        reveal(Seq::filter);
        assert(stored(records).len() == 0);
    } else {
        let rest = records.drop_last();
        let last = records.last();
        assert(scores_fit(rest));
        lemma_query_reads_back(rest, filter);
        assert(stored(records).drop_last() =~= stored(rest));
        assert(stored(records).last() == encode(last));
        lemma_record_round_trips(last);
        assert(records =~= rest.push(last));
        rest.lemma_filter_push(last, accepted);
        if accepts(filter, last.game) {
            assert(select(encode(last), filter) == Some(last));
            assert(selection(stored(rest), filter) + seq![last] =~= matching(rest, filter).push(
                last,
            ));
        } else {
            assert(select(encode(last), filter) is None);
        }
    }
}

/// A filter lets a record through as often as the record occurs, or not at
/// all: a query returns the records it should, no more and no fewer.
pub proof fn lemma_matching_counts(records: Seq<GameView>, filter: Seq<char>, record: GameView)
    ensures
        matching(records, filter).to_multiset().count(record) == if accepts(filter, record.game) {
            records.to_multiset().count(record)
        } else {
            0
        },
    decreases records.len(),
{
    let accepted = |record: GameView| accepts(filter, record.game);
    if records.len() == 0 {
        reveal(Seq::filter);
        assert(matching(records, filter) =~= records);
        assert(records =~= Seq::<GameView>::empty());
        assert(records.to_multiset().count(record) == 0) by {
            records.to_multiset_ensures();
        }
    } else {
        let rest = records.drop_last();
        let last = records.last();
        lemma_matching_counts(rest, filter, record);
        assert(records =~= rest.push(last));
        rest.lemma_filter_push(last, accepted);
        to_multiset_build(rest, last);
        to_multiset_build(matching(rest, filter), last);
    }
}

/// A filter that names a game returns exactly the records of that game:
/// each as often as it occurs, none of another game, and none at all when
/// no record is of that game.
pub proof fn lemma_filter_is_exact(records: Seq<GameView>, game: Seq<char>)
    requires
        game != all_games(),
    ensures
        forall|record: GameView|
            #[trigger] matching(records, game).to_multiset().count(record) == if record.game
                == game {
                records.to_multiset().count(record)
            } else {
                0
            },
        (forall|i: int| 0 <= i < records.len() ==> (#[trigger] records[i]).game != game)
            ==> matching(records, game).len() == 0,
{
    assert forall|record: GameView|
        #[trigger] matching(records, game).to_multiset().count(record) == if record.game == game {
            records.to_multiset().count(record)
        } else {
            0
        } by {
        lemma_matching_counts(records, game, record);
    }
    if forall|i: int| 0 <= i < records.len() ==> (#[trigger] records[i]).game != game {
        records.lemma_all_neg_filter_empty(|record: GameView| accepts(game, record.game));
    }
}

/// The filter for every game returns every record: as many as there are,
/// in their order.
pub proof fn lemma_all_games_returns_all(records: Seq<GameView>)
    ensures
        matching(records, all_games()) == records,
        matching(records, all_games()).len() == records.len(),
    decreases records.len(),
{
    let accepted = |record: GameView| accepts(all_games(), record.game);
    if records.len() == 0 {
        reveal(Seq::filter);
    } else {
        let rest = records.drop_last();
        lemma_all_games_returns_all(rest);
        assert(records =~= rest.push(records.last()));
        rest.lemma_filter_push(records.last(), accepted);
    }
}

} // verus!
