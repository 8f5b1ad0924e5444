//! The decisions around the history database: how the outcomes of the
//! clean-up steps after Delete All combine into one result, when a WAL
//! checkpoint counts as failed, and what the frontend is told.
use vstd::prelude::*;

use crate::text::{push_signed_dec, signed_dec_text};

verus! {

/// The outcome of Delete All: the rows removed, and the clean-up error when
/// the rows were deleted but the checkpoint/VACUUM/checkpoint sequence did
/// not complete.
#[derive(Debug, Clone, PartialEq, Eq)]
pub struct HistoryPurgeResult {
    pub rows_deleted: u64,
    pub cleanup_error: Option<String>,
}

/// The outcome of Delete All, as the frontend receives it.
#[derive(Clone, Debug)]
pub struct DeleteAllHistoryResult {
    pub deleted_count: u64,
    pub cleanup_complete: bool,
    /// Present only when the rows were deleted but clean-up was not confirmed.
    pub cleanup_error: Option<String>,
}

impl HistoryPurgeResult {
    /// The result of Delete All once `rows_deleted` rows were committed
    /// deleted and the clean-up ended with `cleanup`.
    pub fn after_delete(rows_deleted: u64, cleanup: Result<(), String>) -> (r: HistoryPurgeResult)
        ensures
            r.rows_deleted == rows_deleted,
            r.cleanup_error == (match cleanup {
                Ok(()) => None,
                Err(e) => Some(e),
            }),
    {
        HistoryPurgeResult {
            rows_deleted,
            cleanup_error: match cleanup {
                Ok(()) => None,
                Err(e) => Some(e),
            },
        }
    }
}

/// What the frontend is told of a Delete All that removed rows with the
/// result `p`.
pub open spec fn delete_all_result_of(p: HistoryPurgeResult) -> DeleteAllHistoryResult {
    DeleteAllHistoryResult {
        deleted_count: p.rows_deleted,
        cleanup_complete: p.cleanup_error is None,
        cleanup_error: p.cleanup_error,
    }
}

/// The warning shown when Delete All removed the rows but clean-up failed
/// with `error`.
pub open spec fn cleanup_warning_text(error: Seq<char>) -> Seq<char> {
    "history was deleted, but secure disk cleanup did not complete: "@ + error
}

impl DeleteAllHistoryResult {
    /// What the frontend is told of a Delete All: the count, whether clean-up
    /// completed, and the clean-up error if it did not.
    pub fn from_purge(result: HistoryPurgeResult) -> (r: DeleteAllHistoryResult)
        ensures
            r.deleted_count == result.rows_deleted,
            r.cleanup_complete == (result.cleanup_error is None),
            r.cleanup_error == result.cleanup_error,
            r == delete_all_result_of(result),
    {
        let complete = result.cleanup_error.is_none();
        DeleteAllHistoryResult {
            deleted_count: result.rows_deleted,
            cleanup_complete: complete,
            cleanup_error: result.cleanup_error,
        }
    }
}

/// `parts` joined with `sep` between neighbours.
pub open spec fn join_text(parts: Seq<Seq<char>>, sep: Seq<char>) -> Seq<char>
    decreases parts.len(),
{
    if parts.len() == 0 {
        Seq::empty()
    } else if parts.len() == 1 {
        parts[0]
    } else {
        join_text(parts.drop_last(), sep) + sep + parts.last()
    }
}

/// `parts` joined with `sep` between neighbours (`[String]::join`).
pub fn join_strings(parts: &Vec<String>, sep: &str) -> (r: String)
    ensures
        r@ == join_text(parts@.map_values(|s: String| s@), sep@),
{
    let ghost views = parts@.map_values(|s: String| s@);
    let mut out = String::new();
    let n = parts.len();
    for i in 0..n
        invariant
            n == parts@.len(),
            views == parts@.map_values(|s: String| s@),
            out@ == join_text(views.take(i as int), sep@),
    {
        assert(views.take(i + 1).drop_last() =~= views.take(i as int));
        if i > 0 {
            out.append(sep);
        }
        out.append(parts[i].as_str());
        proof {
            if i == 0 {
                assert(views.take(1) =~= seq![views[0]]);
                assert(out@ =~= join_text(views.take(1), sep@));
            }
        }
    }
    assert(views.take(n as int) =~= views);
    out
}

/// The labelled error texts of the clean-up steps that failed, in order.
pub open spec fn cleanup_failures(
    before: Result<(), String>,
    vacuum: Result<(), String>,
    after: Result<(), String>,
) -> Seq<Seq<char>> {
    let a = match before {
        Ok(()) => Seq::<Seq<char>>::empty(),
        Err(e) => seq!["WAL checkpoint before VACUUM failed: "@ + e@],
    };
    let b = match vacuum {
        Ok(()) => Seq::<Seq<char>>::empty(),
        Err(e) => seq!["VACUUM failed: "@ + e@],
    };
    let c = match after {
        Ok(()) => Seq::<Seq<char>>::empty(),
        Err(e) => seq!["WAL checkpoint after VACUUM failed: "@ + e@],
    };
    a + b + c
}

/// A clean-up error text with its label.
fn labelled(label: &str, error: &String) -> (r: String)
    ensures
        r@ == label@ + error@,
{
    let mut s = String::from_str(label);
    s.append(error.as_str());
    s
}

/// Combines the outcomes of the three clean-up steps that follow Delete All
/// (WAL checkpoint, VACUUM, WAL checkpoint): success when all three
/// succeeded, else every failure, labelled by its step, joined with `; `.
pub fn finish_history_cleanup(
    before: Result<(), String>,
    vacuum: Result<(), String>,
    after: Result<(), String>,
) -> (r: Result<(), String>)
    ensures
        r is Ok <==> (before is Ok && vacuum is Ok && after is Ok),
        r matches Err(e) ==> e@ == join_text(cleanup_failures(before, vacuum, after), "; "@),
{
    let ghost spec_parts = cleanup_failures(before, vacuum, after);
    let mut errors: Vec<String> = Vec::new();
    let ghost before_v = before;
    let ghost vacuum_v = vacuum;
    let ghost after_v = after;
    match before {
        Ok(()) => {},
        Err(e) => {
            errors.push(labelled("WAL checkpoint before VACUUM failed: ", &e));
        },
    }
    let ghost n1 = errors@.len();
    match vacuum {
        Ok(()) => {},
        Err(e) => {
            errors.push(labelled("VACUUM failed: ", &e));
        },
    }
    match after {
        Ok(()) => {},
        Err(e) => {
            errors.push(labelled("WAL checkpoint after VACUUM failed: ", &e));
        },
    }
    assert(errors@.map_values(|s: String| s@) =~= cleanup_failures(before_v, vacuum_v, after_v));
    if errors.len() == 0 {
        Ok(())
    } else {
        Err(join_strings(&errors, "; "))
    }
}

/// The text of a WAL checkpoint result row, as `{:?}` prints the triple.
pub open spec fn checkpoint_text(checkpoint: (i64, i64, i64)) -> Seq<char> {
    seq!['('] + signed_dec_text(checkpoint.0 as int) + ", "@ + signed_dec_text(checkpoint.1 as int) + ", "@
        + signed_dec_text(checkpoint.2 as int) + seq![')']
}

/// Judges the row a `PRAGMA wal_checkpoint` returned: the checkpoint failed
/// when its first column (busy) is not zero.
pub fn run_wal_checkpoint(checkpoint: (i64, i64, i64)) -> (r: Result<(), String>)
    ensures
        r is Ok <==> checkpoint.0 == 0,
        r matches Err(e) ==> e@ == "checkpoint remained busy: "@ + checkpoint_text(checkpoint),
{
    if checkpoint.0 == 0 {
        return Ok(());
    }
    let mut s = String::from_str("checkpoint remained busy: (");
    push_signed_dec(&mut s, checkpoint.0);
    s.append(", ");
    push_signed_dec(&mut s, checkpoint.1);
    s.append(", ");
    push_signed_dec(&mut s, checkpoint.2);
    s.append(")");
    proof {
        reveal_strlit("checkpoint remained busy: (");
        reveal_strlit("checkpoint remained busy: ");
        reveal_strlit(", ");
        reveal_strlit(")");
        assert(s@ =~= "checkpoint remained busy: "@ + checkpoint_text(checkpoint));
    }
    Err(s)
}

/// The warning shown when Delete All removed the rows but clean-up failed.
pub fn cleanup_warning(error: &str) -> (r: String)
    ensures
        r@ == cleanup_warning_text(error@),
{
    let mut s = String::from_str("history was deleted, but secure disk cleanup did not complete: ");
    s.append(error);
    s
}

} // verus!
