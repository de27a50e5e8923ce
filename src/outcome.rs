use vstd::prelude::*;
use crate::repository::{Options, QueryResult, RepoError, TestData};

verus! {

/// The rows a read hands back: those the backend returned, cut to the effective
/// limit where that limit is not negative.
pub open spec fn capped(rows: Seq<TestData>, limit: i32) -> Seq<TestData> {
    if 0 <= limit && limit < rows.len() {
        rows.take(limit as int)
    } else {
        rows
    }
}

/// Maps the backend's answer to an insert. `Ok` holds the number of changed
/// rows where the backend tells it; `Err` holds the backend's message.
pub fn finish_create(outcome: Result<Option<usize>, String>) -> (r: Result<QueryResult, RepoError>)
    ensures
        outcome matches Err(m) ==> r == Err::<QueryResult, RepoError>(RepoError::QueryFailed(m)),
        outcome is Ok ==> r is Ok && r->Ok_0@ == "success"@,
{
    match outcome {
        Ok(_) => Ok(QueryResult::success()),
        Err(m) => Err(RepoError::QueryFailed(m)),
    }
}

/// Maps the backend's answer to an update or a delete: no changed row, where
/// the backend tells the count, is `NotFound`.
pub fn finish_change(outcome: Result<Option<usize>, String>) -> (r: Result<QueryResult, RepoError>)
    ensures
        outcome matches Err(m) ==> r == Err::<QueryResult, RepoError>(RepoError::QueryFailed(m)),
        outcome == Ok::<Option<usize>, String>(Some(0)) ==> r == Err::<QueryResult, RepoError>(
            RepoError::NotFound,
        ),
        outcome is Ok && outcome->Ok_0 != Some(0usize) ==> r is Ok && r->Ok_0@ == "success"@,
{
    match outcome {
        Ok(Some(0)) => Err(RepoError::NotFound),
        Ok(_) => Ok(QueryResult::success()),
        Err(m) => Err(RepoError::QueryFailed(m)),
    }
}

/// Maps the backend's answer to a read: all the decoded rows, or its message.
pub fn finish_get(outcome: Result<Vec<TestData>, String>, options: &Options) -> (r: Result<
    Vec<TestData>,
    RepoError,
>)
    ensures
        outcome matches Err(m) ==> r == Err::<Vec<TestData>, RepoError>(RepoError::QueryFailed(m)),
        outcome is Ok ==> r is Ok && r->Ok_0@ == capped(outcome->Ok_0@, options.effective_limit()),
        r is Ok && options.effective_limit() >= 0 ==> r->Ok_0@.len() <= options.effective_limit(),
{
    match outcome {
        Ok(rows) => {
            let mut rows = rows;
            let limit = options.limit();
            if limit >= 0 && (limit as usize) < rows.len() {
                rows.truncate(limit as usize);
            }
            Ok(rows)
        },
        Err(m) => Err(RepoError::QueryFailed(m)),
    }
}

} // verus!
