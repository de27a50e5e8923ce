use vstd::prelude::*;
use crate::outcome::capped;
use crate::repository::{
    CreateParams, Options, QueryResult, RepoError, Repository, TestData, UpdateParams,
};

verus! {

/// Whether some row has the identifier.
pub open spec fn contains_id(rows: Seq<TestData>, id: i32) -> bool {
    exists|i: int| 0 <= i < rows.len() && (#[trigger] rows[i]).id == id
}

/// The rows without those that have the identifier, order kept.
pub open spec fn without_id(rows: Seq<TestData>, id: i32) -> Seq<TestData>
    decreases rows.len(),
{
    if rows.len() == 0 {
        rows
    } else if rows.last().id == id {
        without_id(rows.drop_last(), id)
    } else {
        without_id(rows.drop_last(), id).push(rows.last())
    }
}

/// A row with the present fields of an update set and the others kept.
pub open spec fn apply_update(row: TestData, p: UpdateParams) -> TestData {
    TestData {
        id: row.id,
        post_id: match p.post_id {
            Some(v) => v,
            None => row.post_id,
        },
        short_text: match p.short_text {
            Some(t) => t,
            None => row.short_text,
        },
        created_at: row.created_at,
        updated_at: row.updated_at,
        sample_id: match p.sample_id {
            Some(v) => v,
            None => row.sample_id,
        },
    }
}

/// The rows after an update: those with its identifier changed, the rest kept.
pub open spec fn updated(rows: Seq<TestData>, p: UpdateParams) -> Seq<TestData> {
    rows.map_values(|row: TestData| if row.id == p.id { apply_update(row, p) } else { row })
}

/// The row that an insert of `p` makes under the identifier `id`.
pub open spec fn created_row(row: TestData, p: CreateParams, id: i32) -> bool {
    &&& row.id == id
    &&& row.post_id == p.post_id
    &&& row.short_text == p.short_text
    &&& row.sample_id == p.sample_id
}

/// A table held in memory, in insertion order; identifiers are handed out in
/// increasing order from 1. It keeps no timestamps: those columns stay empty.
pub struct MemoryStore {
    rows: Vec<TestData>,
    next_id: i32,
}

impl View for MemoryStore {
    type V = Seq<TestData>;

    closed spec fn view(&self) -> Seq<TestData> {
        self.rows@
    }
}

impl MemoryStore {
    /// The identifier the next insert takes.
    pub closed spec fn next_id(&self) -> i32 {
        self.next_id
    }

    pub fn new() -> (r: MemoryStore)
        ensures
            r@ == Seq::<TestData>::empty(),
            r.next_id() == 1,
    {
        MemoryStore { rows: Vec::new(), next_id: 1 }
    }

    fn has_id(&self, id: i32) -> (r: bool)
        ensures
            r == contains_id(self@, id),
    {
        let mut i: usize = 0;
        while i < self.rows.len()
            invariant
                i <= self.rows@.len(),
                forall|k: int| 0 <= k < i ==> (#[trigger] self.rows@[k]).id != id,
            decreases self.rows@.len() - i,
        {
            if self.rows[i].id == id {
                return true;
            }
            i = i + 1;
        }
        false
    }
}

impl Repository for MemoryStore {
    fn get(&self, options: Options) -> (r: Result<Vec<TestData>, RepoError>)
        ensures
            r is Ok && r->Ok_0@ == capped(self@, options.effective_limit()),
    {
        let limit = options.limit();
        let n: usize = if limit >= 0 && (limit as usize) < self.rows.len() {
            limit as usize
        } else {
            self.rows.len()
        };
        let mut out: Vec<TestData> = Vec::new();
        let mut i: usize = 0;
        while i < n
            invariant
                n <= self.rows@.len(),
                i <= n,
                out@ == self.rows@.take(i as int),
            decreases n - i,
        {
            out.push(self.rows[i].clone());
            i = i + 1;
            assert(out@ =~= self.rows@.take(i as int));
        }
        assert(self.rows@.take(self.rows@.len() as int) =~= self.rows@);
        Ok(out)
    }

    fn create(&mut self, params: CreateParams) -> (r: Result<QueryResult, RepoError>)
        ensures
            old(self).next_id() == i32::MAX ==> r is Err && r->Err_0 is QueryFailed && final(self)@
                == old(self)@ && final(self).next_id() == old(self).next_id(),
            old(self).next_id() < i32::MAX ==> {
                &&& r is Ok && r->Ok_0@ == "success"@
                &&& final(self)@.len() == old(self)@.len() + 1
                &&& final(self)@.drop_last() == old(self)@
                &&& created_row(final(self)@.last(), params, old(self).next_id())
                &&& final(self).next_id() == old(self).next_id() + 1
            },
    {
        if self.next_id == i32::MAX {
            return Err(RepoError::QueryFailed(String::from_str("identifier space exhausted")));
        }
        let id = self.next_id;
        self.rows.push(
            TestData {
                id,
                post_id: params.post_id,
                short_text: params.short_text,
                created_at: String::new(),
                updated_at: String::new(),
                sample_id: params.sample_id,
            },
        );
        self.next_id = id + 1;
        Ok(QueryResult::success())
    }

    fn update(&mut self, params: UpdateParams) -> (r: Result<QueryResult, RepoError>)
        ensures
            params.present_count() == 0 ==> final(self)@ == old(self)@,
            params.present_count() > 0 && !contains_id(old(self)@, params.id) ==> r
                == Err::<QueryResult, RepoError>(RepoError::NotFound) && final(self)@ == old(
                self,
            )@,
            params.present_count() > 0 && contains_id(old(self)@, params.id) ==> r is Ok
                && r->Ok_0@ == "success"@ && final(self)@ == updated(old(self)@, params),
            final(self).next_id() == old(self).next_id(),
    {
        if params.post_id.is_none() && params.short_text.is_none() && params.sample_id.is_none() {
            return Err(RepoError::StatementBuildError);
        }
        if !self.has_id(params.id) {
            return Err(RepoError::NotFound);
        }
        let mut out: Vec<TestData> = Vec::new();
        let mut i: usize = 0;
        while i < self.rows.len()
            invariant
                i <= self.rows@.len(),
                out@ == updated(self.rows@.take(i as int), params),
            decreases self.rows@.len() - i,
        {
            let row = self.rows[i].clone();
            let next = if row.id == params.id {
                TestData {
                    id: row.id,
                    post_id: match params.post_id {
                        Some(v) => v,
                        None => row.post_id,
                    },
                    short_text: match &params.short_text {
                        Some(t) => t.clone(),
                        None => row.short_text,
                    },
                    created_at: row.created_at,
                    updated_at: row.updated_at,
                    sample_id: match params.sample_id {
                        Some(v) => v,
                        None => row.sample_id,
                    },
                }
            } else {
                row
            };
            out.push(next);
            i = i + 1;
            assert(out@ =~= updated(self.rows@.take(i as int), params));
        }
        assert(self.rows@.take(self.rows@.len() as int) =~= self.rows@);
        self.rows = out;
        Ok(QueryResult::success())
    }

    fn delete(&mut self, id: i32) -> (r: Result<QueryResult, RepoError>)
        ensures
            !contains_id(old(self)@, id) ==> r == Err::<QueryResult, RepoError>(RepoError::NotFound),
            contains_id(old(self)@, id) ==> r is Ok && r->Ok_0@ == "success"@,
            final(self)@ == without_id(old(self)@, id),
            final(self).next_id() == old(self).next_id(),
    {
        let mut kept: Vec<TestData> = Vec::new();
        let mut i: usize = 0;
        while i < self.rows.len()
            invariant
                i <= self.rows@.len(),
                kept@ == without_id(self.rows@.take(i as int), id),
            decreases self.rows@.len() - i,
        {
            assert(self.rows@.take(i + 1).drop_last() =~= self.rows@.take(i as int));
            if self.rows[i].id != id {
                kept.push(self.rows[i].clone());
            }
            i = i + 1;
        }
        assert(self.rows@.take(self.rows@.len() as int) =~= self.rows@);
        let found = self.has_id(id);
        proof {
            if !found {
                lemma_without_absent(self.rows@, id);
            }
        }
        self.rows = kept;
        if found {
            Ok(QueryResult::success())
        } else {
            Err(RepoError::NotFound)
        }
    }
}

/// Taking away an identifier that no row has leaves the rows as they are.
proof fn lemma_without_absent(rows: Seq<TestData>, id: i32)
    requires
        !contains_id(rows, id),
    ensures
        without_id(rows, id) == rows,
    decreases rows.len(),
{
    if rows.len() > 0 {
        let rest = rows.drop_last();
        assert forall|i: int| 0 <= i < rest.len() implies (#[trigger] rest[i]).id != id by {
            assert(rows[i].id != id);
        }
        lemma_without_absent(rest, id);
        assert(rows.last().id != id) by {
            assert(rows[rows.len() - 1].id != id);
        }
        assert(rest.push(rows.last()) =~= rows);
    }
}

/// No row that is left after an identifier was taken away has that identifier.
proof fn lemma_without_excludes(rows: Seq<TestData>, id: i32)
    ensures
        forall|i: int|
            0 <= i < without_id(rows, id).len() ==> (#[trigger] without_id(rows, id)[i]).id != id,
    decreases rows.len(),
{
    if rows.len() > 0 {
        let rest = without_id(rows.drop_last(), id);
        lemma_without_excludes(rows.drop_last(), id);
        if rows.last().id != id {
            assert forall|i: int| 0 <= i < rest.push(rows.last()).len() implies (#[trigger] rest.push(
                rows.last(),
            )[i]).id != id by {
                if i < rest.len() {
                    assert(rest[i].id != id);
                }
            }
        }
    }
}

/// Deleting an identifier leaves no row with it, so a second delete of the same
/// identifier finds nothing to remove: it reports `NotFound` and changes nothing.
pub proof fn lemma_delete_twice(rows: Seq<TestData>, id: i32)
    ensures
        !contains_id(without_id(rows, id), id),
        without_id(without_id(rows, id), id) == without_id(rows, id),
{
    lemma_without_excludes(rows, id);
    lemma_without_absent(without_id(rows, id), id);
}

/// A row that an insert adds to the table comes back, with the inserted field
/// values, from a read whose limit leaves room for it.
pub proof fn lemma_create_then_get(
    rows: Seq<TestData>,
    row: TestData,
    params: CreateParams,
    id: i32,
    limit: i32,
)
    requires
        created_row(row, params, id),
        limit < 0 || rows.len() < limit,
    ensures
        capped(rows.push(row), limit).len() == rows.len() + 1,
        created_row(capped(rows.push(row), limit).last(), params, id),
{
}

} // verus!
