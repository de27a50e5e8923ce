use vstd::prelude::*;
use crate::repository::{CreateParams, Field, Options, RepoError, UpdateParams};

verus! {

/// A value bound to one positional placeholder.
#[derive(Debug, PartialEq, Eq)]
pub enum BindValue {
    Int(i32),
    Text(String),
}

/// A statement with positional placeholders, the column each placeholder stands
/// for, and the values bound to them, all in placeholder order.
pub struct Statement {
    pub sql: String,
    pub fields: Vec<Field>,
    pub values: Vec<BindValue>,
}

impl Statement {
    /// Each placeholder has one column and one value.
    pub open spec fn wf(&self) -> bool {
        self.fields@.len() == self.values@.len()
    }
}

pub open spec fn column_name(f: Field) -> Seq<char> {
    match f {
        Field::Id => "id"@,
        Field::PostId => "post_id"@,
        Field::ShortText => "short_text"@,
        Field::SampleId => "sample_id"@,
        Field::RowCount => "row_count"@,
        Field::Limit => "limit"@,
    }
}

/// `column = ?`
pub open spec fn assignment(f: Field) -> Seq<char> {
    column_name(f) + " = ?"@
}

/// The assignments of the given columns, in order, separated by commas.
pub open spec fn set_clause(cols: Seq<Field>) -> Seq<char>
    decreases cols.len(),
{
    if cols.len() == 0 {
        Seq::empty()
    } else if cols.len() == 1 {
        assignment(cols[0])
    } else {
        set_clause(cols.drop_last()) + ", "@ + assignment(cols.last())
    }
}

pub open spec fn get_sql() -> Seq<char> {
    "SELECT * FROM test_table LIMIT ?;"@
}

pub open spec fn insert_sql() -> Seq<char> {
    "INSERT INTO test_table (post_id, short_text, sample_id) VALUES (?, ?, ?);"@
}

pub open spec fn update_sql(cols: Seq<Field>) -> Seq<char> {
    "UPDATE test_table SET "@ + set_clause(cols) + " WHERE id = ?;"@
}

pub open spec fn delete_sql() -> Seq<char> {
    "DELETE FROM test_table WHERE id = ?"@
}

/// The columns of an insert, in declared order.
pub open spec fn create_fields() -> Seq<Field> {
    seq![Field::PostId, Field::ShortText, Field::SampleId]
}

pub open spec fn create_binds(p: CreateParams) -> Seq<BindValue> {
    seq![BindValue::Int(p.post_id), BindValue::Text(p.short_text), BindValue::Int(p.sample_id)]
}

/// The columns that an update sets: the present optional fields, in declared order.
pub open spec fn update_fields(p: UpdateParams) -> Seq<Field> {
    (if p.post_id is Some { seq![Field::PostId] } else { seq![] }) + (if p.short_text is Some {
        seq![Field::ShortText]
    } else {
        seq![]
    }) + (if p.sample_id is Some { seq![Field::SampleId] } else { seq![] })
}

/// The values of the present optional fields, in declared order.
pub open spec fn update_values(p: UpdateParams) -> Seq<BindValue> {
    (match p.post_id {
        Some(v) => seq![BindValue::Int(v)],
        None => seq![],
    }) + (match p.short_text {
        Some(t) => seq![BindValue::Text(t)],
        None => seq![],
    }) + (match p.sample_id {
        Some(v) => seq![BindValue::Int(v)],
        None => seq![],
    })
}

/// What an update binds: the present field values, then the identifier.
pub open spec fn update_binds(p: UpdateParams) -> Seq<BindValue> {
    update_values(p).push(BindValue::Int(p.id))
}

impl CreateParams {
    /// The values of an insert, in declared order.
    pub fn bind_values(&self) -> (r: Vec<BindValue>)
        ensures
            r@ == create_binds(*self),
            r@.len() == create_fields().len(),
    {
        vec![
            BindValue::Int(self.post_id),
            BindValue::Text(self.short_text.clone()),
            BindValue::Int(self.sample_id),
        ]
    }
}

impl UpdateParams {
    /// The values of an update: each present field in declared order, then the
    /// identifier.
    pub fn bind_values(&self) -> (r: Vec<BindValue>)
        ensures
            r@ == update_binds(*self),
            r@.len() == self.present_count() + 1,
            r@.last() == BindValue::Int(self.id),
    {
        let mut values: Vec<BindValue> = Vec::new();
        if let Some(post_id) = self.post_id {
            values.push(BindValue::Int(post_id));
        }
        if let Some(short_text) = &self.short_text {
            values.push(BindValue::Text(short_text.clone()));
        }
        if let Some(sample_id) = self.sample_id {
            values.push(BindValue::Int(sample_id));
        }
        assert(values@ =~= update_values(*self));
        values.push(BindValue::Int(self.id));
        values
    }
}

fn column_text(f: Field) -> (r: &'static str)
    ensures
        r@ == column_name(f),
{
    match f {
        Field::Id => "id",
        Field::PostId => "post_id",
        Field::ShortText => "short_text",
        Field::SampleId => "sample_id",
        Field::RowCount => "row_count",
        Field::Limit => "limit",
    }
}

/// Appends the assignment of one more column to a set clause.
fn push_assignment(clause: &mut String, cols: &mut Vec<Field>, f: Field)
    requires
        old(clause)@ == set_clause(old(cols)@),
    ensures
        final(cols)@ == old(cols)@.push(f),
        final(clause)@ == set_clause(final(cols)@),
{
    let ghost before = cols@;
    if cols.len() > 0 {
        clause.append(", ");
    }
    clause.append(column_text(f));
    clause.append(" = ?");
    cols.push(f);
    assert(cols@.drop_last() =~= before);
    proof {
        if before.len() == 0 {
            assert(clause@ =~= assignment(f));
        } else {
            assert(clause@ =~= set_clause(before) + ", "@ + assignment(f));
        }
    }
}

/// The read of at most the effective limit of rows.
pub fn get_statement(options: &Options) -> (r: Statement)
    ensures
        r.wf(),
        r.sql@ == get_sql(),
        r.fields@ == seq![Field::Limit],
        r.values@ == seq![BindValue::Int(options.effective_limit())],
        placeholder_count(r.sql@) == r.values@.len(),
{
    proof {
        lemma_placeholders_match_values(Seq::empty());
    }
    Statement {
        sql: String::from_str("SELECT * FROM test_table LIMIT ?;"),
        fields: vec![Field::Limit],
        values: vec![BindValue::Int(options.limit())],
    }
}

/// The insert of one row, binding every field in declared order.
pub fn create_statement(params: &CreateParams) -> (r: Statement)
    ensures
        r.wf(),
        r.sql@ == insert_sql(),
        r.fields@ == create_fields(),
        r.values@ == create_binds(*params),
        r.values@.len() == create_fields().len(),
        placeholder_count(r.sql@) == r.values@.len(),
{
    proof {
        lemma_placeholders_match_values(Seq::empty());
    }
    Statement {
        sql: String::from_str(
            "INSERT INTO test_table (post_id, short_text, sample_id) VALUES (?, ?, ?);",
        ),
        fields: vec![Field::PostId, Field::ShortText, Field::SampleId],
        values: params.bind_values(),
    }
}

/// The update of the present fields of one row, the identifier bound last; an
/// update that sets no field has no statement.
pub fn update_statement(params: &UpdateParams) -> (r: Result<Statement, RepoError>)
    ensures
        params.present_count() == 0 ==> r == Err::<Statement, RepoError>(
            RepoError::StatementBuildError,
        ),
        params.present_count() > 0 ==> r is Ok,
        r matches Ok(s) ==> {
            &&& s.wf()
            &&& s.sql@ == update_sql(update_fields(*params))
            &&& s.fields@ == update_fields(*params).push(Field::Id)
            &&& s.values@ == update_binds(*params)
            &&& placeholder_count(s.sql@) == s.values@.len()
        },
{
    proof {
        lemma_placeholders_match_values(update_fields(*params));
        lemma_update_binds_present_then_id(*params);
    }
    if params.post_id.is_none() && params.short_text.is_none() && params.sample_id.is_none() {
        return Err(RepoError::StatementBuildError);
    }
    let mut clause = String::new();
    let mut cols: Vec<Field> = Vec::new();
    if params.post_id.is_some() {
        push_assignment(&mut clause, &mut cols, Field::PostId);
    }
    if params.short_text.is_some() {
        push_assignment(&mut clause, &mut cols, Field::ShortText);
    }
    if params.sample_id.is_some() {
        push_assignment(&mut clause, &mut cols, Field::SampleId);
    }
    assert(cols@ =~= update_fields(*params));
    let mut sql = String::from_str("UPDATE test_table SET ");
    sql.append(clause.as_str());
    sql.append(" WHERE id = ?;");
    cols.push(Field::Id);
    let values = params.bind_values();
    Ok(Statement { sql, fields: cols, values })
}

/// The removal of one row by its identifier.
pub fn delete_statement(id: i32) -> (r: Statement)
    ensures
        r.wf(),
        r.sql@ == delete_sql(),
        r.fields@ == seq![Field::Id],
        r.values@ == seq![BindValue::Int(id)],
        placeholder_count(r.sql@) == r.values@.len(),
{
    proof {
        lemma_placeholders_match_values(Seq::empty());
    }
    Statement {
        sql: String::from_str("DELETE FROM test_table WHERE id = ?"),
        fields: vec![Field::Id],
        values: vec![BindValue::Int(id)],
    }
}

/// How many `?` placeholders a statement text holds.
pub open spec fn placeholder_count(s: Seq<char>) -> nat
    decreases s.len(),
{
    if s.len() == 0 {
        0
    } else {
        placeholder_count(s.drop_last()) + if s.last() == '?' {
            1nat
        } else {
            0nat
        }
    }
}

proof fn lemma_placeholder_count_add(a: Seq<char>, b: Seq<char>)
    ensures
        placeholder_count(a + b) == placeholder_count(a) + placeholder_count(b),
    decreases b.len(),
{
    if b.len() > 0 {
        assert((a + b).drop_last() =~= a + b.drop_last());
        lemma_placeholder_count_add(a, b.drop_last());
    } else {
        assert(a + b =~= a);
    }
}

proof fn lemma_no_placeholder(s: Seq<char>)
    requires
        forall|i: int| 0 <= i < s.len() ==> s[i] != '?',
    ensures
        placeholder_count(s) == 0,
    decreases s.len(),
{
    if s.len() > 0 {
        lemma_no_placeholder(s.drop_last());
    }
}

proof fn lemma_one_placeholder_at_end(s: Seq<char>)
    requires
        s.len() > 0,
        s.last() == '?',
        forall|i: int| 0 <= i < s.len() - 1 ==> s[i] != '?',
    ensures
        placeholder_count(s) == 1,
{
    lemma_no_placeholder(s.drop_last());
}

proof fn lemma_column_name_has_no_placeholder(f: Field)
    ensures
        placeholder_count(column_name(f)) == 0,
{
    reveal_strlit("id");
    reveal_strlit("post_id");
    reveal_strlit("short_text");
    reveal_strlit("sample_id");
    reveal_strlit("row_count");
    reveal_strlit("limit");
    lemma_no_placeholder(column_name(f));
}

proof fn lemma_set_clause_placeholders(cols: Seq<Field>)
    ensures
        placeholder_count(set_clause(cols)) == cols.len(),
    decreases cols.len(),
{
    reveal_strlit(" = ?");
    reveal_strlit(", ");
    lemma_one_placeholder_at_end(" = ?"@);
    lemma_no_placeholder(", "@);
    if cols.len() > 0 {
        let last = cols.last();
        lemma_column_name_has_no_placeholder(last);
        lemma_placeholder_count_add(column_name(last), " = ?"@);
        if cols.len() > 1 {
            lemma_set_clause_placeholders(cols.drop_last());
            lemma_placeholder_count_add(set_clause(cols.drop_last()), ", "@);
            lemma_placeholder_count_add(set_clause(cols.drop_last()) + ", "@, assignment(last));
        }
    } else {
        lemma_no_placeholder(set_clause(cols));
    }
}

/// Each statement text holds one placeholder per bound value: one in a read,
/// three in an insert, one per set column plus the identifier in an update, and
/// one in a delete.
pub proof fn lemma_placeholders_match_values(cols: Seq<Field>)
    ensures
        placeholder_count(get_sql()) == 1,
        placeholder_count(insert_sql()) == create_fields().len(),
        placeholder_count(update_sql(cols)) == cols.len() + 1,
        placeholder_count(delete_sql()) == 1,
{
    reveal_strlit("SELECT * FROM test_table LIMIT ?;");
    reveal_strlit("UPDATE test_table SET ");
    reveal_strlit(" WHERE id = ?;");
    reveal_strlit("DELETE FROM test_table WHERE id = ?");
    reveal_strlit("INSERT INTO test_table (post_id, short_text, sample_id) VALUES (?, ?, ?);");
    let g = get_sql();
    assert(g =~= g.drop_last() + seq![g.last()]);
    lemma_one_placeholder_at_end(g.drop_last());
    lemma_placeholder_count_add(g.drop_last(), seq![g.last()]);
    lemma_no_placeholder(seq![g.last()]);
    lemma_one_placeholder_at_end(delete_sql());
    let w = " WHERE id = ?;"@;
    assert(w =~= w.drop_last() + seq![w.last()]);
    lemma_one_placeholder_at_end(w.drop_last());
    lemma_placeholder_count_add(w.drop_last(), seq![w.last()]);
    lemma_no_placeholder(seq![w.last()]);
    lemma_no_placeholder("UPDATE test_table SET "@);
    lemma_set_clause_placeholders(cols);
    lemma_placeholder_count_add("UPDATE test_table SET "@, set_clause(cols));
    lemma_placeholder_count_add("UPDATE test_table SET "@ + set_clause(cols), w);
    let ins = insert_sql();
    let head = ins.take(64);
    assert(ins =~= head + ins.skip(64));
    lemma_no_placeholder(head);
    lemma_placeholder_count_add(head, ins.skip(64));
    reveal_with_fuel(placeholder_count, 10);
}

/// An insert binds every field of the row, in declared order: as many values as
/// the row has fields, the post reference first, then the text, then the sample
/// reference.
pub proof fn lemma_create_binds_every_field(p: CreateParams)
    ensures
        create_binds(p).len() == create_fields().len(),
        create_fields().len() == 3,
        create_binds(p)[0] == BindValue::Int(p.post_id),
        create_binds(p)[1] == BindValue::Text(p.short_text),
        create_binds(p)[2] == BindValue::Int(p.sample_id),
{
}

/// An update with k present optional fields binds k + 1 values: the k present
/// values in declared order, then the identifier last.
pub proof fn lemma_update_binds_present_then_id(p: UpdateParams)
    ensures
        update_values(p).len() == p.present_count(),
        update_fields(p).len() == p.present_count(),
        update_binds(p).len() == p.present_count() + 1,
        update_binds(p).take(p.present_count() as int) == update_values(p),
        update_binds(p).last() == BindValue::Int(p.id),
{
    assert(update_binds(p).take(p.present_count() as int) =~= update_values(p));
}

} // verus!
