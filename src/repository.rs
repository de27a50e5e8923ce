use vstd::prelude::*;

verus! {

/// The number of rows a read returns when no limit was given.
pub const DEFAULT_LIMIT: i32 = 100;

/// Pagination options for a read.
pub struct Options {
    pub limit: Option<i32>,
}

impl Options {
    /// The limit that a read applies: the stored one, else the default.
    pub open spec fn effective_limit(&self) -> i32 {
        match self.limit {
            Some(l) => l,
            None => DEFAULT_LIMIT,
        }
    }

    pub fn new(limit: i32) -> (r: Options)
        ensures
            r.limit == Some(limit),
    {
        Options { limit: Some(limit) }
    }

    pub fn limit(&self) -> (r: i32)
        ensures
            r == self.effective_limit(),
    {
        match self.limit {
            Some(limit) => limit,
            None => DEFAULT_LIMIT,
        }
    }
}

/// The write acknowledgment handed back to callers: a status text only.
pub struct QueryResult {
    result: String,
}

impl View for QueryResult {
    type V = Seq<char>;

    closed spec fn view(&self) -> Seq<char> {
        self.result@
    }
}

impl From<String> for QueryResult {
    fn from(result: String) -> (r: QueryResult)
        ensures
            r@ == result@,
    {
        QueryResult { result }
    }
}

impl vstd::std_specs::convert::FromSpecImpl<String> for QueryResult {
    open spec fn obeys_from_spec() -> bool {
        true
    }

    closed spec fn from_spec(result: String) -> QueryResult {
        QueryResult { result }
    }
}

impl QueryResult {
    /// The acknowledgment of a write that the backend carried out.
    pub fn success() -> (r: QueryResult)
        ensures
            r@ == "success"@,
    {
        QueryResult { result: String::from_str("success") }
    }

    pub fn result(&self) -> (r: &str)
        ensures
            r@ == self@,
    {
        self.result.as_str()
    }
}

/// One decoded row of the table.
#[derive(Debug)]
pub struct TestData {
    pub id: i32,
    pub post_id: i32,
    pub short_text: String,
    pub created_at: String,
    pub updated_at: String,
    pub sample_id: i32,
}

impl Clone for TestData {
    fn clone(&self) -> (r: TestData)
        ensures
            r == *self,
    {
        TestData {
            id: self.id,
            post_id: self.post_id,
            short_text: self.short_text.clone(),
            created_at: self.created_at.clone(),
            updated_at: self.updated_at.clone(),
            sample_id: self.sample_id,
        }
    }
}

/// The fields of one row to insert; every field is present.
pub struct CreateParams {
    pub post_id: i32,
    pub short_text: String,
    pub sample_id: i32,
}

impl CreateParams {
    pub fn new(post_id: i32, short_text: String, sample_id: i32) -> (r: CreateParams)
        ensures
            r.post_id == post_id,
            r.short_text == short_text,
            r.sample_id == sample_id,
    {
        CreateParams { post_id, short_text, sample_id }
    }
}

/// The row to change, by its identifier, and the fields to set; an absent field
/// is left as it is.
pub struct UpdateParams {
    pub id: i32,
    pub post_id: Option<i32>,
    pub short_text: Option<String>,
    pub sample_id: Option<i32>,
}

impl UpdateParams {
    pub fn new(
        id: i32,
        post_id: Option<i32>,
        short_text: Option<String>,
        sample_id: Option<i32>,
    ) -> (r: UpdateParams)
        ensures
            r.id == id,
            r.post_id == post_id,
            r.short_text == short_text,
            r.sample_id == sample_id,
    {
        UpdateParams { id, post_id, short_text, sample_id }
    }

    /// How many of the optional fields are present.
    pub open spec fn present_count(&self) -> nat {
        (if self.post_id is Some { 1nat } else { 0nat }) + (if self.short_text is Some {
            1nat
        } else {
            0nat
        }) + (if self.sample_id is Some { 1nat } else { 0nat })
    }
}

/// A field of a request or of a row.
#[derive(Clone, Copy, Debug, PartialEq, Eq, Structural)]
pub enum Field {
    Id,
    PostId,
    ShortText,
    SampleId,
    RowCount,
    Limit,
}

/// Why a repository call failed.
#[derive(Debug, PartialEq, Eq)]
pub enum RepoError {
    /// A required field is missing or malformed; no backend call was made.
    ValidationError(Field),
    /// A field could not be converted into the backend's bindable form.
    ParameterMarshalError(Field),
    /// No statement can be rendered: an update that sets no field.
    StatementBuildError,
    /// The backend failed to execute the statement; its message is kept.
    QueryFailed(String),
    /// The backend reports that no row was affected.
    NotFound,
}

/// The capability of a storage backend for the table.
pub trait Repository {
    /// Reads up to the effective limit of rows.
    fn get(&self, options: Options) -> (r: Result<Vec<TestData>, RepoError>)
        ensures
            r is Ok && options.effective_limit() >= 0 ==> r->Ok_0.len()
                <= options.effective_limit(),
            r is Ok || r->Err_0 is QueryFailed || r->Err_0 is ParameterMarshalError,
    ;

    /// Inserts one row.
    fn create(&mut self, params: CreateParams) -> (r: Result<QueryResult, RepoError>)
        ensures
            r is Ok || r->Err_0 is QueryFailed || r->Err_0 is ParameterMarshalError,
    ;

    /// Sets the present fields of one row; an update that sets nothing is refused
    /// before the backend is reached.
    fn update(&mut self, params: UpdateParams) -> (r: Result<QueryResult, RepoError>)
        ensures
            params.present_count() == 0 ==> r == Err::<QueryResult, RepoError>(
                RepoError::StatementBuildError,
            ),
            r is Ok || r->Err_0 is StatementBuildError || r->Err_0 is NotFound
                || r->Err_0 is QueryFailed || r->Err_0 is ParameterMarshalError,
    ;

    /// Removes one row by its identifier.
    fn delete(&mut self, id: i32) -> (r: Result<QueryResult, RepoError>)
        ensures
            r is Ok || r->Err_0 is NotFound || r->Err_0 is QueryFailed
                || r->Err_0 is ParameterMarshalError,
    ;
}

} // verus!
