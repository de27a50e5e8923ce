use vstd::prelude::*;
use vstd::std_specs::convert::TryFromSpecImpl;
use crate::repository::{CreateParams, Field, RepoError, UpdateParams};

verus! {

pub open spec fn is_digit(c: char) -> bool {
    '0' <= c && c <= '9'
}

pub open spec fn digit_value(c: char) -> int {
    (c as u32) as int - ('0' as u32) as int
}

pub open spec fn all_digits(s: Seq<char>) -> bool {
    forall|i: int| 0 <= i < s.len() ==> is_digit(#[trigger] s[i])
}

/// The number that a run of decimal digits writes.
pub open spec fn digits_value(s: Seq<char>) -> int
    decreases s.len(),
{
    if s.len() == 0 {
        0
    } else {
        digits_value(s.drop_last()) * 10 + digit_value(s.last())
    }
}

pub open spec fn has_sign(s: Seq<char>) -> bool {
    s.len() > 0 && (s[0] == '-' || s[0] == '+')
}

/// The text after an optional leading sign.
pub open spec fn unsigned_part(s: Seq<char>) -> Seq<char> {
    if has_sign(s) {
        s.drop_first()
    } else {
        s
    }
}

pub open spec fn signed_value(s: Seq<char>) -> int {
    if s.len() > 0 && s[0] == '-' {
        -digits_value(unsigned_part(s))
    } else {
        digits_value(unsigned_part(s))
    }
}

/// The decimal form of an `i32`: an optional `+` or `-`, then one or more ASCII
/// digits, with nothing around them, naming a value in range.
pub open spec fn parsed_i32(s: Seq<char>) -> Option<i32> {
    if unsigned_part(s).len() > 0 && all_digits(unsigned_part(s)) && i32::MIN <= signed_value(s)
        <= i32::MAX {
        Some(signed_value(s) as i32)
    } else {
        None
    }
}

proof fn lemma_digits_nonneg(s: Seq<char>)
    requires
        all_digits(s),
    ensures
        digits_value(s) >= 0,
    decreases s.len(),
{
    if s.len() > 0 {
        lemma_digits_nonneg(s.drop_last());
    }
}

/// A prefix of a run of digits writes no larger a number than the whole run.
proof fn lemma_digits_prefix_le(s: Seq<char>, k: int)
    requires
        all_digits(s),
        0 <= k <= s.len(),
    ensures
        digits_value(s.take(k)) <= digits_value(s),
    decreases s.len(),
{
    if k < s.len() {
        assert(s.drop_last().take(k) =~= s.take(k));
        lemma_digits_prefix_le(s.drop_last(), k);
        lemma_digits_nonneg(s.drop_last());
    } else {
        assert(s.take(k) =~= s);
    }
}

/// Reads an identifier written in decimal.
pub fn parse_i32(s: &str) -> (r: Option<i32>)
    ensures
        r == parsed_i32(s@),
{
    let n = s.unicode_len();
    if n == 0 {
        return None;
    }
    let first = s.get_char(0);
    let start: usize = if first == '-' || first == '+' {
        1
    } else {
        0
    };
    let ghost body = s@.subrange(start as int, n as int);
    assert(unsigned_part(s@) =~= body);
    if start == n {
        return None;
    }
    let mut acc: u64 = 0;
    let mut j: usize = start;
    while j < n
        invariant
            start <= j <= n,
            n == s@.len(),
            body == s@.subrange(start as int, n as int),
            unsigned_part(s@) == body,
            first == s@[0],
            start == (if first == '-' || first == '+' { 1usize } else { 0usize }),
            all_digits(body.take(j - start)),
            acc == digits_value(body.take(j - start)),
            acc <= 2147483648,
        decreases n - j,
    {
        let c = s.get_char(j);
        if !('0' <= c && c <= '9') {
            assert(!is_digit(body[j - start]));
            return None;
        }
        let d = (c as u32 - '0' as u32) as u64;
        let next = acc * 10 + d;
        assert(body.take(j + 1 - start).drop_last() =~= body.take(j - start));
        assert(next == digits_value(body.take(j + 1 - start)));
        if next > 2147483648 {
            proof {
                if all_digits(body) {
                    lemma_digits_prefix_le(body, j + 1 - start);
                }
            }
            return None;
        }
        acc = next;
        j = j + 1;
    }
    assert(body.take(n - start) =~= body);
    if first == '-' {
        if acc == 2147483648 {
            Some(i32::MIN)
        } else {
            Some(-(acc as i32))
        }
    } else if acc <= 2147483647 {
        Some(acc as i32)
    } else {
        None
    }
}

/// The body of a request to insert one row; each field may be missing.
pub struct CreateRequest {
    pub post_id: Option<i32>,
    pub short_text: Option<String>,
    pub sample_id: Option<i32>,
}

/// The row an insert request stands for, or the first missing field in
/// declared order.
pub open spec fn create_params_of(req: CreateRequest) -> Result<CreateParams, RepoError> {
    match (req.post_id, req.short_text, req.sample_id) {
        (Some(post_id), Some(short_text), Some(sample_id)) => Ok(
            CreateParams { post_id, short_text, sample_id },
        ),
        (None, _, _) => Err(RepoError::ValidationError(Field::PostId)),
        (_, None, _) => Err(RepoError::ValidationError(Field::ShortText)),
        (_, _, None) => Err(RepoError::ValidationError(Field::SampleId)),
    }
}

impl TryFrom<CreateRequest> for CreateParams {
    type Error = RepoError;

    fn try_from(req: CreateRequest) -> (r: Result<CreateParams, RepoError>) {
        let post_id = match req.post_id {
            Some(id) => id,
            None => return Err(RepoError::ValidationError(Field::PostId)),
        };
        let short_text = match req.short_text {
            Some(text) => text,
            None => return Err(RepoError::ValidationError(Field::ShortText)),
        };
        let sample_id = match req.sample_id {
            Some(id) => id,
            None => return Err(RepoError::ValidationError(Field::SampleId)),
        };
        Ok(CreateParams::new(post_id, short_text, sample_id))
    }
}

impl TryFromSpecImpl<CreateRequest> for CreateParams {
    open spec fn obeys_try_from_spec() -> bool {
        true
    }

    open spec fn try_from_spec(req: CreateRequest) -> Result<CreateParams, RepoError> {
        create_params_of(req)
    }
}

/// The body of a request to change one row; each field may be absent.
pub struct UpdateRequest {
    pub post_id: Option<i32>,
    pub short_text: Option<String>,
    pub sample_id: Option<i32>,
}

impl UpdateParams {
    /// Builds an update from the identifier text of the request and its body.
    pub fn try_new(id: Option<&String>, update_request: UpdateRequest) -> (r: Result<
        UpdateParams,
        RepoError,
    >)
        ensures
            id is None ==> r == Err::<UpdateParams, RepoError>(RepoError::ValidationError(Field::Id)),
            id is Some && parsed_i32(id->0@) is None ==> r == Err::<UpdateParams, RepoError>(
                RepoError::ValidationError(Field::Id),
            ),
            id is Some && parsed_i32(id->0@) is Some ==> r == Ok::<UpdateParams, RepoError>(
                (UpdateParams {
                    id: parsed_i32(id->0@)->0,
                    post_id: update_request.post_id,
                    short_text: update_request.short_text,
                    sample_id: update_request.sample_id,
                }),
            ),
    {
        let id_str = match id {
            Some(id) => id,
            None => return Err(RepoError::ValidationError(Field::Id)),
        };
        let id = match parse_i32(id_str.as_str()) {
            Some(id) => id,
            None => return Err(RepoError::ValidationError(Field::Id)),
        };
        Ok(UpdateParams {
            id,
            post_id: update_request.post_id,
            short_text: update_request.short_text,
            sample_id: update_request.sample_id,
        })
    }
}

/// The body of a request to insert a number of rows at once.
pub struct BulkInsertRequest {
    pub row_count: Option<i32>,
}

/// How many rows a bulk insert makes.
pub struct BulkInsertParams {
    pub row_count: i32,
}

impl BulkInsertParams {
    pub fn new(row_count: i32) -> (r: BulkInsertParams)
        ensures
            r.row_count == row_count,
    {
        BulkInsertParams { row_count }
    }
}

impl TryFrom<BulkInsertRequest> for BulkInsertParams {
    type Error = RepoError;

    fn try_from(req: BulkInsertRequest) -> (r: Result<BulkInsertParams, RepoError>) {
        match req.row_count {
            Some(count) => Ok(BulkInsertParams::new(count)),
            None => Err(RepoError::ValidationError(Field::RowCount)),
        }
    }
}

impl TryFromSpecImpl<BulkInsertRequest> for BulkInsertParams {
    open spec fn obeys_try_from_spec() -> bool {
        true
    }

    open spec fn try_from_spec(req: BulkInsertRequest) -> Result<BulkInsertParams, RepoError> {
        match req.row_count {
            Some(row_count) => Ok(BulkInsertParams { row_count }),
            None => Err(RepoError::ValidationError(Field::RowCount)),
        }
    }
}

} // verus!
