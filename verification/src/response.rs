//! The envelope of every HTTP answer: a status code, an ok flag, an optional error and
//! optional data.
use vstd::prelude::*;
use vstd::string::*;

verus! {

/// HTTP status 200.
pub const STATUS_OK: u16 = 200;

/// HTTP status 400.
pub const STATUS_BAD_REQUEST: u16 = 400;

/// HTTP status 500.
pub const STATUS_INTERNAL_SERVER_ERROR: u16 = 500;

/// The message of `key` among field errors (the last entry with that key).
pub open spec fn field_lookup(fields: Seq<(Seq<char>, Seq<char>)>, key: Seq<char>) -> Option<Seq<char>>
    decreases fields.len(),
{
    if fields.len() == 0 {
        None
    } else if fields.last().0 == key {
        Some(fields.last().1)
    } else {
        field_lookup(fields.drop_last(), key)
    }
}

/// The field names of field errors, in order.
pub open spec fn field_names(fields: Seq<(Seq<char>, Seq<char>)>) -> Seq<Seq<char>> {
    fields.map_values(|e: (Seq<char>, Seq<char>)| e.0)
}

/// An error message, with an optional message per offending field.
pub struct ErrorResponse {
    error: String,
    fields: Option<Vec<(String, String)>>,
}

impl ErrorResponse {
    /// The general message.
    pub closed spec fn spec_error(&self) -> Seq<char> {
        self.error@
    }

    /// The field errors, if any were added.
    pub closed spec fn spec_fields(&self) -> Option<Seq<(Seq<char>, Seq<char>)>> {
        match self.fields {
            Some(v) => Some(v@.map_values(|e: (String, String)| (e.0@, e.1@))),
            None => None,
        }
    }

    /// Each field occurs at most once.
    pub open spec fn wf(&self) -> bool {
        self.spec_fields() matches Some(f) ==> field_names(f).no_duplicates()
    }

    /// An error with the given message and no field errors.
    pub fn new(error: String) -> (r: Self)
        ensures
            r.wf(),
            r.spec_error() == error@,
            r.spec_fields() is None,
    {
        Self { error, fields: None }
    }

    /// Records `err` as the message of `field`, replacing an earlier message of that field.
    pub fn add_field_error(&mut self, field: String, err: String)
        requires
            old(self).wf(),
        ensures
            final(self).wf(),
            final(self).spec_error() == old(self).spec_error(),
            final(self).spec_fields() matches Some(f) && field_lookup(f, field@) == Some(err@)
                && (forall|k: Seq<char>|
                k != field@ ==> #[trigger] field_lookup(f, k) == match old(self).spec_fields() {
                    Some(g) => field_lookup(g, k),
                    None => None,
                }),
    {
        let mut v: Vec<(String, String)> = match self.fields.take() {
            Some(v) => v,
            None => Vec::new(),
        };
        let ghost old_f = v@.map_values(|e: (String, String)| (e.0@, e.1@));
        assert forall|k: Seq<char>|
            #[trigger] field_lookup(old_f, k) == match old(self).spec_fields() {
                Some(g) => field_lookup(g, k),
                None => None,
            } by {
            if old(self).spec_fields() is None {
                assert(old_f.len() == 0);
            }
        }
        let mut i: usize = 0;
        while i < v.len()
            invariant
                i <= v@.len(),
                v@.map_values(|e: (String, String)| (e.0@, e.1@)) == old_f,
                forall|j: int| 0 <= j < i ==> (#[trigger] v@[j]).0@ != field@,
            ensures
                i <= v@.len(),
                forall|j: int| 0 <= j < i ==> (#[trigger] v@[j]).0@ != field@,
                i < v@.len() ==> v@[i as int].0@ == field@,
            decreases v@.len() - i,
        {
            if v[i].0 == field {
                break;
            }
            i = i + 1;
        }
        let ghost key = field@;
        let ghost val = err@;
        if i < v.len() {
            assert(old_f[i as int].0 == key);
            let ghost before = v@;
            v.set(i, (field, err));
            proof {
                lemma_field_update(old_f, i as int, key, val);
                assert(v@.map_values(|e: (String, String)| (e.0@, e.1@)) =~= old_f.update(
                    i as int,
                    (key, val),
                ));
            }
        } else {
            v.push((field, err));
            proof {
                assert(v@.map_values(|e: (String, String)| (e.0@, e.1@)) =~= old_f.push(
                    (key, val),
                ));
                assert(field_names(old_f.push((key, val))) =~= field_names(old_f).push(key));
                assert(old_f.push((key, val)).drop_last() =~= old_f);
                assert forall|k: Seq<char>| k != key implies #[trigger] field_lookup(
                    old_f.push((key, val)),
                    k,
                ) == field_lookup(old_f, k) by {
                    assert(old_f.push((key, val)).last().0 == key);
                }
                assert forall|j: int| 0 <= j < field_names(old_f).len() implies field_names(
                    old_f,
                )[j] != key by {
                    assert(old_f[j].0 == v@[j].0@);
                }
            }
        }
        self.fields = Some(v);
    }

    /// The general message.
    pub fn error(&self) -> (r: &String)
        ensures
            r@ == self.spec_error(),
    {
        &self.error
    }

    /// The field errors, as (field, message) pairs.
    pub fn fields(&self) -> (r: &Option<Vec<(String, String)>>)
        ensures
            match *r {
                Some(v) => self.spec_fields() == Some(v@.map_values(|e: (String, String)| (e.0@, e.1@))),
                None => self.spec_fields() is None,
            },
    {
        &self.fields
    }
}

/// Replacing the message of a field that occurs once sets that field's message and leaves
/// the others' as they were.
proof fn lemma_field_update(
    f: Seq<(Seq<char>, Seq<char>)>,
    i: int,
    key: Seq<char>,
    val: Seq<char>,
)
    requires
        0 <= i < f.len(),
        f[i].0 == key,
        field_names(f).no_duplicates(),
    ensures
        field_names(f.update(i, (key, val))).no_duplicates(),
        field_lookup(f.update(i, (key, val)), key) == Some(val),
        forall|k: Seq<char>|
            k != key ==> #[trigger] field_lookup(f.update(i, (key, val)), k) == field_lookup(f, k),
    decreases f.len(),
{
    let g = f.update(i, (key, val));
    assert(field_names(g) =~= field_names(f));
    if i == f.len() - 1 {
        assert(g.drop_last() =~= f.drop_last());
        assert forall|k: Seq<char>| k != key implies #[trigger] field_lookup(g, k) == field_lookup(
            f,
            k,
        ) by {
            assert(g.last().0 == key);
            assert(f.last().0 == key);
            assert(field_lookup(g, k) == field_lookup(g.drop_last(), k));
            assert(field_lookup(f, k) == field_lookup(f.drop_last(), k));
        }
    } else {
        assert(field_names(f.drop_last()) =~= field_names(f).drop_last());
        lemma_field_update(f.drop_last(), i, key, val);
        assert(g.drop_last() =~= f.drop_last().update(i, (key, val)));
        assert(f.last().0 != key) by {
            assert(field_names(f)[f.len() - 1] != field_names(f)[i]);
        }
        assert forall|k: Seq<char>| k != key implies #[trigger] field_lookup(g, k) == field_lookup(
            f,
            k,
        ) by {
            assert(g.last() == f.last());
            if g.last().0 != k {
                assert(field_lookup(g, k) == field_lookup(g.drop_last(), k));
                assert(field_lookup(f, k) == field_lookup(f.drop_last(), k));
                assert(field_lookup(f.drop_last().update(i, (key, val)), k) == field_lookup(
                    f.drop_last(),
                    k,
                ));
            }
        }
        assert(g.last() == f.last());
    }
}

/// The answer to an HTTP request.
pub struct ApiResponse<T> {
    status_code: u16,
    ok: bool,
    error: Option<ErrorResponse>,
    data: Option<T>,
}

impl<T> ApiResponse<T> {
    pub closed spec fn spec_status_code(&self) -> u16 {
        self.status_code
    }

    pub closed spec fn spec_ok(&self) -> bool {
        self.ok
    }

    pub closed spec fn spec_error(&self) -> Option<ErrorResponse> {
        self.error
    }

    pub closed spec fn spec_data(&self) -> Option<T> {
        self.data
    }

    /// A successful answer carrying `data`.
    pub fn for_success(data: Option<T>) -> (r: Self)
        ensures
            r.spec_status_code() == STATUS_OK,
            r.spec_ok(),
            r.spec_error() is None,
            r.spec_data() == data,
    {
        Self { status_code: STATUS_OK, ok: true, error: None, data }
    }

    /// A failed answer (status 500) carrying the message `err_msg`.
    pub fn for_error(err_msg: String) -> (r: Self)
        ensures
            r.spec_status_code() == STATUS_INTERNAL_SERVER_ERROR,
            !r.spec_ok(),
            r.spec_error() matches Some(e) && e.spec_error() == err_msg@ && e.spec_fields() is None,
            r.spec_data() is None,
    {
        Self {
            status_code: STATUS_INTERNAL_SERVER_ERROR,
            ok: false,
            error: Some(ErrorResponse::new(err_msg)),
            data: None,
        }
    }

    /// A failed answer (status 500) carrying `err`.
    pub fn with_error(err: ErrorResponse) -> (r: Self)
        ensures
            r.spec_status_code() == STATUS_INTERNAL_SERVER_ERROR,
            !r.spec_ok(),
            r.spec_error() == Some(err),
            r.spec_data() is None,
    {
        Self { status_code: STATUS_INTERNAL_SERVER_ERROR, ok: false, error: Some(err), data: None }
    }

    /// Marks the answer as failed with `err`; the status code is left as it is.
    pub fn set_error(&mut self, err: ErrorResponse)
        ensures
            !final(self).spec_ok(),
            final(self).spec_error() == Some(err),
            final(self).spec_status_code() == old(self).spec_status_code(),
            final(self).spec_data() == old(self).spec_data(),
    {
        self.ok = false;
        self.error = Some(err);
    }

    pub fn set_status_code(&mut self, status_code: u16)
        ensures
            final(self).spec_status_code() == status_code,
            final(self).spec_ok() == old(self).spec_ok(),
            final(self).spec_error() == old(self).spec_error(),
            final(self).spec_data() == old(self).spec_data(),
    {
        self.status_code = status_code;
    }

    pub fn set_data(&mut self, data: T)
        ensures
            final(self).spec_data() == Some(data),
            final(self).spec_status_code() == old(self).spec_status_code(),
            final(self).spec_ok() == old(self).spec_ok(),
            final(self).spec_error() == old(self).spec_error(),
    {
        self.data = Some(data);
    }

    pub fn set_ok(&mut self, ok: bool)
        ensures
            final(self).spec_ok() == ok,
            final(self).spec_status_code() == old(self).spec_status_code(),
            final(self).spec_error() == old(self).spec_error(),
            final(self).spec_data() == old(self).spec_data(),
    {
        self.ok = ok;
    }

    pub fn status_code(&self) -> (r: u16)
        ensures
            r == self.spec_status_code(),
    {
        self.status_code
    }

    pub fn ok(&self) -> (r: bool)
        ensures
            r == self.spec_ok(),
    {
        self.ok
    }

    pub fn error(&self) -> (r: &Option<ErrorResponse>)
        ensures
            *r == self.spec_error(),
    {
        &self.error
    }

    pub fn data(&self) -> (r: &Option<T>)
        ensures
            *r == self.spec_data(),
    {
        &self.data
    }

    /// The parts of the answer: status code, ok flag, error and data.
    pub fn into_parts(self) -> (r: (u16, bool, Option<ErrorResponse>, Option<T>))
        ensures
            r == (self.spec_status_code(), self.spec_ok(), self.spec_error(), self.spec_data()),
    {
        (self.status_code, self.ok, self.error, self.data)
    }
}

impl<T> Default for ApiResponse<T> {
    /// An empty successful answer (status 200).
    fn default() -> (r: Self)
        ensures
            r.spec_status_code() == STATUS_OK,
            r.spec_ok(),
            r.spec_error() is None,
            r.spec_data() is None,
    {
        Self { status_code: STATUS_OK, ok: true, error: None, data: None }
    }
}

} // verus!
