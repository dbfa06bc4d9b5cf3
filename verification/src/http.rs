//! The HTTP handlers' logic: checking query parameters and answering transaction lookups.
use vstd::prelude::*;
use vstd::string::*;
use crate::response::{ApiResponse, ErrorResponse, STATUS_BAD_REQUEST, STATUS_OK, field_lookup};
use crate::storage::{has_key, lookup, InMemoryStorage, TxHash};

verus! {

/// The value of a hexadecimal digit, upper or lower case.
pub open spec fn hex_value(c: char) -> Option<nat> {
    let x = c as int;
    if 48 <= x <= 57 {
        Some((x - 48) as nat)
    } else if 97 <= x <= 102 {
        Some((x - 87) as nat)
    } else if 65 <= x <= 70 {
        Some((x - 55) as nat)
    } else {
        None
    }
}

/// The text without a leading `0x` or `0X`.
pub open spec fn strip_hex_prefix(s: Seq<char>) -> Seq<char> {
    if s.len() >= 2 && s[0] == '0' && (s[1] == 'x' || s[1] == 'X') {
        s.subrange(2, s.len() as int)
    } else {
        s
    }
}

/// The 32 bytes a hash text stands for: 64 hexadecimal digits, optionally after `0x`.
pub open spec fn parse_hash_text(s: Seq<char>) -> Option<Seq<u8>> {
    let t = strip_hex_prefix(s);
    if t.len() == 64 && forall|i: int| 0 <= i < 64 ==> (#[trigger] hex_value(t[i])) is Some {
        Some(
            Seq::new(
                32,
                |i: int| (16 * hex_value(t[2 * i])->0 + hex_value(t[2 * i + 1])->0) as u8,
            ),
        )
    } else {
        None
    }
}

/// Parses a hash as `alloy`'s `B256` does from a string.
#[verifier::external_body]
pub(crate) fn parse_tx_hash(s: &str) -> (r: Option<TxHash>)
    ensures
        match r {
            Some(h) => parse_hash_text(s@) == Some(h@),
            None => parse_hash_text(s@) is None,
        },
{
    s.parse::<alloy::primitives::B256>().ok().map(|b| b.0)
}

/// A rejected parameter: its name and the message.
pub struct FieldError {
    pub field: String,
    pub message: String,
}

/// The query of a transaction lookup.
pub struct TxListParams {
    pub id: String,
}

/// The length of a transaction id the lookup accepts, in characters.
pub open spec fn id_length_ok(id: Seq<char>) -> bool {
    64 <= id.len() <= 66
}

impl TxListParams {
    pub fn new(id: String) -> (r: Self)
        ensures
            r.id@ == id@,
    {
        TxListParams { id }
    }

    /// The id must be 64 to 66 characters long.
    pub fn validate(&self) -> (r: Result<(), FieldError>)
        ensures
            r is Ok <==> id_length_ok(self.id@),
            r matches Err(e) ==> e.field@ == "id"@ && e.message@
                == "id must be a correct Ethereum transaction hash"@,
    {
        let n = self.id.as_str().unicode_len();
        if n < 64 || n > 66 {
            return Err(
                FieldError {
                    field: String::from_str("id"),
                    message: String::from_str("id must be a correct Ethereum transaction hash"),
                },
            );
        }
        Ok(())
    }
}

/// The answer of a transaction lookup.
pub struct TxResponse {}

/// Handlers of the simulator's HTTP routes.
pub struct IndexerHandlers;

/// Whether a lookup of `id` in `storage` is answerable: an id of the accepted length is a
/// hash text of a stored transaction.
pub open spec fn lookup_answerable<V>(storage: &InMemoryStorage<V>, id: Seq<char>) -> bool {
    id_length_ok(id) ==> (parse_hash_text(id) matches Some(h) && has_key(storage.entries(), h))
}

impl IndexerHandlers {
    /// Looks up the transaction named by `params.id`. An id of the wrong length is answered
    /// with status 400 and a "validation error" naming the `id` field; otherwise the stored
    /// transaction is returned with status 200.
    pub fn get_list<V: Clone>(storage: &InMemoryStorage<V>, params: &TxListParams) -> (r:
        ApiResponse<V>)
        requires
            lookup_answerable(storage, params.id@),
        ensures
            !id_length_ok(params.id@) ==> {
                &&& r.spec_status_code() == STATUS_BAD_REQUEST
                &&& !r.spec_ok()
                &&& r.spec_data() is None
                &&& r.spec_error() matches Some(e) && e.spec_error() == "validation error"@ && (
                e.spec_fields() matches Some(f) && field_lookup(f, "id"@) == Some(
                    "id must be a correct Ethereum transaction hash"@,
                ) && forall|k: Seq<char>| k != "id"@ ==> #[trigger] field_lookup(f, k) is None)
            },
            id_length_ok(params.id@) ==> {
                &&& r.spec_status_code() == STATUS_OK
                &&& r.spec_ok()
                &&& r.spec_error() is None
                &&& r.spec_data() matches Some(v) && cloned::<V>(
                    lookup(storage.entries(), parse_hash_text(params.id@)->0)->0,
                    v,
                )
            },
    {
        let mut api_response: ApiResponse<V> = ApiResponse::default();
        match params.validate() {
            Err(e) => {
                let mut err_r = ErrorResponse::new(String::from_str("validation error"));
                err_r.add_field_error(e.field, e.message);
                api_response.set_status_code(STATUS_BAD_REQUEST);
                api_response.set_error(err_r);
                return api_response;
            },
            Ok(()) => {},
        }
        let tx_hash = match parse_tx_hash(params.id.as_str()) {
            Some(h) => h,
            None => {
                assert(false);
                return api_response;
            },
        };
        match storage.get_transaction(&tx_hash) {
            Err(e) => ApiResponse::for_error(e.to_string()),
            Ok(res) => ApiResponse::for_success(res),
        }
    }
}

/// Handlers of the product routes.
pub struct ProductHandlers {}

} // verus!
