//! The endpoint bodies: a fixed greeting, and one list body per table.
//!
//! A list endpoint serves the whole table ordered ascending by id. A failed
//! query is swallowed: the endpoint serves the empty array, byte-for-byte
//! the body of an empty table.
use crate::json::{array_json, array_json_body, lemma_empty_array_json, JsonValue};
use crate::order::{sort_by_id, sorted_by_id, IdRecord};
use vstd::prelude::*;
use vstd::string::StringExecFns;

verus! {

/// The fixed greeting payload.
pub open spec fn hello_json() -> Seq<char> {
    "{\"message\":\"Hello from Rust backend!\"}"@
}

/// The greeting endpoint's body: always the same fixed JSON object. It
/// takes no input and issues no query.
pub fn hello_response() -> (r: String)
    ensures
        r@ == hello_json(),
{
    String::from_str("{\"message\":\"Hello from Rust backend!\"}")
}

/// A correct list body for fetched rows: the JSON array of exactly those
/// rows, ordered ascending by id.
pub open spec fn list_body_ok<T: JsonValue + IdRecord>(rows: Seq<T>, body: Seq<char>) -> bool {
    exists|s: Seq<T>|
        sorted_by_id(s) && s.to_multiset() == rows.to_multiset() && body == array_json(s)
}

/// Build one list endpoint's body from its query outcome: on success the
/// rows ordered ascending by id, on failure (`None`) the empty array.
pub fn list_response<T: JsonValue + IdRecord>(rows: Option<Vec<T>>) -> (body: String)
    ensures
        rows is None ==> body@ == "[]"@,
        rows matches Some(v) ==> list_body_ok(v@, body@),
{
    match rows {
        Option::None => String::from_str("[]"),
        Option::Some(v) => {
            let ghost fetched: Seq<T> = v@;
            let sorted = sort_by_id(v);
            let body = array_json_body(&sorted);
            proof {
                assert(sorted_by_id(sorted@) && sorted@.to_multiset() == fetched.to_multiset()
                    && body@ == array_json(sorted@));
                assert(list_body_ok(fetched, body@));
            }
            body
        },
    }
}

/// A failed query is indistinguishable from an empty table: the empty
/// table's body is the two-character array `[]`, exactly the fallback body.
pub proof fn lemma_failure_matches_empty<T: JsonValue + IdRecord>()
    ensures
        array_json::<T>(Seq::<T>::empty()) == "[]"@,
        sorted_by_id(Seq::<T>::empty()),
        list_body_ok(Seq::<T>::empty(), "[]"@),
{
    lemma_empty_array_json::<T>();
    assert(Seq::<T>::empty().to_multiset() =~= Seq::<T>::empty().to_multiset());
    assert(sorted_by_id(Seq::<T>::empty()) && Seq::<T>::empty().to_multiset() == Seq::<
        T,
    >::empty().to_multiset() && array_json::<T>(Seq::<T>::empty()) == "[]"@);
}

} // verus!
