//! The subscription handler: decode, assemble the record, write it, answer.
//!
//! A request goes `Received -> Decoded -> Persisted -> Responded`, or stops
//! early with a client error when decoding fails, or with a server error
//! when the write fails. [`intake`] takes the first steps and says what to
//! write; [`insert_outcome_response`] answers once the write is done.
use vstd::prelude::*;

use crate::form::{
    field_key, form_media_type, form_of, form_pairs, key_count, last_value, read_form, Field,
    FormError,
};
use crate::http::{Response, STATUS_BAD_REQUEST, STATUS_INTERNAL_SERVER_ERROR, STATUS_OK};
use crate::store::{has_id, StoreError, SubscriberTable};
use crate::text::eq_ignoring_ascii_case;
use crate::subscriber::{fresh_id, new_subscriber, now_micros, Subscriber, SubscriberRecord};

verus! {

/// What a subscription request needs after decoding.
pub enum Intake {
    /// Write this record, then answer by the outcome.
    Insert(Subscriber),
    /// Answer at once; nothing is written.
    Respond(Response),
}

/// The answer to a body that is not a subscription form: a client error.
pub fn rejection_response(e: FormError) -> (r: Response)
    ensures
        r.status == STATUS_BAD_REQUEST,
        r.body@.len() == 0,
{
    Response::empty(STATUS_BAD_REQUEST)
}

/// The answer once the write has been tried: success, or a server error for
/// any failure of the store, whatever its cause.
pub fn insert_outcome_response(outcome: &Result<(), StoreError>) -> (r: Response)
    ensures
        r.status == (if outcome is Ok { STATUS_OK } else { STATUS_INTERNAL_SERVER_ERROR }),
        r.body@.len() == 0,
{
    match outcome {
        Ok(()) => Response::empty(STATUS_OK),
        Err(_) => Response::empty(STATUS_INTERNAL_SERVER_ERROR),
    }
}

/// The submission a request carries, given its media type and raw body.
pub open spec fn submission_of(media_type: Seq<char>, body: Seq<u8>) -> Result<
    (Seq<char>, Seq<char>),
    FormError,
> {
    form_of(eq_ignoring_ascii_case(media_type, form_media_type()), form_pairs(body))
}

/// Decodes a request; on success assembles the record to write, under a
/// fresh random identifier and the current time. On failure nothing is
/// generated and the answer is a client error.
pub fn intake(media_type: &str, body: &[u8]) -> (r: Intake)
    ensures
        match submission_of(media_type@, body@) {
            Ok((email, name)) => r is Insert && r->Insert_0@.email == email
                && r->Insert_0@.name == name && r->Insert_0@.wf()
                && crate::subscriber::is_random_uuid(r->Insert_0.id),
            Err(_) => r is Respond && r->Respond_0.status == STATUS_BAD_REQUEST
                && r->Respond_0.body@.len() == 0,
        },
{
    match read_form(media_type, body) {
        Err(e) => Intake::Respond(rejection_response(e)),
        Ok(form) => {
            let id = fresh_id();
            let now = now_micros();
            Intake::Insert(new_subscriber(form, id, now))
        },
    }
}

/// The status and the table after a submission whose record gets the
/// identifier `id` and the timestamp `at`.
pub open spec fn subscription_effect(
    rows: Seq<SubscriberRecord>,
    submission: Result<(Seq<char>, Seq<char>), FormError>,
    id: u128,
    at: i64,
) -> (u16, Seq<SubscriberRecord>) {
    match submission {
        Err(_) => (STATUS_BAD_REQUEST, rows),
        Ok((email, name)) => if has_id(rows, id) {
            (STATUS_INTERNAL_SERVER_ERROR, rows)
        } else {
            (
                STATUS_OK,
                rows.push(SubscriberRecord { id, email, name, subscribed_at: at }),
            )
        },
    }
}

/// Handles a subscription request against a table: decodes it, writes one
/// record under a fresh identifier, and answers by the outcome.
pub fn subscribe(store: &mut SubscriberTable, media_type: &str, body: &[u8]) -> (r: Response)
    requires
        old(store).wf(),
    ensures
        final(store).wf(),
        r.body@.len() == 0,
        submission_of(media_type@, body@) is Err ==> r.status == STATUS_BAD_REQUEST
            && final(store)@ == old(store)@,
        submission_of(media_type@, body@) is Ok ==> exists|id: u128, at: i64|
            (r.status, final(store)@) == #[trigger] subscription_effect(
                old(store)@,
                submission_of(media_type@, body@),
                id,
                at,
            ),
{
    match intake(media_type, body) {
        Intake::Respond(r) => r,
        Intake::Insert(s) => {
            let ghost id = s.id;
            let ghost at = s.subscribed_at;
            let outcome = store.insert(s);
            let r = insert_outcome_response(&outcome);
            assert((r.status, final(store)@) == subscription_effect(
                old(store)@,
                submission_of(media_type@, body@),
                id,
                at,
            ));
            r
        },
    }
}

/// A well-formed submission, whose body carries `email` and `name` once each
/// with non-empty values, is answered with success when its identifier is not
/// stored yet, and adds exactly one record, which holds those values, that
/// identifier and that timestamp.
pub proof fn lemma_valid_submission_adds_one_record(
    rows: Seq<SubscriberRecord>,
    pairs: Seq<(Seq<char>, Seq<char>)>,
    id: u128,
    at: i64,
)
    requires
        key_count(pairs, field_key(Field::Email)) == 1,
        key_count(pairs, field_key(Field::Name)) == 1,
        last_value(pairs, field_key(Field::Email)).len() > 0,
        last_value(pairs, field_key(Field::Name)).len() > 0,
        !has_id(rows, id),
    ensures
        ({
            let email = last_value(pairs, field_key(Field::Email));
            let name = last_value(pairs, field_key(Field::Name));
            let (status, after) = subscription_effect(rows, form_of(true, pairs), id, at);
            &&& form_of(true, pairs) == Ok::<(Seq<char>, Seq<char>), FormError>((email, name))
            &&& status == STATUS_OK
            &&& after.len() == rows.len() + 1
            &&& after.take(rows.len() as int) == rows
            &&& after.last() == (SubscriberRecord { id, email, name, subscribed_at: at })
        }),
{
    let email = last_value(pairs, field_key(Field::Email));
    let name = last_value(pairs, field_key(Field::Name));
    let after = rows.push(SubscriberRecord { id, email, name, subscribed_at: at });
    assert(after.take(rows.len() as int) =~= rows);
}

/// A submission whose body lacks the `name` field, the `email` field, or
/// both, is a client error and leaves the table as it was, whatever
/// identifier and time it would have been given.
pub proof fn lemma_missing_field_is_rejected(
    rows: Seq<SubscriberRecord>,
    media_ok: bool,
    pairs: Seq<(Seq<char>, Seq<char>)>,
    id: u128,
    at: i64,
)
    requires
        key_count(pairs, field_key(Field::Email)) == 0 || key_count(pairs, field_key(Field::Name))
            == 0,
    ensures
        form_of(media_ok, pairs) is Err,
        subscription_effect(rows, form_of(media_ok, pairs), id, at) == (STATUS_BAD_REQUEST, rows),
{
}

/// Two submissions of the same name and email are both stored, as two
/// records with different identifiers: nothing is deduplicated. Whenever
/// both writes succeed, the identifiers differ.
pub proof fn lemma_repeated_submission_stores_twice(
    rows: Seq<SubscriberRecord>,
    email: Seq<char>,
    name: Seq<char>,
    id1: u128,
    at1: i64,
    id2: u128,
    at2: i64,
)
    ensures
        ({
            let (s1, mid) = subscription_effect(rows, Ok((email, name)), id1, at1);
            let (s2, after) = subscription_effect(mid, Ok((email, name)), id2, at2);
            &&& (!has_id(rows, id1) && !has_id(rows, id2) && id1 != id2) ==> (s1 == STATUS_OK
                && s2 == STATUS_OK && after.len() == rows.len() + 2)
            &&& (s1 == STATUS_OK && s2 == STATUS_OK) ==> (id1 != id2 && after.len() == rows.len()
                + 2 && after[rows.len() as int].email == email && after[rows.len() + 1int].email
                == email && after[rows.len() as int].name == name && after[rows.len() + 1int].name
                == name && after[rows.len() as int].id != after[rows.len() + 1int].id)
        }),
{
    let r1 = SubscriberRecord { id: id1, email, name, subscribed_at: at1 };
    let mid = rows.push(r1);
    if !has_id(rows, id1) {
        assert(mid[rows.len() as int].id == id1);
        if !has_id(rows, id2) && id1 != id2 {
            assert forall|i: int| 0 <= i < mid.len() implies (#[trigger] mid[i]).id != id2 by {
                if i < rows.len() {
                    assert(mid[i] == rows[i]);
                }
            }
        }
    }
}

} // verus!
