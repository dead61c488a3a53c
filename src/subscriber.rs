//! The subscriber record, and where its identifier and timestamp come from.
use vstd::prelude::*;

use crate::form::FormData;

verus! {

/// A subscriber as it is written to the store.
pub struct Subscriber {
    /// The identifier, as the 128-bit value of a UUID.
    pub id: u128,
    pub email: String,
    pub name: String,
    /// When the record was made, in microseconds since the Unix epoch (UTC).
    pub subscribed_at: i64,
}

/// What a subscriber record holds, as plain values.
pub struct SubscriberRecord {
    pub id: u128,
    pub email: Seq<char>,
    pub name: Seq<char>,
    pub subscribed_at: i64,
}

impl SubscriberRecord {
    /// Both text fields are present.
    pub open spec fn wf(&self) -> bool {
        self.email.len() > 0 && self.name.len() > 0
    }
}

impl View for Subscriber {
    type V = SubscriberRecord;

    open spec fn view(&self) -> SubscriberRecord {
        SubscriberRecord {
            id: self.id,
            email: self.email@,
            name: self.name@,
            subscribed_at: self.subscribed_at,
        }
    }
}

/// Whether a value has the layout of a random (version 4, RFC 4122 variant) UUID.
pub open spec fn is_random_uuid(v: u128) -> bool {
    &&& (v >> 76u128) & 0xfu128 == 4u128
    &&& (v >> 62u128) & 3u128 == 2u128
}

/// Relies on `uuid::Uuid::new_v4` (with `Uuid::as_u128`): a random UUID whose
/// version field is 4 and whose variant bits are `10`.
#[verifier::external_body]
pub(crate) fn fresh_id() -> (r: u128)
    ensures
        is_random_uuid(r),
{
    uuid::Uuid::new_v4().as_u128()
}

/// Relies on `chrono::Utc::now` (with `DateTime::timestamp_micros`): the clock's
/// current UTC time in microseconds since the Unix epoch. Nothing is promised
/// of the value.
#[verifier::external_body]
pub(crate) fn now_micros() -> (r: i64) {
    chrono::Utc::now().timestamp_micros()
}

/// Assembles the record of a decoded submission, with the identifier and the
/// timestamp it is to be stored under.
pub fn new_subscriber(form: FormData, id: u128, subscribed_at: i64) -> (s: Subscriber)
    requires
        form.wf(),
    ensures
        s@ == (SubscriberRecord { id, email: form.email@, name: form.name@, subscribed_at }),
        s@.wf(),
{
    Subscriber { id, email: form.email, name: form.name, subscribed_at }
}

} // verus!
