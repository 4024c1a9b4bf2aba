use vstd::prelude::*;
use vstd::std_specs::convert::TryFromSpec;

use crate::domain::new_subscriber::NewSubscriber;
use crate::domain::subscriber_email::{is_valid_email, SubscriberEmail};
use crate::domain::subscriber_name::{is_valid_name, SubscriberName};
use crate::domain::validation_error::ValidationError;
use crate::routes::outcome::Outcome;

verus! {

/// The two raw, unvalidated strings that a client submitted.
#[derive(Debug)]
pub struct FormData {
    pub email: String,
    pub name: String,
}

impl vstd::std_specs::convert::TryFromSpecImpl<FormData> for NewSubscriber {
    open spec fn obeys_try_from_spec() -> bool {
        true
    }

    /// The name is parsed first, then the address; the first refusal is the
    /// result.
    open spec fn try_from_spec(value: FormData) -> Result<Self, ValidationError> {
        match SubscriberName::spec_parse(value.name) {
            Err(e) => Err(e),
            Ok(name) => match SubscriberEmail::spec_parse(value.email) {
                Err(e) => Err(e),
                Ok(email) => Ok(NewSubscriber { email, name }),
            },
        }
    }
}

impl TryFrom<FormData> for NewSubscriber {
    type Error = ValidationError;

    /// Validates both fields and composes them, or refuses the form.
    fn try_from(value: FormData) -> (result: Result<Self, Self::Error>)
        ensures
            result is Ok <==> is_valid_name(value.name@) && is_valid_email(value.email@),
            result matches Ok(subscriber) ==> subscriber.name@ == value.name@ && subscriber.email@
                == value.email@,
            result matches Err(e) ==> e == if is_valid_name(value.name@) {
                ValidationError::InvalidEmail
            } else {
                ValidationError::InvalidName
            },
    {
        let name = match SubscriberName::parse(value.name) {
            Ok(name) => name,
            Err(e) => {
                return Err(e);
            },
        };
        let email = match SubscriberEmail::parse(value.email) {
            Ok(email) => email,
            Err(e) => {
                return Err(e);
            },
        };
        Ok(NewSubscriber { email, name })
    }
}

/// The conversion succeeds exactly when both fields parse, and fails exactly
/// when one of them does not, whichever it is.
pub proof fn law_conversion_succeeds_iff_both_parse(form: FormData)
    ensures
        NewSubscriber::try_from_spec(form) is Ok <==> SubscriberName::spec_parse(form.name) is Ok
            && SubscriberEmail::spec_parse(form.email) is Ok,
        NewSubscriber::try_from_spec(form) is Err <==> SubscriberName::spec_parse(form.name) is Err
            || SubscriberEmail::spec_parse(form.email) is Err,
{
}

/// The first step of a subscription request: the form is validated. A
/// valid form gives the subscriber to store; an invalid one ends the request
/// as [`Outcome::Rejected`], and nothing is to be stored.
pub fn validate_form(form: FormData) -> (step: Result<NewSubscriber, Outcome>)
    ensures
        step == match NewSubscriber::try_from_spec(form) {
            Ok(subscriber) => Ok::<NewSubscriber, Outcome>(subscriber),
            Err(_) => Err(Outcome::Rejected),
        },
        step is Ok <==> is_valid_name(form.name@) && is_valid_email(form.email@),
        step matches Ok(subscriber) ==> subscriber.name@ == form.name@ && subscriber.email@
            == form.email@,
{
    match NewSubscriber::try_from(form) {
        Ok(subscriber) => Ok(subscriber),
        Err(_) => Err(Outcome::Rejected),
    }
}

/// The last step of a subscription request: what storage reported decides
/// the outcome. The error is not looked into.
pub fn conclude<E>(stored: &Result<(), E>) -> (outcome: Outcome)
    ensures
        outcome == if stored is Ok {
            Outcome::Accepted
        } else {
            Outcome::Failed
        },
{
    match stored {
        Ok(_) => Outcome::Accepted,
        Err(_) => Outcome::Failed,
    }
}

/// A point in time: whole seconds since 1970-01-01 00:00:00 UTC, and the
/// nanoseconds since the last whole second.
#[derive(Clone, Copy, Debug, PartialEq, Eq, Structural)]
pub struct Timestamp {
    pub secs: i64,
    pub nanos: u32,
}

impl Timestamp {
    /// Whether this is a time at or after the epoch, with less than a second
    /// of nanoseconds.
    pub open spec fn is_clock_reading(self) -> bool {
        self.secs >= 0 && self.nanos < 1_000_000_000
    }
}

/// The version field of a UUID given as a 128-bit number.
pub open spec fn uuid_version(id: u128) -> u128 {
    (id >> 76) & 0xf
}

/// The two highest bits of the variant field of a UUID given as a 128-bit
/// number.
pub open spec fn uuid_variant(id: u128) -> u128 {
    (id >> 62) & 0x3
}

/// Whether `id` is laid out as a random (version 4) UUID.
pub open spec fn is_random_uuid(id: u128) -> bool {
    uuid_version(id) == 4 && uuid_variant(id) == 2
}

/// Draws a fresh identifier with `uuid::Uuid::new_v4` and hands it out as a
/// number, most significant byte first. Trusted: the version field is 4 and
/// the variant field starts with the bits 1 and 0, whatever was drawn.
#[verifier::external_body]
fn fresh_id() -> (id: u128)
    ensures
        is_random_uuid(id),
{
    uuid::Uuid::new_v4().as_u128()
}

/// Reads the clock with `chrono::Utc::now`. Trusted: the reading is not
/// before the epoch and its nanoseconds stay under one second.
#[verifier::external_body]
fn utc_now() -> (now: Timestamp)
    ensures
        now.is_clock_reading(),
{
    let now = chrono::Utc::now();
    Timestamp { secs: now.timestamp(), nanos: now.timestamp_subsec_nanos() }
}

/// The row that stands for one subscription in storage.
#[derive(Debug)]
pub struct SubscriptionRecord {
    pub id: u128,
    pub email: String,
    pub name: String,
    pub subscribed_at: Timestamp,
}

impl SubscriptionRecord {
    /// The row for `subscriber` under the given identifier and time. Name
    /// and address are copied as they are.
    pub fn new(subscriber: &NewSubscriber, id: u128, subscribed_at: Timestamp) -> (record: Self)
        ensures
            record.id == id,
            record.email@ == subscriber.email@,
            record.name@ == subscriber.name@,
            record.subscribed_at == subscribed_at,
            is_valid_email(record.email@),
            is_valid_name(record.name@),
    {
        SubscriptionRecord {
            id,
            email: subscriber.email.as_str().to_owned(),
            name: subscriber.name.as_str().to_owned(),
            subscribed_at,
        }
    }

    /// The row to insert for `subscriber`: a freshly drawn random identifier
    /// and the current time are assigned to it.
    pub fn issue(subscriber: &NewSubscriber) -> (record: Self)
        ensures
            is_random_uuid(record.id),
            record.email@ == subscriber.email@,
            record.name@ == subscriber.name@,
            is_valid_email(record.email@),
            is_valid_name(record.name@),
            record.subscribed_at.is_clock_reading(),
    {
        let id = fresh_id();
        let now = utc_now();
        Self::new(subscriber, id, now)
    }
}

} // verus!
