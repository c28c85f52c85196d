use crate::domain::error::ValidationError;
use crate::domain::new_subscriber::NewSubscriber;
use crate::domain::subscriber_email::{valid_email, SubscriberEmail};
use crate::domain::subscriber_name::{valid_name, SubscriberName};
use vstd::prelude::*;
use vstd::std_specs::convert::TryFromSpecImpl;

verus! {

/// The fields of a subscription request, as submitted and not yet looked at.
#[derive(Debug)]
pub struct FormData {
    pub email: String,
    pub name: String,
}

impl FormData {
    /// The form with these fields, where both were submitted. Both are required.
    pub fn from_fields(name: Option<String>, email: Option<String>) -> (form: Option<FormData>)
        ensures
            form is Some <==> name is Some && email is Some,
            form matches Some(f) ==> f.name == name->0 && f.email == email->0,
    {
        match (name, email) {
            (Some(name), Some(email)) => Some(FormData { email, name }),
            _ => None,
        }
    }
}

impl TryFrom<FormData> for NewSubscriber {
    type Error = ValidationError;

    /// Validates both fields, the name first, and stops at the first fault. A form whose
    /// fields are both well-formed becomes a subscriber that holds their texts unchanged.
    fn try_from(value: FormData) -> (res: Result<Self, ValidationError>)
        ensures
            !valid_name(value.name@) ==> res == Err::<NewSubscriber, ValidationError>(
                ValidationError::InvalidName,
            ),
            valid_name(value.name@) && !valid_email(value.email@) ==> res == Err::<
                NewSubscriber,
                ValidationError,
            >(ValidationError::InvalidEmail),
            valid_name(value.name@) && valid_email(value.email@) ==> res is Ok && res->Ok_0.name@
                == value.name@ && res->Ok_0.email@ == value.email@,
    {
        let name = match SubscriberName::parse(value.name) {
            Ok(name) => name,
            Err(fault) => {
                return Err(fault);
            },
        };
        let email = match SubscriberEmail::parse(value.email) {
            Ok(email) => email,
            Err(fault) => {
                return Err(fault);
            },
        };
        Ok(NewSubscriber { email, name })
    }
}

impl TryFromSpecImpl<FormData> for NewSubscriber {
    open spec fn obeys_try_from_spec() -> bool {
        true
    }

    open spec fn try_from_spec(v: FormData) -> Result<Self, ValidationError> {
        if !valid_name(v.name@) {
            Err(ValidationError::InvalidName)
        } else if !valid_email(v.email@) {
            Err(ValidationError::InvalidEmail)
        } else {
            Ok(
                NewSubscriber {
                    email: SubscriberEmail::of_text(v.email),
                    name: SubscriberName::of_text(v.name),
                },
            )
        }
    }
}

/// A point in time: whole seconds since the Unix epoch, in UTC, and the nanoseconds past
/// the last of them.
#[derive(Clone, Copy, Debug, PartialEq, Eq, Structural)]
pub struct Timestamp {
    pub seconds: i64,
    pub nanoseconds: u32,
}

/// Whether `id`, read as the sixteen bytes of a UUID with the first byte on top, is marked
/// as a random one: version 4, in the variant of RFC 4122.
pub open spec fn is_random_uuid(id: u128) -> bool {
    id & 0x0000_0000_0000_f000_c000_0000_0000_0000u128
        == 0x0000_0000_0000_4000_8000_0000_0000_0000u128
}

/// Draws a fresh identifier with `uuid::Uuid::new_v4` and hands it on as the number that
/// `uuid::Uuid::as_u128` gives for it. The bits come from the system's random source, so
/// the contract claims only the version and variant marks that `new_v4` sets on every
/// identifier it returns. Where the system yields no random bytes, `new_v4` panics.
#[verifier::external_body]
fn fresh_id() -> (id: u128)
    ensures
        is_random_uuid(id),
{
    uuid::Uuid::new_v4().as_u128()
}

/// Reads the clock with `chrono::Utc::now` and hands the reading on as the two numbers
/// that `timestamp` and `timestamp_subsec_nanos` give for it. The contract claims only
/// that the nanoseconds stay under one second: `now` takes them from the fraction of a
/// reading of the system clock. Where that clock stands before the epoch, `now` panics.
#[verifier::external_body]
fn current_time() -> (now: Timestamp)
    ensures
        now.nanoseconds < 1_000_000_000,
{
    let now = chrono::Utc::now();
    Timestamp { seconds: now.timestamp(), nanoseconds: now.timestamp_subsec_nanos() }
}

/// One row of the `subscriptions` table, as handed to the store.
#[derive(Clone, Debug, PartialEq, Eq)]
pub struct StoredSubscription {
    pub id: u128,
    pub email: String,
    pub name: String,
    pub subscribed_at: Timestamp,
}

impl StoredSubscription {
    /// The row for `subscriber` under the identifier `id`, subscribed at `subscribed_at`.
    pub fn new(id: u128, subscriber: &NewSubscriber, subscribed_at: Timestamp) -> (record: Self)
        ensures
            record.id == id,
            record.email@ == subscriber.email@,
            record.name@ == subscriber.name@,
            record.subscribed_at == subscribed_at,
    {
        StoredSubscription {
            id,
            email: subscriber.email.as_ref().to_owned(),
            name: subscriber.name.as_ref().to_owned(),
            subscribed_at,
        }
    }

    /// The row for `subscriber` under a fresh random identifier, subscribed now. No two
    /// calls need agree on the identifier or the time; the texts are the subscriber's.
    pub fn issue(subscriber: &NewSubscriber) -> (record: Self)
        ensures
            is_random_uuid(record.id),
            record.email@ == subscriber.email@,
            record.name@ == subscriber.name@,
            record.subscribed_at.nanoseconds < 1_000_000_000,
    {
        let id = fresh_id();
        let now = current_time();
        StoredSubscription::new(id, subscriber, now)
    }
}

/// Why the store did not take a row.
#[derive(Clone, Copy, Debug, PartialEq, Eq, Structural)]
pub enum PersistenceError {
    /// The store could not be reached.
    Unreachable,
    /// The row broke a constraint of the table.
    ConstraintViolation,
    /// The driver failed in some other way.
    Driver,
}

/// How a request ends, as far as the client sees it. The body is empty in every case.
#[derive(Clone, Copy, Debug, PartialEq, Eq, Structural)]
pub enum HttpOutcome {
    /// The subscription was stored.
    Success,
    /// The request was turned away for its form.
    BadRequest,
    /// The store did not take the row.
    InternalError,
}

impl HttpOutcome {
    pub open spec fn code(self) -> int {
        match self {
            HttpOutcome::Success => 200,
            HttpOutcome::BadRequest => 400,
            HttpOutcome::InternalError => 500,
        }
    }

    /// The HTTP status that stands for this outcome.
    pub fn status(&self) -> (code: u16)
        ensures
            code == self.code(),
    {
        match self {
            HttpOutcome::Success => 200,
            HttpOutcome::BadRequest => 400,
            HttpOutcome::InternalError => 500,
        }
    }
}

/// What the handler asks of its caller once it has looked at a request.
#[derive(Debug, PartialEq, Eq)]
pub enum Step {
    /// Hand this row to the store, once, then `conclude` with the store's answer.
    Persist(StoredSubscription),
    /// Answer the client; nothing is to be stored.
    Respond(HttpOutcome),
}

/// Whether a request goes through to the store: its body was decoded into both fields,
/// and both are well-formed.
pub open spec fn admits(form: Option<FormData>) -> bool {
    form matches Some(f) && valid_name(f.name@) && valid_email(f.email@)
}

/// The first half of the handler: looks at the request and says what is to be done.
/// `form` is `None` where the body could not be decoded into both fields. A request that
/// is not admitted is answered at once as a bad request, and no row is made for it. An
/// admitted one is to be stored, under a fresh identifier and the present time, with the
/// texts that were submitted; whether the same texts were stored before plays no part.
pub fn subscribe(form: Option<FormData>) -> (step: Step)
    ensures
        admits(form) ==> (step matches Step::Persist(record) && is_random_uuid(record.id)
            && record.email@ == form->0.email@ && record.name@ == form->0.name@
            && record.subscribed_at.nanoseconds < 1_000_000_000),
        !admits(form) ==> step == Step::Respond(HttpOutcome::BadRequest),
{
    let form = match form {
        Some(form) => form,
        None => {
            return Step::Respond(HttpOutcome::BadRequest);
        },
    };
    match NewSubscriber::try_from(form) {
        Ok(subscriber) => Step::Persist(StoredSubscription::issue(&subscriber)),
        Err(_) => Step::Respond(HttpOutcome::BadRequest),
    }
}

/// The second half of the handler: turns the store's answer to the one attempt to insert
/// into the answer to the client. Any failure of the store ends the request as an
/// internal error; there is no second attempt.
pub fn conclude(persisted: Result<(), PersistenceError>) -> (outcome: HttpOutcome)
    ensures
        persisted is Ok ==> outcome == HttpOutcome::Success,
        persisted is Err ==> outcome == HttpOutcome::InternalError,
{
    match persisted {
        Ok(_) => HttpOutcome::Success,
        Err(_) => HttpOutcome::InternalError,
    }
}

} // verus!
