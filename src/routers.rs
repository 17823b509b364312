//! What the two routes decide: the health check always answers 200 with an
//! empty body; a subscription is refused with 400 unless both fields are
//! present, and is otherwise stored as one new record, after which the
//! outcome of the insert decides between 200 and 500.
use vstd::prelude::*;
use crate::text::opt_text;

verus! {

/// The status of a successful request.
pub const STATUS_OK: u16 = 200;

/// The status of a request whose form lacks a field.
pub const STATUS_BAD_REQUEST: u16 = 400;

/// The status of a request that failed on storage.
pub const STATUS_INTERNAL_SERVER_ERROR: u16 = 500;

/// An HTTP response: its status and its body.
pub struct Reply {
    pub status: u16,
    pub body: Vec<u8>,
}

/// The fields of the subscription form.
pub struct FormData {
    pub name: String,
    pub email: String,
}

/// One record of the subscriptions table.
pub struct Subscription {
    pub id: u128,
    pub email: String,
    pub name: String,
    /// Microseconds since the Unix epoch, in UTC.
    pub subscribed_at: i64,
}

/// What the subscription route does next: answer at once, or store a
/// record and answer after.
pub enum SubscribeStep {
    Respond(Reply),
    Insert(Subscription),
}

/// A record of the subscriptions table, as values.
pub struct SubscriptionView {
    pub id: u128,
    pub email: Seq<char>,
    pub name: Seq<char>,
    pub subscribed_at: i64,
}

/// The next step of the subscription route, as values: an answer with its
/// status, or the records to store.
pub enum StepView {
    Respond(u16),
    Insert(Seq<SubscriptionView>),
}

impl View for Subscription {
    type V = SubscriptionView;

    open spec fn view(&self) -> SubscriptionView {
        SubscriptionView {
            id: self.id,
            email: self.email@,
            name: self.name@,
            subscribed_at: self.subscribed_at,
        }
    }
}

impl View for SubscribeStep {
    type V = StepView;

    open spec fn view(&self) -> StepView {
        match self {
            SubscribeStep::Respond(r) => StepView::Respond(r.status),
            SubscribeStep::Insert(s) => StepView::Insert(seq![s@]),
        }
    }
}

/// Whether `id` is laid out as a random (version 4, RFC 4122 variant) UUID.
pub open spec fn is_random_uuid(id: u128) -> bool {
    (id >> 76u128) & 0xfu128 == 4 && (id >> 62u128) & 3u128 == 2
}

/// The step that a form with these fields leads to, given the identifier
/// and time that a stored record gets.
pub open spec fn subscribe_step(
    name: Option<Seq<char>>,
    email: Option<Seq<char>>,
    id: u128,
    at: i64,
) -> StepView {
    match (name, email) {
        (Some(n), Some(e)) => StepView::Insert(
            seq![SubscriptionView { id: id, email: e, name: n, subscribed_at: at }],
        ),
        _ => StepView::Respond(STATUS_BAD_REQUEST),
    }
}

/// The status that answers a subscription once its insert has run.
pub open spec fn status_after_insert(inserted: bool) -> u16 {
    if inserted {
        STATUS_OK
    } else {
        STATUS_INTERNAL_SERVER_ERROR
    }
}

/// Relies on uuid's `Uuid::new_v4` and `Uuid::as_u128`: a random UUID, with
/// its version and variant bits set.
#[verifier::external_body]
fn fresh_id() -> (r: u128)
    ensures
        is_random_uuid(r),
{
    uuid::Uuid::new_v4().as_u128()
}

/// Relies on chrono's `Utc::now` and `DateTime::timestamp_micros`: the
/// current time, which `Utc::now` reads as a duration since the Unix epoch,
/// so it is never before it.
#[verifier::external_body]
fn now_micros() -> (r: i64)
    ensures
        r >= 0,
{
    chrono::Utc::now().timestamp_micros()
}

/// The answer to a health check.
pub fn health_check() -> (r: Reply)
    ensures
        r.status == STATUS_OK,
        r.body@.len() == 0,
{
    Reply { status: STATUS_OK, body: Vec::new() }
}

/// The form, if both of its fields are present; else the 400 answer.
pub fn read_form(name: Option<String>, email: Option<String>) -> (r: Result<FormData, Reply>)
    ensures
        match r {
            Ok(f) => name == Some(f.name) && email == Some(f.email),
            Err(reply) => (name.is_none() || email.is_none()) && reply.status == STATUS_BAD_REQUEST
                && reply.body@.len() == 0,
        },
{
    match (name, email) {
        (Some(name), Some(email)) => Ok(FormData { name, email }),
        _ => Err(Reply { status: STATUS_BAD_REQUEST, body: Vec::new() }),
    }
}

/// The next step of the subscription route for a form with these fields,
/// where a stored record gets identifier `id` and time `at`.
pub fn subscribe_with(name: Option<String>, email: Option<String>, id: u128, at: i64) -> (r:
    SubscribeStep)
    ensures
        r@ == subscribe_step(opt_text(name), opt_text(email), id, at),
        r is Respond ==> r->Respond_0.body@.len() == 0,
{
    match read_form(name, email) {
        Ok(form) => SubscribeStep::Insert(
            Subscription { id, email: form.email, name: form.name, subscribed_at: at },
        ),
        Err(reply) => SubscribeStep::Respond(reply),
    }
}

/// The next step of the subscription route for a form with these fields.
/// A stored record gets a fresh random identifier and the current time,
/// which is not before the Unix epoch.
pub fn subscribe(name: Option<String>, email: Option<String>) -> (r: SubscribeStep)
    ensures
        exists|id: u128, at: i64|
            is_random_uuid(id) && at >= 0 && r@ == subscribe_step(opt_text(name), opt_text(email), id, at),
        r is Respond ==> r->Respond_0.body@.len() == 0,
{
    let id = fresh_id();
    let at = now_micros();
    subscribe_with(name, email, id, at)
}

/// The answer to a subscription once its insert has run; the detail of a
/// storage error is not given out.
pub fn reply_after_insert(inserted: bool) -> (r: Reply)
    ensures
        r.status == status_after_insert(inserted),
        r.body@.len() == 0,
{
    if inserted {
        Reply { status: STATUS_OK, body: Vec::new() }
    } else {
        Reply { status: STATUS_INTERNAL_SERVER_ERROR, body: Vec::new() }
    }
}

/// A form with both fields present is answered 200 once its insert
/// succeeds, and leads to exactly one new record, which holds the form's
/// name and email.
pub proof fn lemma_complete_form_stores_one(name: Seq<char>, email: Seq<char>, id: u128, at: i64)
    ensures
        subscribe_step(Some(name), Some(email), id, at) is Insert,
        subscribe_step(Some(name), Some(email), id, at)->Insert_0.len() == 1,
        subscribe_step(Some(name), Some(email), id, at)->Insert_0[0].name == name,
        subscribe_step(Some(name), Some(email), id, at)->Insert_0[0].email == email,
        status_after_insert(true) == 200,
{
}

/// A form that lacks its name, its email, or both, is answered 400 and
/// stores nothing.
pub proof fn lemma_incomplete_form_refused(
    name: Option<Seq<char>>,
    email: Option<Seq<char>>,
    id: u128,
    at: i64,
)
    requires
        name.is_none() || email.is_none(),
    ensures
        subscribe_step(name, email, id, at) == StepView::Respond(400),
{
}

} // verus!
