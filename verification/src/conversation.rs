//! The caching payment service as a conversation with the store. A request
//! is started; as long as the service needs the store it names the command
//! to perform and what it is waiting for; the caller performs the command
//! and resumes the conversation with what the store answered, until the
//! service finishes with its reply.

use vstd::prelude::*;
use vstd::string::*;
use crate::aggregate::payment_views;
use crate::cache::{served, CachedPaymentView, Lookup, PaymentCache};
use crate::error::{
    connection_failed, convert_failure, converted, converted_for, OptimizedPaymentError,
    OptimizedPaymentErrorView, StoreFailure, StoreFailureView,
};
use crate::grouping::{grouped, rows_decode};
use crate::ident::fresh_uuid;
use crate::model::{Payment, PaymentStatus, PaymentView, Timestamp};
use crate::repository::{
    batch_query, by_id, create_plan, delete_plan, filter_value, filter_values, filtered_query,
    insert_installment, status_plan, update_payment, OptimizedPembayaranRepository, SELECT_JOINED,
    WHERE_ONE,
};
use crate::rows::{row_views, JoinedRow};
use crate::service::{
    amount_rejected, cache_after, loaded_payment, new_installment_view, not_installment, snapshot,
    ListStep, OptimizedPaymentService, UpdateDecision,
};
use crate::sql::{statement_views, Statement, StatementView};
use crate::text::text_views;
use crate::text_map::TextMap;
use crate::time::now;
use crate::validation::{
    filter_violations, logically_equal, valid, validation_error, violations,
};

verus! {

/// What a caller may ask of the service.
pub enum Request {
    Create(Payment),
    Get(String),
    List(Option<TextMap<String>>),
    Update(Payment),
    ChangeStatus { payment_id: String, new_status: PaymentStatus, additional_amount: Option<i64> },
    Delete(String),
    AddInstallment { payment_id: String, amount: i64 },
}

/// What the service asks the caller to do with the store.
#[derive(Debug, PartialEq, Eq)]
pub enum Command {
    /// Run the statements in one transaction: all take effect, or none.
    Write(Vec<Statement>),
    /// Run the joined query and hand back its rows.
    Load(Statement),
    /// Run the selection and hand back the ids of the payments it finds.
    Select { query: String, values: Vec<String> },
}

/// A command, as plain values.
pub enum CommandView {
    Write(Seq<StatementView>),
    Load(StatementView),
    Select { query: Seq<char>, values: Seq<Seq<char>> },
}

impl View for Command {
    type V = CommandView;

    open spec fn view(&self) -> CommandView {
        match self {
            Command::Write(s) => CommandView::Write(statement_views(s@)),
            Command::Load(q) => CommandView::Load(q@),
            Command::Select { query, values } => CommandView::Select {
                query: query@,
                values: text_views(values@),
            },
        }
    }
}

/// What the store answered to a command.
#[derive(Debug, PartialEq, Eq)]
pub enum Event {
    /// The transaction was committed.
    Written,
    /// The rows of a joined query.
    Rows(Vec<JoinedRow>),
    /// The ids that a selection found, in the order of its rows.
    Ids(Vec<String>),
    /// The store failed.
    Failed(StoreFailure),
    /// No connection to the store could be had, for the reason given.
    Unavailable(String),
}

/// The service's answer to a request that succeeded.
#[derive(Debug, PartialEq, Eq)]
pub enum Reply {
    One(Payment),
    Many(Vec<Payment>),
    Done,
}

/// A reply, as plain values.
pub enum ReplyView {
    One(PaymentView),
    Many(Seq<PaymentView>),
    Done,
}

impl View for Reply {
    type V = ReplyView;

    open spec fn view(&self) -> ReplyView {
        match self {
            Reply::One(p) => ReplyView::One(p@),
            Reply::Many(list) => ReplyView::Many(payment_views(list@)),
            Reply::Done => ReplyView::Done,
        }
    }
}

/// Why a payment is being fetched.
#[derive(Debug, PartialEq, Eq)]
pub enum Purpose {
    /// To return it.
    Read,
    /// To update it to the payment given.
    Update(Payment),
    /// To delete it.
    Delete,
    /// To add an installment of the amount given.
    AddInstallment(i64),
}

/// A purpose, as plain values.
pub enum PurposeView {
    Read,
    Update(PaymentView),
    Delete,
    AddInstallment(int),
}

impl View for Purpose {
    type V = PurposeView;

    open spec fn view(&self) -> PurposeView {
        match self {
            Purpose::Read => PurposeView::Read,
            Purpose::Update(p) => PurposeView::Update(p@),
            Purpose::Delete => PurposeView::Delete,
            Purpose::AddInstallment(a) => PurposeView::AddInstallment(*a as int),
        }
    }
}

/// What a conversation is waiting for.
#[derive(Debug, PartialEq, Eq)]
pub enum Pending {
    /// The transaction that creates the payment with this id.
    Creating { id: String },
    /// The rows of the payment that was created.
    Created,
    /// The rows of the payment with this id, fetched for a purpose.
    Fetching { id: String, purpose: Purpose },
    /// The ids that match a filter.
    Selecting,
    /// The rows of the payments that match a filter.
    Listing,
    /// The transaction that updates the payment with this id.
    Updating { id: String },
    /// The rows of the payment that was updated.
    Updated { id: String },
    /// The transaction that changes the status of the payment with this id.
    ChangingStatus { id: String },
    /// The rows of the payment whose status was changed.
    StatusChanged { id: String },
    /// The transaction that deletes the payment with this id.
    Deleting { id: String },
    /// The transaction that adds an installment to the payment with this id.
    Adding { id: String },
}

/// What a conversation is waiting for, as plain values.
pub enum PendingView {
    Creating { id: Seq<char> },
    Created,
    Fetching { id: Seq<char>, purpose: PurposeView },
    Selecting,
    Listing,
    Updating { id: Seq<char> },
    Updated { id: Seq<char> },
    ChangingStatus { id: Seq<char> },
    StatusChanged { id: Seq<char> },
    Deleting { id: Seq<char> },
    Adding { id: Seq<char> },
}

impl View for Pending {
    type V = PendingView;

    open spec fn view(&self) -> PendingView {
        match self {
            Pending::Creating { id } => PendingView::Creating { id: id@ },
            Pending::Created => PendingView::Created,
            Pending::Fetching { id, purpose } => PendingView::Fetching { id: id@, purpose: purpose@ },
            Pending::Selecting => PendingView::Selecting,
            Pending::Listing => PendingView::Listing,
            Pending::Updating { id } => PendingView::Updating { id: id@ },
            Pending::Updated { id } => PendingView::Updated { id: id@ },
            Pending::ChangingStatus { id } => PendingView::ChangingStatus { id: id@ },
            Pending::StatusChanged { id } => PendingView::StatusChanged { id: id@ },
            Pending::Deleting { id } => PendingView::Deleting { id: id@ },
            Pending::Adding { id } => PendingView::Adding { id: id@ },
        }
    }
}

/// The service's move: a command for the store with what the conversation
/// then waits for, or the end of the conversation.
#[derive(Debug, PartialEq, Eq)]
pub enum Turn {
    Perform(Command, Pending),
    Finish(Result<Reply, OptimizedPaymentError>),
}

/// A move, as plain values.
pub enum TurnView {
    Perform(CommandView, PendingView),
    Finish(Result<ReplyView, OptimizedPaymentErrorView>),
}

impl View for Turn {
    type V = TurnView;

    open spec fn view(&self) -> TurnView {
        match self {
            Turn::Perform(c, p) => TurnView::Perform(c@, p@),
            Turn::Finish(Ok(r)) => TurnView::Finish(Ok(r@)),
            Turn::Finish(Err(e)) => TurnView::Finish(Err(e@)),
        }
    }
}

/// A move together with the cache that it leaves.
pub struct Outcome {
    pub turn: TurnView,
    pub cache: Map<Seq<char>, CachedPaymentView>,
}

/// The end of a conversation with an error.
pub open spec fn refused(e: OptimizedPaymentErrorView) -> TurnView {
    TurnView::Finish(Err(e))
}

/// The end of a conversation with one payment.
pub open spec fn answered(p: PaymentView) -> TurnView {
    TurnView::Finish(Ok(ReplyView::One(p)))
}

/// The command that loads one payment, with what is then waited for.
pub open spec fn load_one(id: Seq<char>, then: PendingView) -> TurnView {
    TurnView::Perform(CommandView::Load(by_id(SELECT_JOINED@ + WHERE_ONE@, id)), then)
}

/// The error for an answer of the store that was not waited for.
pub open spec fn out_of_turn() -> OptimizedPaymentErrorView {
    OptimizedPaymentErrorView::DatabaseError { message: "unexpected answer from the store"@, code: None }
}

/// The error for a connection that could not be had.
pub open spec fn unavailable(reason: Seq<char>) -> OptimizedPaymentErrorView {
    OptimizedPaymentErrorView::ConnectionError {
        message: "Failed to acquire database connection: "@ + reason,
    }
}

/// What follows once the payment that was fetched for a purpose is known.
/// A read returns it. An update of a payment with any violation is
/// rejected; one that changes nothing the store keeps returns the stored
/// payment and writes nothing; any other rewrites the row. A deletion
/// deletes. An installment is added only with a positive amount and only
/// to a payment that is paid in installments.
pub open spec fn continued(
    purpose: PurposeView,
    id: Seq<char>,
    existing: PaymentView,
    at: Timestamp,
    unique: Seq<char>,
) -> TurnView {
    match purpose {
        PurposeView::Read => answered(existing),
        PurposeView::Update(payment) => if !valid(payment) {
            refused(validation_error(violations(payment)))
        } else if logically_equal(existing, payment) {
            answered(existing)
        } else {
            TurnView::Perform(
                CommandView::Write(seq![update_payment(payment)]),
                PendingView::Updating { id: payment.id },
            )
        },
        PurposeView::Delete => TurnView::Perform(
            CommandView::Write(delete_plan(existing.id)),
            PendingView::Deleting { id },
        ),
        PurposeView::AddInstallment(amount) => if amount <= 0 {
            refused(amount_rejected("amount"@))
        } else if existing.status != PaymentStatus::Installment {
            refused(not_installment())
        } else {
            TurnView::Perform(
                CommandView::Write(seq![insert_installment(new_installment_view(unique, id, amount, at))]),
                PendingView::Adding { id },
            )
        },
    }
}

/// How a payment is fetched: the cache serves it where it holds a fresh
/// snapshot; otherwise it is loaded from the store.
pub open spec fn fetched(
    cache: Map<Seq<char>, CachedPaymentView>,
    id: Seq<char>,
    purpose: PurposeView,
    at: Timestamp,
    unique: Seq<char>,
) -> TurnView {
    match served(cache, id, at) {
        Some(p) => continued(purpose, id, p, at, unique),
        None => load_one(id, PendingView::Fetching { id, purpose }),
    }
}

/// The violations of a filter, where there is one.
pub open spec fn filter_faults(filters: Option<TextMap<String>>) -> Seq<Seq<char>> {
    match filters {
        Some(f) => filter_violations(f.keys(), text_views(f.values()), f.keys().len()),
        None => Seq::empty(),
    }
}

/// The service's first move on a request. Whatever fails validation is
/// rejected before the store is asked anything.
pub open spec fn started(
    cache: Map<Seq<char>, CachedPaymentView>,
    request: Request,
    at: Timestamp,
    unique: Seq<char>,
) -> TurnView {
    match request {
        Request::Create(p) => if !valid(p@) {
            refused(validation_error(violations(p@)))
        } else {
            TurnView::Perform(CommandView::Write(create_plan(p@)), PendingView::Creating { id: p@.id })
        },
        Request::Get(id) => fetched(cache, id@, PurposeView::Read, at, unique),
        Request::List(filters) => if filter_faults(filters).len() > 0 {
            refused(validation_error(filter_faults(filters)))
        } else {
            TurnView::Perform(
                CommandView::Select {
                    query: filtered_query(
                        filter_value(filters, "status"@),
                        filter_value(filters, "method"@),
                        filter_value(filters, "transaction_id"@),
                    ),
                    values: filter_values(
                        filter_value(filters, "status"@),
                        filter_value(filters, "method"@),
                        filter_value(filters, "transaction_id"@),
                    ),
                },
                PendingView::Selecting,
            )
        },
        Request::Update(p) => if !valid(p@) {
            refused(validation_error(violations(p@)))
        } else {
            fetched(cache, p@.id, PurposeView::Update(p@), at, unique)
        },
        Request::ChangeStatus { payment_id, new_status, additional_amount } => match additional_amount {
            Some(a) => if a <= 0 {
                refused(amount_rejected("additional_amount"@))
            } else {
                TurnView::Perform(
                    CommandView::Write(
                        status_plan(
                            payment_id@,
                            new_status,
                            Some(new_installment_view(unique, payment_id@, a as int, at)),
                        ),
                    ),
                    PendingView::ChangingStatus { id: payment_id@ },
                )
            },
            None => TurnView::Perform(
                CommandView::Write(status_plan(payment_id@, new_status, None)),
                PendingView::ChangingStatus { id: payment_id@ },
            ),
        },
        Request::Delete(id) => fetched(cache, id@, PurposeView::Delete, at, unique),
        Request::AddInstallment { payment_id, amount } => if amount <= 0 {
            refused(amount_rejected("amount"@))
        } else {
            fetched(cache, payment_id@, PurposeView::AddInstallment(amount as int), at, unique)
        },
    }
}

/// The service's move once a transaction was committed. After a deletion
/// or a new installment the cache holds nothing under the id.
pub open spec fn after_write(cache: Map<Seq<char>, CachedPaymentView>, pending: PendingView) -> Outcome {
    match pending {
        PendingView::Creating { id } => Outcome { turn: load_one(id, PendingView::Created), cache },
        PendingView::Updating { id } => Outcome { turn: load_one(id, PendingView::Updated { id }), cache },
        PendingView::ChangingStatus { id } => Outcome {
            turn: load_one(id, PendingView::StatusChanged { id }),
            cache,
        },
        PendingView::Deleting { id } => Outcome {
            turn: TurnView::Finish(Ok(ReplyView::Done)),
            cache: cache.remove(id),
        },
        PendingView::Adding { id } => Outcome {
            turn: load_one(id, PendingView::Fetching { id, purpose: PurposeView::Read }),
            cache: cache.remove(id),
        },
        _ => Outcome { turn: refused(out_of_turn()), cache },
    }
}

/// The service's move once the answer to a query for one payment is
/// known, be it the payment or a failure. A payment that was read is cached
/// under its id. A failure to read a payment that may be cached leaves the
/// cache without an entry under its id.
pub open spec fn after_load(
    cache: Map<Seq<char>, CachedPaymentView>,
    pending: PendingView,
    answer: Result<PaymentView, StoreFailureView>,
    at: Timestamp,
    unique: Seq<char>,
) -> Outcome {
    match pending {
        PendingView::Created => match answer {
            Ok(p) => Outcome { turn: answered(p), cache: cache.insert(p.id, snapshot(p, at)) },
            Err(f) => Outcome { turn: refused(converted(f)), cache },
        },
        PendingView::Fetching { id, purpose } => match answer {
            Ok(p) => Outcome {
                turn: continued(purpose, id, p, at, unique),
                cache: cache.insert(id, snapshot(p, at)),
            },
            Err(f) => Outcome { turn: refused(converted_for(id, f)), cache: cache.remove(id) },
        },
        PendingView::Updated { id } => Outcome {
            turn: match answer {
                Ok(p) => answered(p),
                Err(f) => refused(converted(f)),
            },
            cache: cache_after(cache, id, answer, at, cache.remove(id)),
        },
        PendingView::StatusChanged { id } => match answer {
            Ok(p) => Outcome { turn: answered(p), cache: cache.insert(p.id, snapshot(p, at)) },
            Err(f) => Outcome { turn: refused(converted_for(id, f)), cache: cache.remove(id) },
        },
        _ => Outcome { turn: refused(out_of_turn()), cache },
    }
}

/// The service's move once the rows of a listing are known.
pub open spec fn after_listing(rows: Seq<crate::rows::JoinedRowView>) -> TurnView {
    if rows_decode(rows) {
        TurnView::Finish(Ok(ReplyView::Many(grouped(rows))))
    } else {
        refused(converted(StoreFailureView::RowNotFound))
    }
}

/// The service's move on an answer of the store.
pub open spec fn resumed(
    cache: Map<Seq<char>, CachedPaymentView>,
    pending: PendingView,
    event: Event,
    at: Timestamp,
    unique: Seq<char>,
) -> Outcome {
    match event {
        Event::Unavailable(reason) => Outcome { turn: refused(unavailable(reason@)), cache },
        Event::Written => after_write(cache, pending),
        Event::Rows(rows) => match pending {
            PendingView::Listing => Outcome { turn: after_listing(row_views(rows@)), cache },
            _ => after_load(cache, pending, loaded_payment(Ok(row_views(rows@))), at, unique),
        },
        Event::Ids(ids) => match pending {
            PendingView::Selecting => Outcome {
                turn: if ids.len() == 0 {
                    TurnView::Finish(Ok(ReplyView::Many(Seq::empty())))
                } else {
                    TurnView::Perform(CommandView::Load(batch_query(text_views(ids@))), PendingView::Listing)
                },
                cache,
            },
            _ => Outcome { turn: refused(out_of_turn()), cache },
        },
        Event::Failed(f) => match pending {
            PendingView::Created | PendingView::Fetching { .. } | PendingView::Updated { .. }
            | PendingView::StatusChanged { .. } => after_load(cache, pending, Err(f@), at, unique),
            _ => Outcome { turn: refused(converted(f@)), cache },
        },
    }
}

/// Builds the error for an answer of the store that was not waited for.
fn reject_out_of_turn() -> (r: Turn)
    ensures
        r@ == refused(out_of_turn()),
{
    Turn::Finish(
        Err(
            OptimizedPaymentError::DatabaseError {
                message: "unexpected answer from the store".to_string(),
                code: None,
            },
        ),
    )
}

/// Ends a conversation with a payment or an error.
fn finish(r: Result<Payment, OptimizedPaymentError>) -> (t: Turn)
    ensures
        t@ == match r {
            Ok(p) => answered(p@),
            Err(e) => refused(e@),
        },
{
    match r {
        Ok(p) => Turn::Finish(Ok(Reply::One(p))),
        Err(e) => Turn::Finish(Err(e)),
    }
}

impl OptimizedPaymentService {
    /// Goes on once the payment that was fetched for a purpose is known.
    fn proceed(&self, purpose: Purpose, id: String, existing: Payment, at: Timestamp, unique: &str) -> (r: Turn)
        ensures
            r@ == continued(purpose@, id@, existing@, at, unique@),
    {
        match purpose {
            Purpose::Read => Turn::Finish(Ok(Reply::One(existing))),
            Purpose::Update(payment) => match self.decide_update(existing, &payment) {
                Err(e) => Turn::Finish(Err(e)),
                Ok(UpdateDecision::Unchanged(p)) => Turn::Finish(Ok(Reply::One(p))),
                Ok(UpdateDecision::Write(s)) => {
                    let plan = vec![s];
                    assert(statement_views(plan@) =~= seq![update_payment(payment@)]);
                    Turn::Perform(Command::Write(plan), Pending::Updating { id: payment.id })
                },
            },
            Purpose::Delete => Turn::Perform(Command::Write(self.begin_delete(&existing)), Pending::Deleting { id }),
            Purpose::AddInstallment(amount) => match self.plan_add_installment_with(
                &existing,
                id.as_str(),
                amount,
                unique,
                at,
            ) {
                Err(e) => Turn::Finish(Err(e)),
                Ok(s) => {
                    let plan = vec![s];
                    assert(statement_views(plan@) =~= seq![
                        insert_installment(new_installment_view(unique@, id@, amount as int, at)),
                    ]);
                    Turn::Perform(Command::Write(plan), Pending::Adding { id })
                },
            },
        }
    }

    /// Fetches a payment for a purpose: from the cache where it holds a
    /// fresh snapshot, else from the store.
    fn fetch(&self, cache: &PaymentCache, id: String, purpose: Purpose, at: Timestamp, unique: &str) -> (r: Turn)
        requires
            cache.wf(),
        ensures
            r@ == fetched(cache@, id@, purpose@, at, unique@),
    {
        match cache.lookup(id.as_str(), at) {
            Lookup::Fresh(p) => self.proceed(purpose, id, p, at, unique),
            _ => {
                let q = OptimizedPembayaranRepository::find_by_id(id.as_str());
                Turn::Perform(Command::Load(q), Pending::Fetching { id, purpose })
            },
        }
    }

    /// The service's first move on a request, with the instant at which it
    /// is made and the unique part for an installment that it may create.
    /// The cache is only read.
    pub fn start_with(&self, cache: &PaymentCache, request: Request, at: Timestamp, unique: &str) -> (r: Turn)
        requires
            cache.wf(),
            request matches Request::List(Some(f)) ==> f.wf(),
        ensures
            r@ == started(cache@, request, at, unique@),
    {
        match request {
            Request::Create(p) => match self.begin_create(&p) {
                Ok(plan) => Turn::Perform(Command::Write(plan), Pending::Creating { id: p.id }),
                Err(e) => Turn::Finish(Err(e)),
            },
            Request::Get(id) => self.fetch(cache, id, Purpose::Read, at, unique),
            Request::List(filters) => match self.begin_get_all(filters) {
                Ok((query, values)) => Turn::Perform(Command::Select { query, values }, Pending::Selecting),
                Err(e) => Turn::Finish(Err(e)),
            },
            Request::Update(p) => match self.begin_update(&p) {
                Ok(_) => {
                    let id = p.id.clone();
                    self.fetch(cache, id, Purpose::Update(p), at, unique)
                },
                Err(e) => Turn::Finish(Err(e)),
            },
            Request::ChangeStatus { payment_id, new_status, additional_amount } => {
                match self.begin_update_status_with(payment_id.as_str(), new_status, additional_amount, unique, at) {
                    Ok(plan) => Turn::Perform(Command::Write(plan), Pending::ChangingStatus { id: payment_id }),
                    Err(e) => Turn::Finish(Err(e)),
                }
            },
            Request::Delete(id) => self.fetch(cache, id, Purpose::Delete, at, unique),
            Request::AddInstallment { payment_id, amount } => match self.check_amount("amount", amount) {
                Ok(_) => self.fetch(cache, payment_id, Purpose::AddInstallment(amount), at, unique),
                Err(e) => Turn::Finish(Err(e)),
            },
        }
    }

    /// The service's move once the answer to a query for one payment is
    /// known.
    fn loaded(
        &self,
        cache: &mut PaymentCache,
        pending: Pending,
        answer: Result<Vec<JoinedRow>, StoreFailure>,
        at: Timestamp,
        unique: &str,
    ) -> (r: Turn)
        requires
            old(cache).wf(),
        ensures
            final(cache).wf(),
            r@ == after_load(
                old(cache)@,
                pending@,
                loaded_payment(crate::service::answer_rows(answer)),
                at,
                unique@,
            ).turn,
            final(cache)@ == after_load(
                old(cache)@,
                pending@,
                loaded_payment(crate::service::answer_rows(answer)),
                at,
                unique@,
            ).cache,
    {
        match pending {
            Pending::Created => finish(self.complete_create(cache, answer, at)),
            Pending::Fetching { id, purpose } => match self.complete_get(cache, id.as_str(), answer, at) {
                Ok(p) => self.proceed(purpose, id, p, at, unique),
                Err(e) => Turn::Finish(Err(e)),
            },
            Pending::Updated { id } => finish(self.complete_update(cache, id.as_str(), answer, at)),
            Pending::StatusChanged { id } => finish(
                self.complete_update_status(cache, id.as_str(), answer, at),
            ),
            _ => reject_out_of_turn(),
        }
    }

    /// The service's move once a transaction was committed.
    fn written(&self, cache: &mut PaymentCache, pending: Pending) -> (r: Turn)
        requires
            old(cache).wf(),
        ensures
            final(cache).wf(),
            r@ == after_write(old(cache)@, pending@).turn,
            final(cache)@ == after_write(old(cache)@, pending@).cache,
    {
        match pending {
            Pending::Creating { id } => {
                let q = OptimizedPembayaranRepository::find_by_id(id.as_str());
                Turn::Perform(Command::Load(q), Pending::Created)
            },
            Pending::Updating { id } => {
                let q = OptimizedPembayaranRepository::find_by_id(id.as_str());
                Turn::Perform(Command::Load(q), Pending::Updated { id })
            },
            Pending::ChangingStatus { id } => {
                let q = OptimizedPembayaranRepository::find_by_id(id.as_str());
                Turn::Perform(Command::Load(q), Pending::StatusChanged { id })
            },
            Pending::Deleting { id } => {
                cache.invalidate(id.as_str());
                Turn::Finish(Ok(Reply::Done))
            },
            Pending::Adding { id } => {
                cache.invalidate(id.as_str());
                let q = OptimizedPembayaranRepository::find_by_id(id.as_str());
                Turn::Perform(Command::Load(q), Pending::Fetching { id, purpose: Purpose::Read })
            },
            _ => reject_out_of_turn(),
        }
    }

    /// The service's move on an answer of the store, with the instant at
    /// which it is made and the unique part for an installment that it may
    /// create. An answer that the conversation was not waiting for ends it
    /// with an error.
    pub fn resume_with(
        &self,
        cache: &mut PaymentCache,
        pending: Pending,
        event: Event,
        at: Timestamp,
        unique: &str,
    ) -> (r: Turn)
        requires
            old(cache).wf(),
        ensures
            final(cache).wf(),
            r@ == resumed(old(cache)@, pending@, event, at, unique@).turn,
            final(cache)@ == resumed(old(cache)@, pending@, event, at, unique@).cache,
    {
        match event {
            Event::Unavailable(reason) => Turn::Finish(Err(connection_failed(reason.as_str()))),
            Event::Written => self.written(cache, pending),
            Event::Rows(rows) => match pending {
                Pending::Listing => match self.complete_get_all(Ok(rows)) {
                    Ok(list) => Turn::Finish(Ok(Reply::Many(list))),
                    Err(e) => Turn::Finish(Err(e)),
                },
                other => self.loaded(cache, other, Ok(rows), at, unique),
            },
            Event::Ids(ids) => match pending {
                Pending::Selecting => match self.continue_get_all(Ok(ids)) {
                    Ok(ListStep::Empty) => {
                        let none: Vec<Payment> = Vec::new();
                        assert(payment_views(none@) =~= Seq::<PaymentView>::empty());
                        Turn::Finish(Ok(Reply::Many(none)))
                    },
                    Ok(ListStep::Load(q)) => Turn::Perform(Command::Load(q), Pending::Listing),
                    Err(e) => Turn::Finish(Err(e)),
                },
                _ => reject_out_of_turn(),
            },
            Event::Failed(f) => match pending {
                Pending::Created => self.loaded(cache, Pending::Created, Err(f), at, unique),
                Pending::Fetching { id, purpose } => self.loaded(
                    cache,
                    Pending::Fetching { id, purpose },
                    Err(f),
                    at,
                    unique,
                ),
                Pending::Updated { id } => self.loaded(cache, Pending::Updated { id }, Err(f), at, unique),
                Pending::StatusChanged { id } => self.loaded(
                    cache,
                    Pending::StatusChanged { id },
                    Err(f),
                    at,
                    unique,
                ),
                _ => Turn::Finish(Err(convert_failure(f))),
            },
        }
    }

    /// The service's first move on a request. The instant is read from the
    /// clock and the unique part is drawn afresh.
    pub fn start(&self, cache: &PaymentCache, request: Request) -> (r: Turn)
        requires
            cache.wf(),
            request matches Request::List(Some(f)) ==> f.wf(),
        ensures
            exists|at: Timestamp, unique: Seq<char>|
                unique.len() == 36 && r@ == #[trigger] started(cache@, request, at, unique),
    {
        let unique = fresh_uuid();
        let at = now();
        self.start_with(cache, request, at, unique.as_str())
    }

    /// The service's move on an answer of the store. The instant is read
    /// from the clock and the unique part is drawn afresh.
    pub fn resume(&self, cache: &mut PaymentCache, pending: Pending, event: Event) -> (r: Turn)
        requires
            old(cache).wf(),
        ensures
            final(cache).wf(),
            exists|at: Timestamp, unique: Seq<char>|
                unique.len() == 36 && r@ == (#[trigger] resumed(
                    old(cache)@,
                    pending@,
                    event,
                    at,
                    unique,
                )).turn && final(cache)@ == resumed(old(cache)@, pending@, event, at, unique).cache,
    {
        let unique = fresh_uuid();
        let at = now();
        self.resume_with(cache, pending, event, at, unique.as_str())
    }
}

/// Whether a move commands the store to write.
pub open spec fn writes(turn: TurnView) -> bool {
    turn matches TurnView::Perform(CommandView::Write(_), _)
}

/// Nothing is written for what fails validation: a payment with a
/// violation that is to be created or updated, an installment or an
/// additional amount that is not positive, and a filter with a violation
/// end the conversation with the error at its first move, before the store
/// is asked anything.
pub proof fn lemma_rejected_before_the_store(
    cache: Map<Seq<char>, CachedPaymentView>,
    request: Request,
    at: Timestamp,
    unique: Seq<char>,
)
    ensures
        match request {
            Request::Create(p) | Request::Update(p) => !valid(p@) ==> started(cache, request, at, unique)
                == refused(validation_error(violations(p@))),
            Request::List(filters) => filter_faults(filters).len() > 0 ==> started(
                cache,
                request,
                at,
                unique,
            ) == refused(validation_error(filter_faults(filters))),
            Request::ChangeStatus { additional_amount, .. } => additional_amount matches Some(a) && a
                <= 0 ==> started(cache, request, at, unique) == refused(
                amount_rejected("additional_amount"@),
            ),
            Request::AddInstallment { amount, .. } => amount <= 0 ==> started(cache, request, at, unique)
                == refused(amount_rejected("amount"@)),
            _ => true,
        },
{
}

/// An update that changes nothing writes nothing. Once the stored payment
/// is known, from the cache or from the store, an update to a payment that
/// is logically the same ends the conversation with the stored payment; a
/// write is commanded only for a valid payment that differs from the
/// stored one.
pub proof fn lemma_unchanged_update_writes_nothing(
    id: Seq<char>,
    existing: PaymentView,
    payment: PaymentView,
    at: Timestamp,
    unique: Seq<char>,
)
    ensures
        valid(payment) && logically_equal(existing, payment) ==> continued(
            PurposeView::Update(payment),
            id,
            existing,
            at,
            unique,
        ) == answered(existing),
        writes(continued(PurposeView::Update(payment), id, existing, at, unique)) <==> valid(payment)
            && !logically_equal(existing, payment),
{
}

/// An installment is refused for a payment that is not paid in
/// installments, and nothing is written: once the payment is known, a
/// positive amount offered to a payment of another status ends the
/// conversation with the error; a write is commanded only for a positive
/// amount and a payment that is paid in installments.
pub proof fn lemma_installment_needs_installment_status(
    id: Seq<char>,
    existing: PaymentView,
    amount: int,
    at: Timestamp,
    unique: Seq<char>,
)
    ensures
        amount > 0 && existing.status != PaymentStatus::Installment ==> continued(
            PurposeView::AddInstallment(amount),
            id,
            existing,
            at,
            unique,
        ) == refused(not_installment()),
        writes(continued(PurposeView::AddInstallment(amount), id, existing, at, unique)) <==> amount > 0
            && existing.status == PaymentStatus::Installment,
{
}

/// The store is written to only by a first move that creates or changes a
/// status, or once a payment has been fetched for an update, a deletion or
/// an installment. No answer of the store to anything else leads to a
/// write.
pub proof fn lemma_writes_follow_a_fetch(
    cache: Map<Seq<char>, CachedPaymentView>,
    pending: PendingView,
    event: Event,
    at: Timestamp,
    unique: Seq<char>,
)
    ensures
        writes(resumed(cache, pending, event, at, unique).turn) ==> event is Rows && pending is Fetching
            && !(pending->Fetching_purpose is Read),
{
}

/// No read after a write returns what the cache held before the write.
/// When the conversation about an update, a status change, a deletion or a
/// new installment goes on after its write, the cache either holds nothing
/// under the payment's id or holds the payment as it was read back after
/// the write, whatever it held before.
pub proof fn lemma_no_stale_read_after_write(
    cache: Map<Seq<char>, CachedPaymentView>,
    id: Seq<char>,
    event: Event,
    at: Timestamp,
    unique: Seq<char>,
    later: Timestamp,
)
    ensures
        served(resumed(cache, PendingView::Deleting { id }, Event::Written, at, unique).cache, id, later) is None,
        served(resumed(cache, PendingView::Adding { id }, Event::Written, at, unique).cache, id, later) is None,
        event is Rows || event is Failed ==> ({
            let after = resumed(cache, PendingView::Updated { id }, event, at, unique);
            match after.turn {
                TurnView::Finish(Ok(ReplyView::One(p))) => served(after.cache, id, later) is None || served(
                    after.cache,
                    id,
                    later,
                ) == Some(p),
                _ => served(after.cache, id, later) is None,
            }
        }),
        event is Rows || event is Failed ==> ({
            let after = resumed(cache, PendingView::StatusChanged { id }, event, at, unique);
            match after.turn {
                TurnView::Finish(Ok(ReplyView::One(p))) => p.id == id ==> served(after.cache, id, later) is None
                    || served(after.cache, id, later) == Some(p),
                _ => served(after.cache, id, later) is None,
            }
        }),
{
}

/// How many commands a conversation may still give to the store while it
/// waits for something.
pub open spec fn commands_left(pending: PendingView) -> nat {
    match pending {
        PendingView::Fetching { purpose: PurposeView::AddInstallment(_), .. } => 3,
        PendingView::Fetching { purpose: PurposeView::Update(_), .. } => 2,
        PendingView::Adding { .. } => 2,
        PendingView::Fetching { purpose: PurposeView::Delete, .. } => 1,
        PendingView::Creating { .. } | PendingView::Updating { .. } | PendingView::ChangingStatus { .. }
        | PendingView::Selecting => 1,
        _ => 0,
    }
}

/// Every conversation ends: with each answer of the store, fewer commands
/// are left to give, and none once the count is at zero. No conversation
/// gives the store more than four commands.
pub proof fn lemma_conversation_ends(
    cache: Map<Seq<char>, CachedPaymentView>,
    pending: PendingView,
    event: Event,
    at: Timestamp,
    unique: Seq<char>,
)
    ensures
        match resumed(cache, pending, event, at, unique).turn {
            TurnView::Perform(_, next) => commands_left(next) < commands_left(pending),
            TurnView::Finish(_) => true,
        },
        commands_left(pending) <= 3,
{
}

} // verus!
