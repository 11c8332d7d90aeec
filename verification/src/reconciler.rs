//! One reconcile, as a sequence of decisions.
//!
//! The reconciler performs no call itself. `reconcile` says which object to
//! read; the caller reads it and hands the answer to `PendingRead::on_read`,
//! which either finishes the reconcile or asks for one create call, whose
//! answer goes to `PendingCreate::on_create`. A reconcile therefore makes
//! one read and at most one write, and nothing else.

use crate::action::Action;
use crate::clock::wall_clock;
use crate::context::Data;
use crate::error::{Error, ErrorView, KubeError, KubeErrorView};
use crate::resource::{
    new_resource, test_resource, MicroTime, TestResource, TestResourceView, KUBESECRET, NAMESPACE,
};
use vstd::prelude::*;

verus! {

/// Counter value of a resource that the reconciler creates.
pub const FIRST_NONCE: i64 = 1;

/// A progress line of a reconcile, for the caller to print.
#[derive(Debug)]
pub enum LogRecord {
    /// The reconcile began.
    Called { at: MicroTime },
    /// The managed object exists: the counter value before the current one,
    /// the current one, and the size of the shared buffer.
    Changed { at: MicroTime, previous: i128, current: i64, buffer_len: usize },
    /// The managed object does not exist and is about to be created.
    MadeNew,
    /// Reading the managed object failed.
    ReadFailed { error: KubeError },
}

/// Mathematical value of a `LogRecord`.
pub enum LogRecordView {
    Called { at: MicroTime },
    Changed { at: MicroTime, previous: int, current: int, buffer_len: nat },
    MadeNew,
    ReadFailed { error: KubeErrorView },
}

impl View for LogRecord {
    type V = LogRecordView;

    open spec fn view(&self) -> LogRecordView {
        match *self {
            LogRecord::Called { at } => LogRecordView::Called { at },
            LogRecord::Changed { at, previous, current, buffer_len } => LogRecordView::Changed {
                at,
                previous: previous as int,
                current: current as int,
                buffer_len: buffer_len as nat,
            },
            LogRecord::MadeNew => LogRecordView::MadeNew,
            LogRecord::ReadFailed { error } => LogRecordView::ReadFailed { error: error@ },
        }
    }
}

/// A read of one object by name.
#[derive(Debug)]
pub struct ReadRequest {
    pub namespace: String,
    pub name: String,
}

/// Mathematical value of a `ReadRequest`.
pub struct ReadRequestView {
    pub namespace: Seq<char>,
    pub name: Seq<char>,
}

impl View for ReadRequest {
    type V = ReadRequestView;

    open spec fn view(&self) -> ReadRequestView {
        ReadRequestView { namespace: self.namespace@, name: self.name@ }
    }
}

/// The creation of one object.
#[derive(Debug)]
pub struct CreateRequest {
    pub namespace: String,
    pub resource: TestResource,
}

/// Mathematical value of a `CreateRequest`.
pub struct CreateRequestView {
    pub namespace: Seq<char>,
    pub resource: TestResourceView,
}

impl View for CreateRequest {
    type V = CreateRequestView;

    open spec fn view(&self) -> CreateRequestView {
        CreateRequestView { namespace: self.namespace@, resource: self.resource@ }
    }
}

/// A reconcile that waits for the answer to its read.
#[derive(Debug)]
pub struct PendingRead {
    now: MicroTime,
}

/// A reconcile that waits for the answer to its create call.
#[derive(Debug)]
pub struct PendingCreate {
    now: MicroTime,
}

/// A reconcile that has just begun.
#[derive(Debug)]
pub struct Started {
    pub log: LogRecord,
    pub request: ReadRequest,
    pub pending: PendingRead,
}

/// Where a reconcile stands once its read was answered.
#[derive(Debug)]
pub enum AfterRead {
    /// Finished, without a write.
    Done { log: LogRecord, action: Action },
    /// One create call is to be made.
    Create { log: LogRecord, request: CreateRequest, pending: PendingCreate },
}

/// Mathematical value of an `AfterRead`.
pub enum AfterReadView {
    Done { log: LogRecordView, action: Action },
    Create { log: LogRecordView, request: CreateRequestView, now: MicroTime },
}

impl View for AfterRead {
    type V = AfterReadView;

    open spec fn view(&self) -> AfterReadView {
        match *self {
            AfterRead::Done { log, action } => AfterReadView::Done { log: log@, action },
            AfterRead::Create { log, request, pending } => AfterReadView::Create {
                log: log@,
                request: request@,
                now: pending.now(),
            },
        }
    }
}

/// The answer to a read or a create call, by its mathematical value.
pub open spec fn reply_view(reply: Result<TestResource, KubeError>) -> Result<
    TestResourceView,
    KubeErrorView,
> {
    match reply {
        Ok(resource) => Ok(resource@),
        Err(error) => Err(error@),
    }
}

/// The result of a reconcile, by its mathematical value.
pub open spec fn outcome_view(outcome: Result<Action, Error>) -> Result<Action, ErrorView> {
    match outcome {
        Ok(action) => Ok(action),
        Err(error) => Err(error@),
    }
}

/// The read with which every reconcile begins: the managed object.
pub open spec fn managed_read() -> ReadRequestView {
    ReadRequestView { namespace: NAMESPACE@, name: KUBESECRET@ }
}

/// The create call of a reconcile that began at `now`: the managed object,
/// with the first counter value and `now` as the time of its last update.
pub open spec fn managed_create(now: MicroTime) -> CreateRequestView {
    CreateRequestView {
        namespace: NAMESPACE@,
        resource: new_resource(KUBESECRET@, FIRST_NONCE, now),
    }
}

/// What a reconcile that began at `now` does with the answer to its read,
/// where the shared buffer holds `buffer_len` bytes.
///
/// An object that exists is reported and left alone. An object that the API
/// says does not exist is created. Any other failure is reported and the
/// reconcile ends as if it had succeeded.
pub open spec fn after_read(
    now: MicroTime,
    reply: Result<TestResourceView, KubeErrorView>,
    buffer_len: nat,
) -> AfterReadView {
    match reply {
        Ok(existing) => AfterReadView::Done {
            log: LogRecordView::Changed {
                at: now,
                previous: existing.spec.nonce - 1,
                current: existing.spec.nonce as int,
                buffer_len,
            },
            action: Action::AwaitChange,
        },
        Err(error) => if error.is_not_found() {
            AfterReadView::Create {
                log: LogRecordView::MadeNew,
                request: managed_create(now),
                now,
            }
        } else {
            AfterReadView::Done {
                log: LogRecordView::ReadFailed { error },
                action: Action::AwaitChange,
            }
        },
    }
}

/// How a reconcile ends once its create call was answered: it waits for the
/// next change where the call succeeded, and fails with the call's error
/// where it did not.
pub open spec fn after_create(reply: Result<TestResourceView, KubeErrorView>) -> Result<
    Action,
    ErrorView,
> {
    match reply {
        Ok(_) => Ok(Action::AwaitChange),
        Err(error) => Err(ErrorView::UnknownKubeError { source: error }),
    }
}

impl PendingRead {
    /// The time at which the reconcile began.
    pub closed spec fn now(self) -> MicroTime {
        self.now
    }

    /// The time at which the reconcile began.
    pub fn started_at(&self) -> (now: MicroTime)
        ensures
            now == self.now(),
    {
        self.now
    }

    /// Takes the answer to the read and decides how the reconcile goes on.
    pub fn on_read<C>(self, reply: Result<TestResource, KubeError>, ctx: &Data<C>) -> (next:
        AfterRead)
        ensures
            next@ == after_read(self.now(), reply_view(reply), ctx.buffer().len()),
    {
        match reply {
            Ok(existing) => {
                let current = existing.spec.nonce;
                AfterRead::Done {
                    log: LogRecord::Changed {
                        at: self.now,
                        previous: current as i128 - 1,
                        current,
                        buffer_len: ctx.buffer_len(),
                    },
                    action: Action::await_change(),
                }
            },
            Err(error) => {
                if error.is_not_found() {
                    let index: i64 = FIRST_NONCE;
                    AfterRead::Create {
                        log: LogRecord::MadeNew,
                        request: CreateRequest {
                            namespace: NAMESPACE.to_owned(),
                            resource: test_resource(KUBESECRET, &index, self.now),
                        },
                        pending: PendingCreate { now: self.now },
                    }
                } else {
                    AfterRead::Done {
                        log: LogRecord::ReadFailed { error },
                        action: Action::await_change(),
                    }
                }
            },
        }
    }
}

impl PendingCreate {
    /// The time at which the reconcile began.
    pub closed spec fn now(self) -> MicroTime {
        self.now
    }

    /// The time at which the reconcile began.
    pub fn started_at(&self) -> (now: MicroTime)
        ensures
            now == self.now(),
    {
        self.now
    }

    /// Takes the answer to the create call and ends the reconcile.
    pub fn on_create(self, reply: Result<TestResource, KubeError>) -> (outcome: Result<
        Action,
        Error,
    >)
        ensures
            outcome_view(outcome) == after_create(reply_view(reply)),
    {
        match reply {
            Ok(_) => Ok(Action::await_change()),
            Err(error) => Err(Error::from(error)),
        }
    }
}

/// Begins a reconcile at the given times: `called_at` is reported, `now` is
/// kept for the rest of the reconcile.
pub fn reconcile_at(called_at: MicroTime, now: MicroTime) -> (started: Started)
    ensures
        started.log@ == (LogRecordView::Called { at: called_at }),
        started.request@ == managed_read(),
        started.pending.now() == now,
{
    Started {
        log: LogRecord::Called { at: called_at },
        request: ReadRequest { namespace: NAMESPACE.to_owned(), name: KUBESECRET.to_owned() },
        pending: PendingRead { now },
    }
}

/// Begins a reconcile for the object that a watch event named, at the time
/// the system clock shows.
///
/// Whatever object the event named, the reconcile is about the managed
/// object. Nothing is known of the times but that they are well formed.
pub fn reconcile<C>(_resource: &TestResource, _ctx: &Data<C>) -> (started: Started)
    ensures
        started.log@ matches LogRecordView::Called { at } && at.well_formed(),
        started.request@ == managed_read(),
        started.pending.now().well_formed(),
{
    let called_at = wall_clock();
    let now = wall_clock();
    reconcile_at(called_at, now)
}

} // verus!
