//! What holds of reconciles that run, one after another, against a cluster
//! that answers truthfully.
//!
//! The cluster is modelled as a map from namespace and name to the object
//! stored there. A reconcile run against it is the composition of the
//! reconciler's own rules with the cluster's answers.

use crate::action::{Action, Delay};
use crate::context::{buffer_contents, Data};
use crate::controller::scheduled;
use crate::error::{ErrorView, KubeErrorView};
use crate::reconciler::{
    after_create, after_read, managed_create, managed_read, AfterReadView, CreateRequestView,
    LogRecordView, ReadRequestView, FIRST_NONCE,
};
use crate::resource::{MicroTime, ObjectMetaView, TestResourceView, KUBESECRET, NAMESPACE};
use vstd::prelude::*;

verus! {

/// The objects of a cluster, by namespace and name.
pub struct Cluster {
    pub objects: Map<(Seq<char>, Seq<char>), TestResourceView>,
}

/// The errors with which a cluster answers what it cannot do.
pub struct Refusals {
    /// Answer to a read of an object that does not exist.
    pub missing: KubeErrorView,
    /// Answer to a create call that cannot be carried out.
    pub rejected: KubeErrorView,
}

/// Namespace and name of the managed object.
pub open spec fn managed_key() -> (Seq<char>, Seq<char>) {
    (NAMESPACE@, KUBESECRET@)
}

impl Cluster {
    /// The answer to a read: the stored object, or the error for a missing
    /// one.
    pub open spec fn read(self, request: ReadRequestView, refusals: Refusals) -> Result<
        TestResourceView,
        KubeErrorView,
    > {
        let key = (request.namespace, request.name);
        if self.objects.contains_key(key) {
            Ok(self.objects[key])
        } else {
            Err(refusals.missing)
        }
    }

    /// The object as the cluster stores it for a create call: the one
    /// handed in, with the namespace of the call.
    pub open spec fn stored(request: CreateRequestView) -> TestResourceView {
        TestResourceView {
            metadata: ObjectMetaView {
                name: request.resource.metadata.name,
                namespace: Some(request.namespace),
            },
            spec: request.resource.spec,
        }
    }

    /// The call can be carried out: the object has a name that is not yet
    /// taken in the namespace.
    pub open spec fn accepts(self, request: CreateRequestView) -> bool {
        request.resource.metadata.name matches Some(name) && !self.objects.contains_key(
            (request.namespace, name),
        )
    }

    /// The answer to a create call.
    pub open spec fn create_reply(self, request: CreateRequestView, refusals: Refusals) -> Result<
        TestResourceView,
        KubeErrorView,
    > {
        if self.accepts(request) {
            Ok(Self::stored(request))
        } else {
            Err(refusals.rejected)
        }
    }

    /// The cluster after a create call.
    pub open spec fn create(self, request: CreateRequestView) -> Cluster {
        if self.accepts(request) {
            Cluster {
                objects: self.objects.insert(
                    (request.namespace, request.resource.metadata.name->0),
                    Self::stored(request),
                ),
            }
        } else {
            self
        }
    }
}

/// One reconcile, seen from outside.
pub struct Run {
    /// The cluster after the reconcile.
    pub cluster: Cluster,
    /// The write calls that the reconcile made, in order.
    pub writes: Seq<CreateRequestView>,
    /// The reconcile's result.
    pub outcome: Result<Action, ErrorView>,
    /// The progress line that follows the answer to the read.
    pub log: LogRecordView,
}

/// A reconcile that began at `now`, run against `cluster`.
pub open spec fn run(cluster: Cluster, refusals: Refusals, now: MicroTime, buffer_len: nat) -> Run {
    match after_read(now, cluster.read(managed_read(), refusals), buffer_len) {
        AfterReadView::Done { log, action } => Run {
            cluster,
            writes: Seq::empty(),
            outcome: Ok(action),
            log,
        },
        AfterReadView::Create { log, request, .. } => Run {
            cluster: cluster.create(request),
            writes: seq![request],
            outcome: after_create(cluster.create_reply(request, refusals)),
            log,
        },
    }
}

/// The reconciles that begin at the given times, run one after another,
/// each against the cluster that the one before it left.
pub open spec fn runs(cluster: Cluster, refusals: Refusals, times: Seq<MicroTime>, buffer_len: nat)
    -> Seq<Run>
    decreases times.len(),
{
    if times.len() == 0 {
        Seq::empty()
    } else {
        let earlier = runs(cluster, refusals, times.drop_last(), buffer_len);
        let before = if earlier.len() == 0 {
            cluster
        } else {
            earlier.last().cluster
        };
        earlier.push(run(before, refusals, times.last(), buffer_len))
    }
}

/// A reconcile makes at most one write call, whatever the cluster holds and
/// however it answers.
pub proof fn law_at_most_one_write(
    cluster: Cluster,
    refusals: Refusals,
    now: MicroTime,
    buffer_len: nat,
)
    ensures
        run(cluster, refusals, now, buffer_len).writes.len() <= 1,
{
}

/// Create once: where the managed object does not exist, a reconcile makes
/// exactly one write call, which creates the managed object with the first
/// counter value and leaves every other object as it was; the reconcile
/// that follows makes no write call and leaves the cluster as it is.
pub proof fn law_create_once(
    cluster: Cluster,
    refusals: Refusals,
    first_at: MicroTime,
    second_at: MicroTime,
    buffer_len: nat,
)
    requires
        !cluster.objects.contains_key(managed_key()),
        refusals.missing.is_not_found(),
    ensures
        ({
            let first = run(cluster, refusals, first_at, buffer_len);
            let second = run(first.cluster, refusals, second_at, buffer_len);
            &&& first.writes == seq![managed_create(first_at)]
            &&& first.outcome == Ok::<Action, ErrorView>(Action::AwaitChange)
            &&& first.cluster.objects == cluster.objects.insert(
                managed_key(),
                Cluster::stored(managed_create(first_at)),
            )
            &&& first.cluster.objects[managed_key()].spec.nonce == FIRST_NONCE
            &&& first.cluster.objects[managed_key()].spec.updated_at == Some(first_at)
            &&& second.writes.len() == 0
            &&& second.cluster == first.cluster
            &&& second.outcome == Ok::<Action, ErrorView>(Action::AwaitChange)
        }),
{
    let first = run(cluster, refusals, first_at, buffer_len);
    let request = managed_create(first_at);
    assert(cluster.accepts(request));
    assert(first.cluster.objects.contains_key(managed_key()));
}

/// Idempotent read path: where the managed object exists, any number of
/// reconciles, one after another, each wait for the next change, make no
/// write call and leave the cluster as it is.
pub proof fn law_read_path_idempotent(
    cluster: Cluster,
    refusals: Refusals,
    times: Seq<MicroTime>,
    buffer_len: nat,
)
    requires
        cluster.objects.contains_key(managed_key()),
    ensures
        runs(cluster, refusals, times, buffer_len).len() == times.len(),
        forall|i: int|
            0 <= i < times.len() ==> {
                let r = #[trigger] runs(cluster, refusals, times, buffer_len)[i];
                &&& r.cluster == cluster
                &&& r.writes.len() == 0
                &&& r.outcome == Ok::<Action, ErrorView>(Action::AwaitChange)
                &&& r.log == (LogRecordView::Changed {
                    at: times[i],
                    previous: cluster.objects[managed_key()].spec.nonce - 1,
                    current: cluster.objects[managed_key()].spec.nonce as int,
                    buffer_len,
                })
            },
    decreases times.len(),
{
    if times.len() > 0 {
        law_read_path_idempotent(cluster, refusals, times.drop_last(), buffer_len);
        let earlier = runs(cluster, refusals, times.drop_last(), buffer_len);
        let all = runs(cluster, refusals, times, buffer_len);
        assert forall|i: int| 0 <= i < times.len() implies {
            let r = #[trigger] all[i];
            &&& r.cluster == cluster
            &&& r.writes.len() == 0
            &&& r.outcome == Ok::<Action, ErrorView>(Action::AwaitChange)
            &&& r.log == (LogRecordView::Changed {
                at: times[i],
                previous: cluster.objects[managed_key()].spec.nonce - 1,
                current: cluster.objects[managed_key()].spec.nonce as int,
                buffer_len,
            })
        } by {
            if i < times.len() - 1 {
                assert(all[i] == earlier[i]);
                assert(times.drop_last()[i] == times[i]);
            }
        }
    }
}

/// A read that fails for another reason than a missing object ends the
/// reconcile without a write call and without an error: the loop waits for
/// the next change.
pub proof fn law_read_failure_swallowed(
    now: MicroTime,
    error: KubeErrorView,
    buffer_len: nat,
)
    requires
        !error.is_not_found(),
    ensures
        after_read(now, Err(error), buffer_len) == (AfterReadView::Done {
            log: LogRecordView::ReadFailed { error },
            action: Action::AwaitChange,
        }),
{
}

/// Error isolation: a create call that fails, for whatever reason, makes
/// the reconcile fail with that error, and the loop then retries after the
/// fixed delay of one second.
pub proof fn law_failed_create_retried(error: KubeErrorView)
    ensures
        after_create(Err(error)) == Err::<Action, ErrorView>(
            ErrorView::UnknownKubeError { source: error },
        ),
        scheduled(after_create(Err(error))) == Action::Requeue(Delay { secs: 1, nanos: 0 }),
{
}

/// Buffer immutability: a reconcile that reads a context built for a given
/// size reports that size, whenever it begins and whatever it finds.
pub proof fn law_buffer_len_is_configured<C>(
    ctx: Data<C>,
    size: usize,
    now: MicroTime,
    existing: TestResourceView,
)
    requires
        ctx.buffer() == buffer_contents(size as nat),
    ensures
        ctx.buffer().len() == size,
        after_read(now, Ok(existing), ctx.buffer().len()) matches AfterReadView::Done {
            log: LogRecordView::Changed { buffer_len, .. },
            ..
        } && buffer_len == size,
{
}

} // verus!
