use vstd::prelude::*;
use crate::crd::PodMonitorSpec;

verus! {

/// Seconds after which a healthy or freshly finalized resource is reconciled again.
pub const MONITOR_INTERVAL_SECS: u64 = 10;

/// Seconds after which a resource whose reconciliation failed is tried again.
pub const RETRY_INTERVAL_SECS: u64 = 5;

/// What the reconciler reads of a `PodMonitor` resource: its name, its namespace,
/// whether its deletion was requested (a deletion timestamp is set), its finalizers,
/// and its specification.
#[derive(Debug, Clone)]
pub struct PodMonitorResource {
    pub name: String,
    pub namespace: Option<String>,
    pub deletion_requested: bool,
    pub finalizers: Option<Vec<String>>,
    pub spec: PodMonitorSpec,
}

/// The action a resource calls for.
#[derive(Debug, Clone, Copy, PartialEq, Eq, Structural)]
pub enum PodMonitorAction {
    /// The resource has no finalizer yet: add ours.
    Create,
    /// The resource is being deleted: remove our finalizer.
    Delete,
    /// The resource is in place: monitor its pods.
    NoOp,
}

/// When the resource is to be reconciled next.
#[derive(Debug, Clone, Copy, PartialEq, Eq, Structural)]
pub enum Requeue {
    After { seconds: u64 },
    AwaitChange,
}

/// The work one reconciliation does on the cluster.
#[derive(Debug, Clone)]
pub enum ReconcilePlan {
    /// Add the finalizer to the resource, then requeue.
    AddFinalizer { name: String, namespace: String, requeue: Requeue },
    /// Remove the finalizers of the resource, then requeue.
    RemoveFinalizer { name: String, namespace: String, requeue: Requeue },
    /// Scan the pods of the namespace (all of them where `target_pods` is empty).
    MonitorPods { namespace: String, target_pods: Vec<String> },
}

/// A way alerts are sent out.
#[derive(Debug, Clone, Copy, PartialEq, Eq, Structural)]
pub enum Notifier {
    Email,
    Webhook,
}

/// Why a resource cannot be reconciled.
#[derive(Debug, Clone, Copy, PartialEq, Eq, Structural)]
pub enum ReconcileError {
    /// The resource has no namespace.
    MissingNamespace,
}

pub open spec fn missing_namespace_text() -> Seq<char> {
    "Pod Monitor Resource is namespaced. Kindly provide namespace for resource"@
}

impl ReconcileError {
    /// The message reported for the error.
    pub fn message(&self) -> (m: String)
        ensures
            m@ == missing_namespace_text(),
            m@ == "Pod Monitor Resource is namespaced. Kindly provide namespace for resource"@,
    {
        match self {
            ReconcileError::MissingNamespace => String::from_str(
                "Pod Monitor Resource is namespaced. Kindly provide namespace for resource",
            ),
        }
    }
}

/// The action a resource with these metadata calls for.
pub open spec fn action_for(deletion_requested: bool, finalizers: Option<Seq<String>>) -> PodMonitorAction {
    if deletion_requested {
        PodMonitorAction::Delete
    } else if finalizers is None || finalizers->0.len() == 0 {
        PodMonitorAction::Create
    } else {
        PodMonitorAction::NoOp
    }
}

pub open spec fn finalizers_view(finalizers: Option<Vec<String>>) -> Option<Seq<String>> {
    match finalizers {
        Some(v) => Some(v@),
        None => None,
    }
}

/// Decides what the resource calls for: removal of the finalizer when it is being
/// deleted, a finalizer when it has none, and monitoring otherwise.
pub fn determine_action(podmonitor: &PodMonitorResource) -> (a: PodMonitorAction)
    ensures
        a == action_for(podmonitor.deletion_requested, finalizers_view(podmonitor.finalizers)),
{
    if podmonitor.deletion_requested {
        PodMonitorAction::Delete
    } else {
        let no_finalizer = match &podmonitor.finalizers {
            Some(finalizers) => finalizers.len() == 0,
            None => true,
        };
        if no_finalizer {
            PodMonitorAction::Create
        } else {
            PodMonitorAction::NoOp
        }
    }
}

/// The plan of one reconciliation of `podmonitor`, as a relation between the resource and the plan.
pub open spec fn plans(podmonitor: PodMonitorResource, plan: ReconcilePlan) -> bool {
    let ns = podmonitor.namespace->0;
    match action_for(podmonitor.deletion_requested, finalizers_view(podmonitor.finalizers)) {
        PodMonitorAction::Create => plan matches ReconcilePlan::AddFinalizer { name, namespace, requeue }
            && name@ == podmonitor.name@ && namespace@ == ns@
            && requeue == (Requeue::After { seconds: MONITOR_INTERVAL_SECS }),
        PodMonitorAction::Delete => plan matches ReconcilePlan::RemoveFinalizer { name, namespace, requeue }
            && name@ == podmonitor.name@ && namespace@ == ns@ && requeue == Requeue::AwaitChange,
        PodMonitorAction::NoOp => plan matches ReconcilePlan::MonitorPods { namespace, target_pods }
            && namespace@ == ns@ && target_pods@ == (match podmonitor.spec.target_pods {
                Some(t) => t@,
                None => Seq::<String>::empty(),
            }),
    }
}

/// Plans one reconciliation of a resource. A resource without namespace is refused.
pub fn plan_reconcile(podmonitor: &PodMonitorResource) -> (r: Result<ReconcilePlan, ReconcileError>)
    ensures
        r is Err <==> podmonitor.namespace is None,
        r matches Err(e) ==> e == ReconcileError::MissingNamespace,
        r matches Ok(plan) ==> plans(*podmonitor, plan),
{
    let namespace = match &podmonitor.namespace {
        None => {
            return Err(ReconcileError::MissingNamespace);
        },
        Some(namespace) => namespace.clone(),
    };
    let name = podmonitor.name.clone();
    match determine_action(podmonitor) {
        PodMonitorAction::Create => Ok(
            ReconcilePlan::AddFinalizer {
                name,
                namespace,
                requeue: Requeue::After { seconds: MONITOR_INTERVAL_SECS },
            },
        ),
        PodMonitorAction::Delete => Ok(
            ReconcilePlan::RemoveFinalizer { name, namespace, requeue: Requeue::AwaitChange },
        ),
        PodMonitorAction::NoOp => {
            let mut target_pods: Vec<String> = Vec::new();
            match &podmonitor.spec.target_pods {
                Some(targets) => {
                    let n = targets.len();
                    for i in 0..n
                        invariant
                            n == targets@.len(),
                            target_pods@ == targets@.take(i as int),
                    {
                        target_pods.push(targets[i].clone());
                        assert(target_pods@ =~= targets@.take(i + 1));
                    }
                    assert(targets@.take(n as int) =~= targets@);
                },
                None => {},
            }
            Ok(ReconcilePlan::MonitorPods { namespace, target_pods })
        },
    }
}

/// The notifiers configured in a specification: mail first, then the webhook.
pub open spec fn configured_notifiers(spec: PodMonitorSpec) -> Seq<Notifier> {
    (if spec.mail is Some {
        seq![Notifier::Email]
    } else {
        Seq::<Notifier>::empty()
    }) + (if spec.webhook is Some {
        seq![Notifier::Webhook]
    } else {
        Seq::<Notifier>::empty()
    })
}

/// After a scan: the notifiers to run (none when no alert was raised, else each one
/// configured), and when to reconcile again.
pub fn plan_after_scan(spec: &PodMonitorSpec, alerts_raised: bool) -> (r: (Vec<Notifier>, Requeue))
    ensures
        r.0@ == (if alerts_raised {
            configured_notifiers(*spec)
        } else {
            Seq::<Notifier>::empty()
        }),
        r.1 == (Requeue::After { seconds: MONITOR_INTERVAL_SECS }),
        r.1 == (Requeue::After { seconds: 10 }),
        !alerts_raised ==> r.0@.len() == 0,
{
    let mut notifiers: Vec<Notifier> = Vec::new();
    if alerts_raised {
        if spec.mail.is_some() {
            notifiers.push(Notifier::Email);
        }
        if spec.webhook.is_some() {
            notifiers.push(Notifier::Webhook);
        }
    }
    assert(notifiers@ =~= (if alerts_raised {
        configured_notifiers(*spec)
    } else {
        Seq::<Notifier>::empty()
    }));
    (notifiers, Requeue::After { seconds: MONITOR_INTERVAL_SECS })
}

/// How the delivery of one notifier ended.
#[derive(Debug, Clone, Copy, PartialEq, Eq, Structural)]
pub enum NotifierOutcome {
    Delivered,
    Failed,
}

/// What to do next while the alerts of a scan are sent out.
#[derive(Debug, Clone, Copy, PartialEq, Eq, Structural)]
pub enum NotifyAction {
    /// Run this notifier, then report how it ended.
    Run(Notifier),
    /// All notifiers delivered: the reconciliation succeeds and requeues as given.
    Finish(Requeue),
    /// A notifier failed: the reconciliation fails with its error, and no other notifier runs.
    Abort,
}

/// Progress through the notifiers planned after a scan: `next` is the first one not yet run.
#[derive(Debug, Clone)]
pub struct NotifyProgress {
    pub notifiers: Vec<Notifier>,
    pub next: usize,
    pub requeue: Requeue,
}

impl NotifyProgress {
    /// Starts sending out the alerts through `notifiers`, then requeueing as `requeue` says.
    pub fn new(notifiers: Vec<Notifier>, requeue: Requeue) -> (p: Self)
        ensures
            p.notifiers@ == notifiers@,
            p.next == 0,
            p.requeue == requeue,
    {
        NotifyProgress { notifiers, next: 0, requeue }
    }
}

/// One step of sending out the alerts, as a relation between the progress before and after
/// it, how the previous notifier ended (`None` before the first), and the action taken.
pub open spec fn notify_step_spec(
    before: NotifyProgress,
    last: Option<NotifierOutcome>,
    after: NotifyProgress,
    action: NotifyAction,
) -> bool {
    &&& after.notifiers@ == before.notifiers@
    &&& after.requeue == before.requeue
    &&& if last == Some(NotifierOutcome::Failed) {
        action == NotifyAction::Abort && after.next == before.next
    } else if before.next < before.notifiers@.len() {
        action == NotifyAction::Run(before.notifiers@[before.next as int]) && after.next
            == before.next + 1
    } else {
        action == NotifyAction::Finish(before.requeue) && after.next == before.next
    }
}

/// Decides what follows the previous notifier: a failure aborts the reconciliation at once;
/// otherwise the next notifier in order runs, and when none is left the reconciliation
/// finishes with the planned requeue.
pub fn notify_step(progress: &mut NotifyProgress, last: Option<NotifierOutcome>) -> (action: NotifyAction)
    ensures
        notify_step_spec(*old(progress), last, *final(progress), action),
{
    match last {
        Some(NotifierOutcome::Failed) => NotifyAction::Abort,
        _ => {
            if progress.next < progress.notifiers.len() {
                let notifier = progress.notifiers[progress.next];
                progress.next = progress.next + 1;
                NotifyAction::Run(notifier)
            } else {
                NotifyAction::Finish(progress.requeue)
            }
        },
    }
}

/// A failed notifier aborts the reconciliation at once, whatever notifiers are left (none
/// included), and no notifier is counted as run.
pub proof fn law_failure_aborts(
    before: NotifyProgress,
    after: NotifyProgress,
    action: NotifyAction,
)
    requires
        notify_step_spec(before, Some(NotifierOutcome::Failed), after, action),
    ensures
        action == NotifyAction::Abort,
        after.next == before.next,
        after.notifiers@ == before.notifiers@,
{
}

/// Without a failure, the notifiers run one after the other in their planned order, and
/// when none is left the reconciliation finishes with the planned requeue.
pub proof fn law_notifiers_run_in_order(
    before: NotifyProgress,
    last: Option<NotifierOutcome>,
    after: NotifyProgress,
    action: NotifyAction,
)
    requires
        last != Some(NotifierOutcome::Failed),
        notify_step_spec(before, last, after, action),
    ensures
        before.next < before.notifiers@.len() ==> action == NotifyAction::Run(
            before.notifiers@[before.next as int],
        ) && after.next == before.next + 1,
        before.next >= before.notifiers@.len() ==> action == NotifyAction::Finish(before.requeue),
        after.notifiers@ == before.notifiers@,
        after.requeue == before.requeue,
{
}

/// The notifiers configured: mail exactly when mail details are given, the webhook exactly
/// when one is given, mail before the webhook, and nothing else.
pub proof fn law_configured_notifiers(spec: PodMonitorSpec)
    ensures
        configured_notifiers(spec).len() == (if spec.mail is Some { 1int } else { 0 }) + (if spec.webhook is Some {
            1int
        } else {
            0
        }),
        spec.mail is Some ==> configured_notifiers(spec)[0] == Notifier::Email,
        spec.webhook is Some ==> configured_notifiers(spec)[configured_notifiers(spec).len() - 1]
            == Notifier::Webhook,
        spec.mail is None ==> !configured_notifiers(spec).contains(Notifier::Email),
        spec.webhook is None ==> !configured_notifiers(spec).contains(Notifier::Webhook),
{
    let c = configured_notifiers(spec);
    if spec.mail is None {
        assert forall|i: int| 0 <= i < c.len() implies c[i] != Notifier::Email by {}
    }
    if spec.webhook is None {
        assert forall|i: int| 0 <= i < c.len() implies c[i] != Notifier::Webhook by {}
    }
}

/// A resource in place (a finalizer on it, its deletion not requested) in namespace `ns`
/// has the pods of `ns` monitored: exactly its target pods, in order, where it names some,
/// and all pods (an empty list of targets) where it names none.
pub proof fn law_monitored_targets(podmonitor: PodMonitorResource, plan: ReconcilePlan)
    requires
        plans(podmonitor, plan),
        !podmonitor.deletion_requested,
        podmonitor.finalizers is Some,
        podmonitor.finalizers->0@.len() > 0,
    ensures
        plan matches ReconcilePlan::MonitorPods { namespace, target_pods } && namespace@
            == podmonitor.namespace->0@ && (match podmonitor.spec.target_pods {
            Some(t) => target_pods@.len() == t@.len() && forall|i: int|
                0 <= i < t@.len() ==> #[trigger] target_pods@[i]@ == t@[i]@,
            None => target_pods@.len() == 0,
        }),
{
}

/// A resource without finalizers (and whose deletion is not requested) gets the finalizer
/// and is reconciled again after 10 s; a resource whose deletion is requested has its
/// finalizers removed and waits for the next change.
pub proof fn law_finalizer_plans(podmonitor: PodMonitorResource, plan: ReconcilePlan)
    requires
        plans(podmonitor, plan),
    ensures
        !podmonitor.deletion_requested && (podmonitor.finalizers is None
            || podmonitor.finalizers->0@.len() == 0) ==> (plan matches ReconcilePlan::AddFinalizer {
            name,
            namespace,
            requeue,
        } && name@ == podmonitor.name@ && namespace@ == podmonitor.namespace->0@ && requeue == (
        Requeue::After { seconds: 10 })),
        podmonitor.deletion_requested ==> (plan matches ReconcilePlan::RemoveFinalizer {
            name,
            namespace,
            requeue,
        } && name@ == podmonitor.name@ && namespace@ == podmonitor.namespace->0@ && requeue
            == Requeue::AwaitChange),
{
}

/// A resource that carries a finalizer and whose deletion is not requested has its pods
/// monitored; once its deletion is requested, its finalizers are removed whatever they are.
pub proof fn law_finalized_resource_is_monitored(finalizers: Seq<String>)
    requires
        finalizers.len() > 0,
    ensures
        action_for(false, Some(finalizers)) == PodMonitorAction::NoOp,
        action_for(true, Some(finalizers)) == PodMonitorAction::Delete,
        action_for(true, None) == PodMonitorAction::Delete,
{
}

/// When to reconcile again after a failed reconciliation.
pub fn requeue_after_error() -> (r: Requeue)
    ensures
        r == (Requeue::After { seconds: RETRY_INTERVAL_SECS }),
        r == (Requeue::After { seconds: 5 }),
{
    Requeue::After { seconds: RETRY_INTERVAL_SECS }
}

} // verus!
