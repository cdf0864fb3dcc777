use vstd::prelude::*;
use crate::monitor::{
    alert_for, any_unsettled, calls_for_alert, container_reasons, is_creating, is_watched, names_in,
    observe_all, recorded, scan, AlertView, PodView,
};

verus! {

/// No two pods of the list share a name.
pub open spec fn names_distinct(pods: Seq<PodView>) -> bool {
    forall|a: int, b: int| 0 <= a < b < pods.len() ==> pods[a].name != pods[b].name
}

/// A pod named `n` is in the list.
pub open spec fn lists(pods: Seq<PodView>, n: Seq<char>) -> bool {
    exists|j: int| 0 <= j < pods.len() && (#[trigger] pods[j]).name == n
}

/// Pods of other names leave the phase recorded for `n` as it was.
proof fn lemma_other_pods_keep_record(
    known: Map<Seq<char>, Seq<char>>,
    targets: Seq<Seq<char>>,
    pods: Seq<PodView>,
    n: Seq<char>,
)
    requires
        !lists(pods, n),
    ensures
        observe_all(known, targets, pods).0.dom().contains(n) == known.dom().contains(n),
        known.dom().contains(n) ==> observe_all(known, targets, pods).0[n] == known[n],
        !observe_all(known, targets, pods).1.dom().contains(n),
    decreases pods.len(),
{
    if pods.len() > 0 {
        let init = pods.drop_last();
        assert(!lists(init, n)) by {
            if lists(init, n) {
                let j = choose|j: int| 0 <= j < init.len() && (#[trigger] init[j]).name == n;
                assert(pods[j].name == n);
            }
        }
        assert(pods[pods.len() - 1].name != n);
        lemma_other_pods_keep_record(known, targets, init, n);
    }
}

/// Each alert of a scan is raised by a listed pod that called for it, from the phases
/// recorded before that pod was seen.
proof fn lemma_alert_origin(
    known: Map<Seq<char>, Seq<char>>,
    targets: Seq<Seq<char>>,
    pods: Seq<PodView>,
    n: Seq<char>,
) -> (j: int)
    requires
        observe_all(known, targets, pods).1.dom().contains(n),
    ensures
        0 <= j < pods.len(),
        pods[j].name == n,
        is_watched(targets, n),
        calls_for_alert(observe_all(known, targets, pods.take(j)).0, pods[j]),
        observe_all(known, targets, pods).1[n] == alert_for(pods[j]),
    decreases pods.len(),
{
    let init = pods.drop_last();
    let last = pods.last();
    let prev = observe_all(known, targets, init);
    assert(pods.take(pods.len() - 1) =~= init);
    if calls_for_alert(prev.0, last) && is_watched(targets, last.name) && last.name == n {
        pods.len() - 1
    } else {
        let j = lemma_alert_origin(known, targets, init, n);
        assert(init.take(j) =~= pods.take(j));
        j
    }
}

/// With distinct names, a listed pod none of whose containers is being created has
/// its phase recorded by the scan.
proof fn lemma_phase_recorded(
    known: Map<Seq<char>, Seq<char>>,
    targets: Seq<Seq<char>>,
    pods: Seq<PodView>,
    j: int,
)
    requires
        names_distinct(pods),
        0 <= j < pods.len(),
        !is_creating(pods[j]),
    ensures
        observe_all(known, targets, pods).0.dom().contains(pods[j].name),
        observe_all(known, targets, pods).0[pods[j].name] == pods[j].phase,
    decreases pods.len(),
{
    let init = pods.drop_last();
    if j < pods.len() - 1 {
        assert(init[j] == pods[j]);
        lemma_phase_recorded(known, targets, init, j);
        assert(pods[j].name != pods[pods.len() - 1].name);
    }
}

/// With distinct names, an alert raised for pod `j` stays to the end of the scan.
proof fn lemma_alert_kept(
    known: Map<Seq<char>, Seq<char>>,
    targets: Seq<Seq<char>>,
    pods: Seq<PodView>,
    j: int,
)
    requires
        names_distinct(pods),
        0 <= j < pods.len(),
        observe_all(known, targets, pods.take(j + 1)).1.dom().contains(pods[j].name),
    ensures
        observe_all(known, targets, pods).1.dom().contains(pods[j].name),
        observe_all(known, targets, pods).1[pods[j].name] == observe_all(
            known,
            targets,
            pods.take(j + 1),
        ).1[pods[j].name],
    decreases pods.len(),
{
    if j < pods.len() - 1 {
        let init = pods.drop_last();
        assert(init[j] == pods[j]);
        assert(init.take(j + 1) =~= pods.take(j + 1));
        lemma_alert_kept(known, targets, init, j);
        assert(pods[j].name != pods[pods.len() - 1].name);
    } else {
        assert(pods.take(j + 1) =~= pods);
    }
}

/// Scanning a namespace leaves what is recorded for every other namespace as it was.
pub proof fn law_other_namespaces_untouched(
    states: Map<Seq<char>, Map<Seq<char>, Seq<char>>>,
    ns: Seq<char>,
    targets: Seq<Seq<char>>,
    pods: Seq<PodView>,
    other: Seq<char>,
)
    requires
        other != ns,
    ensures
        scan(states, ns, targets, pods).0.dom().contains(other) == states.dom().contains(other),
        states.dom().contains(other) ==> scan(states, ns, targets, pods).0[other] == states[other],
{
}

/// After a scan, the namespace records only pods that the scan listed: the others are forgotten.
pub proof fn law_vanished_pods_forgotten(
    states: Map<Seq<char>, Map<Seq<char>, Seq<char>>>,
    ns: Seq<char>,
    targets: Seq<Seq<char>>,
    pods: Seq<PodView>,
    n: Seq<char>,
)
    requires
        !lists(pods, n),
    ensures
        scan(states, ns, targets, pods).0.dom().contains(ns),
        !scan(states, ns, targets, pods).0[ns].dom().contains(n),
{
}

/// After a scan, each listed pod none of whose containers is being created has its
/// phase recorded (pod names being distinct, as in a namespace).
pub proof fn law_phase_recorded(
    states: Map<Seq<char>, Map<Seq<char>, Seq<char>>>,
    ns: Seq<char>,
    targets: Seq<Seq<char>>,
    pods: Seq<PodView>,
    j: int,
)
    requires
        names_distinct(pods),
        0 <= j < pods.len(),
        !is_creating(pods[j]),
    ensures
        scan(states, ns, targets, pods).0[ns].dom().contains(pods[j].name),
        scan(states, ns, targets, pods).0[ns][pods[j].name] == pods[j].phase,
{
    lemma_phase_recorded(recorded(states, ns), targets, pods, j);
    assert(names_in(pods).contains(pods[j].name));
}

/// Each alert is about a listed pod that is watched, is not in the `Running` phase and
/// has a container whose reason is not a settled one; it carries that pod's container
/// statuses and reasons and its phase.
pub proof fn law_alerts_are_justified(
    states: Map<Seq<char>, Map<Seq<char>, Seq<char>>>,
    ns: Seq<char>,
    targets: Seq<Seq<char>>,
    pods: Seq<PodView>,
    n: Seq<char>,
)
    requires
        scan(states, ns, targets, pods).1.dom().contains(n),
    ensures
        exists|j: int|
            0 <= j < pods.len() && (#[trigger] pods[j]).name == n && is_watched(targets, n)
                && pods[j].phase != "Running"@ && any_unsettled(container_reasons(pods[j]))
                && scan(states, ns, targets, pods).1[n] == alert_for(pods[j]),
{
    let j = lemma_alert_origin(recorded(states, ns), targets, pods, n);
    assert(pods[j].name == n);
}

/// A watched pod seen for the first time, not in the `Running` phase and with a
/// container whose reason is not a settled one, raises an alert (pod names being distinct).
pub proof fn law_first_sighting_alerts(
    states: Map<Seq<char>, Map<Seq<char>, Seq<char>>>,
    ns: Seq<char>,
    targets: Seq<Seq<char>>,
    pods: Seq<PodView>,
    j: int,
)
    requires
        names_distinct(pods),
        0 <= j < pods.len(),
        !recorded(states, ns).dom().contains(pods[j].name),
        is_watched(targets, pods[j].name),
        pods[j].phase != "Running"@,
        any_unsettled(container_reasons(pods[j])),
    ensures
        scan(states, ns, targets, pods).1.dom().contains(pods[j].name),
        scan(states, ns, targets, pods).1[pods[j].name] == alert_for(pods[j]),
{
    let known = recorded(states, ns);
    let n = pods[j].name;
    let pre = pods.take(j);
    assert(!lists(pre, n)) by {
        if lists(pre, n) {
            let k = choose|k: int| 0 <= k < pre.len() && (#[trigger] pre[k]).name == n;
            assert(pods[k].name == pods[j].name);
        }
    }
    lemma_other_pods_keep_record(known, targets, pre, n);
    assert(pods.take(j + 1).drop_last() =~= pre);
    assert(pods.take(j + 1).last() == pods[j]);
    lemma_alert_kept(known, targets, pods, j);
}

/// Scanning the same pods again raises no alert for a pod none of whose containers is
/// being created: a pod is reported once per phase it enters (pod names being distinct).
pub proof fn law_no_repeated_alert(
    states: Map<Seq<char>, Map<Seq<char>, Seq<char>>>,
    ns: Seq<char>,
    targets: Seq<Seq<char>>,
    pods: Seq<PodView>,
    n: Seq<char>,
)
    requires
        names_distinct(pods),
        scan(scan(states, ns, targets, pods).0, ns, targets, pods).1.dom().contains(n),
    ensures
        exists|j: int| 0 <= j < pods.len() && (#[trigger] pods[j]).name == n && is_creating(pods[j]),
{
    let first = scan(states, ns, targets, pods).0;
    let known1 = recorded(first, ns);
    let j = lemma_alert_origin(known1, targets, pods, n);
    if !is_creating(pods[j]) {
        lemma_phase_recorded(recorded(states, ns), targets, pods, j);
        assert(names_in(pods).contains(n));
        let pre = pods.take(j);
        assert(!lists(pre, n)) by {
            if lists(pre, n) {
                let k = choose|k: int| 0 <= k < pre.len() && (#[trigger] pre[k]).name == n;
                assert(pods[k].name == pods[j].name);
            }
        }
        lemma_other_pods_keep_record(known1, targets, pre, n);
        assert(false);
    }
}

/// Pods that are still being created leave the phase recorded for `n` as it was.
proof fn lemma_creating_pods_keep_record(
    known: Map<Seq<char>, Seq<char>>,
    targets: Seq<Seq<char>>,
    pods: Seq<PodView>,
    n: Seq<char>,
)
    requires
        forall|j: int| 0 <= j < pods.len() && (#[trigger] pods[j]).name == n ==> is_creating(pods[j]),
    ensures
        observe_all(known, targets, pods).0.dom().contains(n) == known.dom().contains(n),
        known.dom().contains(n) ==> observe_all(known, targets, pods).0[n] == known[n],
    decreases pods.len(),
{
    if pods.len() > 0 {
        let init = pods.drop_last();
        assert forall|j: int| 0 <= j < init.len() && (#[trigger] init[j]).name == n implies is_creating(
            init[j],
        ) by {
            assert(init[j] == pods[j]);
        }
        lemma_creating_pods_keep_record(known, targets, init, n);
    }
}

/// The alert of a pod describes it, container by container: a status of `Running` exactly
/// for the running containers (`Not Running` for the others), the waiting reason of each
/// container (`None` where it does not wait), and the pod's phase. The pod is watched (the
/// targets are empty or name it), its phase is not `Running`, and one of its containers
/// does not wait with reason `Running`, `Succeeded` or `ContainerCreating`.
pub proof fn law_alert_describes_pod(
    states: Map<Seq<char>, Map<Seq<char>, Seq<char>>>,
    ns: Seq<char>,
    targets: Seq<Seq<char>>,
    pods: Seq<PodView>,
    n: Seq<char>,
)
    requires
        scan(states, ns, targets, pods).1.dom().contains(n),
    ensures
        exists|j: int|
            #![trigger pods[j]]
            0 <= j < pods.len() && pods[j].name == n && {
                let a: AlertView = scan(states, ns, targets, pods).1[n];
                let p = pods[j];
                &&& a.phase == p.phase
                &&& p.phase != "Running"@
                &&& (targets.len() == 0 || targets.contains(n))
                &&& a.statuses.len() == p.containers.len()
                &&& a.reasons.len() == p.containers.len()
                &&& forall|i: int|
                    0 <= i < p.containers.len() ==> #[trigger] a.statuses[i] == (if p.containers[i].running {
                        "Running"@
                    } else {
                        "Not Running"@
                    })
                &&& forall|i: int|
                    0 <= i < p.containers.len() ==> #[trigger] a.reasons[i] == (
                    match p.containers[i].waiting_reason {
                        Some(r) => r,
                        None => "None"@,
                    })
                &&& exists|i: int|
                    0 <= i < p.containers.len() && !(#[trigger] p.containers[i].waiting_reason == Some(
                        "Running"@,
                    ) || p.containers[i].waiting_reason == Some("Succeeded"@)
                        || p.containers[i].waiting_reason == Some("ContainerCreating"@))
            },
{
    let j = lemma_alert_origin(recorded(states, ns), targets, pods, n);
    let p = pods[j];
    let rs = container_reasons(p);
    let k = choose|k: int| 0 <= k < rs.len() && !crate::monitor::is_settled_reason(#[trigger] rs[k]);
    assert(rs[k] == crate::monitor::reason_text(p.containers[k]));
    assert(!(p.containers[k].waiting_reason == Some("Running"@) || p.containers[k].waiting_reason
        == Some("Succeeded"@) || p.containers[k].waiting_reason == Some("ContainerCreating"@)));
    assert(pods[j].name == n);
}

/// A pod every container of which waits with reason `Running`, `Succeeded` or
/// `ContainerCreating` raises no alert; in particular a pod whose containers are all being
/// created is never reported.
pub proof fn law_settled_pods_not_alerted(
    states: Map<Seq<char>, Map<Seq<char>, Seq<char>>>,
    ns: Seq<char>,
    targets: Seq<Seq<char>>,
    pods: Seq<PodView>,
    n: Seq<char>,
)
    requires
        forall|j: int, i: int|
            #![trigger pods[j].containers[i]]
            0 <= j < pods.len() && pods[j].name == n && 0 <= i < pods[j].containers.len()
                ==> (pods[j].containers[i].waiting_reason == Some("Running"@)
                || pods[j].containers[i].waiting_reason == Some("Succeeded"@)
                || pods[j].containers[i].waiting_reason == Some("ContainerCreating"@)),
    ensures
        !scan(states, ns, targets, pods).1.dom().contains(n),
{
    if scan(states, ns, targets, pods).1.dom().contains(n) {
        law_alert_describes_pod(states, ns, targets, pods, n);
        let j = choose|j: int|
            #![trigger pods[j]]
            0 <= j < pods.len() && pods[j].name == n && exists|i: int|
                0 <= i < pods[j].containers.len() && !(
                #[trigger] pods[j].containers[i].waiting_reason == Some("Running"@)
                    || pods[j].containers[i].waiting_reason == Some("Succeeded"@)
                    || pods[j].containers[i].waiting_reason == Some("ContainerCreating"@));
        let i = choose|i: int|
            0 <= i < pods[j].containers.len() && !(
            #[trigger] pods[j].containers[i].waiting_reason == Some("Running"@)
                || pods[j].containers[i].waiting_reason == Some("Succeeded"@)
                || pods[j].containers[i].waiting_reason == Some("ContainerCreating"@));
        assert(false);
    }
}

/// A pod is reported only when its phase differs from the one recorded for it before the
/// scan (pod names being distinct).
pub proof fn law_alert_only_on_phase_change(
    states: Map<Seq<char>, Map<Seq<char>, Seq<char>>>,
    ns: Seq<char>,
    targets: Seq<Seq<char>>,
    pods: Seq<PodView>,
    j: int,
)
    requires
        names_distinct(pods),
        0 <= j < pods.len(),
        scan(states, ns, targets, pods).1.dom().contains(pods[j].name),
    ensures
        !(states.dom().contains(ns) && states[ns].dom().contains(pods[j].name) && states[ns][pods[j].name]
            == pods[j].phase),
{
    let n = pods[j].name;
    let known = recorded(states, ns);
    let k = lemma_alert_origin(known, targets, pods, n);
    if k != j {
        if k < j {
            assert(pods[k].name != pods[j].name);
        } else {
            assert(pods[j].name != pods[k].name);
        }
    }
    let pre = pods.take(j);
    assert(!lists(pre, n)) by {
        if lists(pre, n) {
            let m = choose|m: int| 0 <= m < pre.len() && (#[trigger] pre[m]).name == n;
            assert(pods[m].name == pods[j].name);
        }
    }
    lemma_other_pods_keep_record(known, targets, pre, n);
}

/// A watched pod (the targets are empty or name it) whose phase is not `Running`, differs
/// from the one recorded for it, and has a container that does not wait with reason
/// `Running`, `Succeeded` or `ContainerCreating`, is reported with its own description
/// (pod names being distinct).
pub proof fn law_changed_troubled_pod_alerts(
    states: Map<Seq<char>, Map<Seq<char>, Seq<char>>>,
    ns: Seq<char>,
    targets: Seq<Seq<char>>,
    pods: Seq<PodView>,
    j: int,
    i: int,
)
    requires
        names_distinct(pods),
        0 <= j < pods.len(),
        targets.len() == 0 || targets.contains(pods[j].name),
        pods[j].phase != "Running"@,
        !(states.dom().contains(ns) && states[ns].dom().contains(pods[j].name) && states[ns][pods[j].name]
            == pods[j].phase),
        0 <= i < pods[j].containers.len(),
        !(pods[j].containers[i].waiting_reason == Some("Running"@) || pods[j].containers[i].waiting_reason
            == Some("Succeeded"@) || pods[j].containers[i].waiting_reason == Some("ContainerCreating"@)),
    ensures
        scan(states, ns, targets, pods).1.dom().contains(pods[j].name),
        scan(states, ns, targets, pods).1[pods[j].name] == alert_for(pods[j]),
{
    let known = recorded(states, ns);
    let n = pods[j].name;
    let p = pods[j];
    let pre = pods.take(j);
    assert(!lists(pre, n)) by {
        if lists(pre, n) {
            let m = choose|m: int| 0 <= m < pre.len() && (#[trigger] pre[m]).name == n;
            assert(pods[m].name == pods[j].name);
        }
    }
    lemma_other_pods_keep_record(known, targets, pre, n);
    let rs = container_reasons(p);
    assert(rs[i] == crate::monitor::reason_text(p.containers[i]));
    reveal_strlit("None");
    reveal_strlit("Running");
    reveal_strlit("Succeeded");
    reveal_strlit("ContainerCreating");
    assert(!crate::monitor::is_settled_reason(rs[i]));
    assert(any_unsettled(rs));
    assert(is_watched(targets, n));
    assert(pods.take(j + 1).drop_last() =~= pre);
    assert(pods.take(j + 1).last() == pods[j]);
    lemma_alert_kept(known, targets, pods, j);
}

/// After a scan, a listed pod none of whose containers waits with reason
/// `ContainerCreating` has its phase recorded (pod names being distinct).
pub proof fn law_phase_recorded_unless_creating(
    states: Map<Seq<char>, Map<Seq<char>, Seq<char>>>,
    ns: Seq<char>,
    targets: Seq<Seq<char>>,
    pods: Seq<PodView>,
    j: int,
)
    requires
        names_distinct(pods),
        0 <= j < pods.len(),
        forall|i: int|
            0 <= i < pods[j].containers.len() ==> #[trigger] pods[j].containers[i].waiting_reason != Some(
                "ContainerCreating"@,
            ),
    ensures
        scan(states, ns, targets, pods).0[ns].dom().contains(pods[j].name),
        scan(states, ns, targets, pods).0[ns][pods[j].name] == pods[j].phase,
{
    let p = pods[j];
    if is_creating(p) {
        let rs = container_reasons(p);
        let i = choose|i: int| 0 <= i < rs.len() && rs[i] == "ContainerCreating"@;
        assert(rs[i] == crate::monitor::reason_text(p.containers[i]));
        reveal_strlit("None");
        reveal_strlit("ContainerCreating");
        assert(p.containers[i].waiting_reason != Some("ContainerCreating"@));
        assert(false);
    }
    law_phase_recorded(states, ns, targets, pods, j);
}

/// A pod one of whose containers waits with reason `ContainerCreating` keeps, after the scan,
/// the phase recorded for it before (pod names being distinct).
pub proof fn law_creating_pod_keeps_record(
    states: Map<Seq<char>, Map<Seq<char>, Seq<char>>>,
    ns: Seq<char>,
    targets: Seq<Seq<char>>,
    pods: Seq<PodView>,
    j: int,
    i: int,
)
    requires
        names_distinct(pods),
        0 <= j < pods.len(),
        0 <= i < pods[j].containers.len(),
        pods[j].containers[i].waiting_reason == Some("ContainerCreating"@),
    ensures
        scan(states, ns, targets, pods).0[ns].dom().contains(pods[j].name) == (states.dom().contains(ns)
            && states[ns].dom().contains(pods[j].name)),
        states.dom().contains(ns) && states[ns].dom().contains(pods[j].name) ==> scan(
            states,
            ns,
            targets,
            pods,
        ).0[ns][pods[j].name] == states[ns][pods[j].name],
{
    let n = pods[j].name;
    let known = recorded(states, ns);
    let rs = container_reasons(pods[j]);
    assert(rs[i] == crate::monitor::reason_text(pods[j].containers[i]));
    assert(is_creating(pods[j]));
    assert forall|k: int| 0 <= k < pods.len() && (#[trigger] pods[k]).name == n implies is_creating(
        pods[k],
    ) by {
        if k != j {
            if k < j {
                assert(pods[k].name != pods[j].name);
            } else {
                assert(pods[j].name != pods[k].name);
            }
        }
    }
    lemma_creating_pods_keep_record(known, targets, pods, n);
    assert(names_in(pods).contains(n));
}

} // verus!
