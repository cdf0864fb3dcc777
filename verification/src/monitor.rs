use vstd::prelude::*;
use crate::str_map::StrMap;

verus! {

/// What a scan saw of one container of a pod.
#[derive(Debug, Clone, PartialEq)]
pub struct ContainerReport {
    /// The container is in the running state.
    pub running: bool,
    /// The reason given by the container's waiting state, where it is waiting.
    pub waiting_reason: Option<String>,
}

/// What a scan saw of one pod: its name, its containers and its phase.
#[derive(Debug, Clone, PartialEq)]
pub struct PodReport {
    pub name: String,
    pub containers: Vec<ContainerReport>,
    pub phase: String,
}

/// The alert raised for a pod: the status and reason of each container, and the pod's phase.
#[derive(Debug, Clone, PartialEq)]
pub struct PodAlert {
    pub container_statuses: Vec<String>,
    pub container_reasons: Vec<String>,
    pub phase: String,
}

pub struct ContainerView {
    pub running: bool,
    pub waiting_reason: Option<Seq<char>>,
}

pub struct PodView {
    pub name: Seq<char>,
    pub containers: Seq<ContainerView>,
    pub phase: Seq<char>,
}

pub struct AlertView {
    pub statuses: Seq<Seq<char>>,
    pub reasons: Seq<Seq<char>>,
    pub phase: Seq<char>,
}

/// The characters of each string of a list.
pub open spec fn texts(v: Seq<String>) -> Seq<Seq<char>> {
    v.map_values(|s: String| s@)
}

impl View for ContainerReport {
    type V = ContainerView;

    open spec fn view(&self) -> ContainerView {
        ContainerView {
            running: self.running,
            waiting_reason: match self.waiting_reason {
                Some(r) => Some(r@),
                None => None,
            },
        }
    }
}

impl View for PodReport {
    type V = PodView;

    open spec fn view(&self) -> PodView {
        PodView {
            name: self.name@,
            containers: self.containers@.map_values(|c: ContainerReport| c@),
            phase: self.phase@,
        }
    }
}

impl View for PodAlert {
    type V = AlertView;

    open spec fn view(&self) -> AlertView {
        AlertView {
            statuses: texts(self.container_statuses@),
            reasons: texts(self.container_reasons@),
            phase: self.phase@,
        }
    }
}

/// The phases last recorded per namespace and pod: namespace -> pod name -> phase.
pub type PodStates = StrMap<StrMap<String>>;

/// The status text of a container: whether it runs.
pub open spec fn status_text(c: ContainerView) -> Seq<char> {
    if c.running {
        "Running"@
    } else {
        "Not Running"@
    }
}

/// The reason text of a container: its waiting reason, or `None` where it is not waiting.
pub open spec fn reason_text(c: ContainerView) -> Seq<char> {
    match c.waiting_reason {
        Some(r) => r,
        None => "None"@,
    }
}

pub open spec fn container_statuses(p: PodView) -> Seq<Seq<char>> {
    p.containers.map_values(|c: ContainerView| status_text(c))
}

pub open spec fn container_reasons(p: PodView) -> Seq<Seq<char>> {
    p.containers.map_values(|c: ContainerView| reason_text(c))
}

/// Reasons that by themselves raise no alert.
pub open spec fn is_settled_reason(r: Seq<char>) -> bool {
    r == "Running"@ || r == "Succeeded"@ || r == "ContainerCreating"@
}

/// Some reason of the list is not a settled one.
pub open spec fn any_unsettled(rs: Seq<Seq<char>>) -> bool {
    exists|i: int| 0 <= i < rs.len() && !is_settled_reason(#[trigger] rs[i])
}

/// Some container of the pod is still being created.
pub open spec fn is_creating(p: PodView) -> bool {
    container_reasons(p).contains("ContainerCreating"@)
}

/// The pod is watched: the list of target pods is empty, or names it.
pub open spec fn is_watched(targets: Seq<Seq<char>>, name: Seq<char>) -> bool {
    targets.len() == 0 || targets.contains(name)
}

/// The pod is in trouble, and its phase is not the one recorded for it.
pub open spec fn calls_for_alert(known: Map<Seq<char>, Seq<char>>, p: PodView) -> bool {
    &&& any_unsettled(container_reasons(p))
    &&& p.phase != "Running"@
    &&& !(known.dom().contains(p.name) && known[p.name] == p.phase)
}

pub open spec fn alert_for(p: PodView) -> AlertView {
    AlertView { statuses: container_statuses(p), reasons: container_reasons(p), phase: p.phase }
}

/// One pod of a scan: the alert it raises, and the phase recorded for it
/// (unless one of its containers is still being created).
pub open spec fn observe(
    known: Map<Seq<char>, Seq<char>>,
    alerts: Map<Seq<char>, AlertView>,
    targets: Seq<Seq<char>>,
    p: PodView,
) -> (Map<Seq<char>, Seq<char>>, Map<Seq<char>, AlertView>) {
    let alerts2 = if calls_for_alert(known, p) && is_watched(targets, p.name) {
        alerts.insert(p.name, alert_for(p))
    } else {
        alerts
    };
    let known2 = if !is_creating(p) {
        known.insert(p.name, p.phase)
    } else {
        known
    };
    (known2, alerts2)
}

/// The pods of a scan, one after the other, from the recorded phases `known`.
pub open spec fn observe_all(
    known: Map<Seq<char>, Seq<char>>,
    targets: Seq<Seq<char>>,
    pods: Seq<PodView>,
) -> (Map<Seq<char>, Seq<char>>, Map<Seq<char>, AlertView>)
    decreases pods.len(),
{
    if pods.len() == 0 {
        (known, Map::empty())
    } else {
        let prev = observe_all(known, targets, pods.drop_last());
        observe(prev.0, prev.1, targets, pods.last())
    }
}

/// The names of the pods of a list.
pub open spec fn names_in(pods: Seq<PodView>) -> Set<Seq<char>> {
    Set::new(|n: Seq<char>| exists|j: int| 0 <= j < pods.len() && (#[trigger] pods[j]).name == n)
}

/// The phases recorded for a namespace, empty where there are none.
pub open spec fn recorded(states: Map<Seq<char>, Map<Seq<char>, Seq<char>>>, ns: Seq<char>) -> Map<
    Seq<char>,
    Seq<char>,
> {
    if states.dom().contains(ns) {
        states[ns]
    } else {
        Map::empty()
    }
}

/// The outcome of scanning namespace `ns`: the recorded phases after it (the pods
/// no longer listed are forgotten), and the alerts raised, keyed by pod name.
pub open spec fn scan(
    states: Map<Seq<char>, Map<Seq<char>, Seq<char>>>,
    ns: Seq<char>,
    targets: Seq<Seq<char>>,
    pods: Seq<PodView>,
) -> (Map<Seq<char>, Map<Seq<char>, Seq<char>>>, Map<Seq<char>, AlertView>) {
    let outcome = observe_all(recorded(states, ns), targets, pods);
    (states.insert(ns, outcome.0.restrict(names_in(pods))), outcome.1)
}

pub open spec fn pods_view(pods: Seq<PodReport>) -> Seq<PodView> {
    pods.map_values(|p: PodReport| p@)
}

/// The status and reason texts of the containers of a pod.
fn describe_containers(pod: &PodReport) -> (r: (Vec<String>, Vec<String>))
    ensures
        texts(r.0@) == container_statuses(pod@),
        texts(r.1@) == container_reasons(pod@),
{
    let mut statuses: Vec<String> = Vec::new();
    let mut reasons: Vec<String> = Vec::new();
    let n = pod.containers.len();
    for i in 0..n
        invariant
            n == pod.containers@.len(),
            statuses@.len() == i,
            reasons@.len() == i,
            forall|k: int| 0 <= k < i ==> #[trigger] statuses@[k]@ == status_text(pod.containers@[k]@),
            forall|k: int| 0 <= k < i ==> #[trigger] reasons@[k]@ == reason_text(pod.containers@[k]@),
    {
        let c = &pod.containers[i];
        if c.running {
            statuses.push(String::from_str("Running"));
        } else {
            statuses.push(String::from_str("Not Running"));
        }
        match &c.waiting_reason {
            Some(r) => reasons.push(r.clone()),
            None => reasons.push(String::from_str("None")),
        }
    }
    assert(texts(statuses@) =~= container_statuses(pod@));
    assert(texts(reasons@) =~= container_reasons(pod@));
    (statuses, reasons)
}

/// Whether the reason is one that by itself raises no alert.
fn is_settled(r: &String) -> (b: bool)
    ensures
        b == is_settled_reason(r@),
{
    *r == String::from_str("Running") || *r == String::from_str("Succeeded") || *r
        == String::from_str("ContainerCreating")
}

/// Whether some reason of the list is not a settled one.
fn has_unsettled(reasons: &Vec<String>) -> (b: bool)
    ensures
        b == any_unsettled(texts(reasons@)),
{
    let n = reasons.len();
    for i in 0..n
        invariant
            n == reasons@.len(),
            forall|k: int| 0 <= k < i ==> is_settled_reason(#[trigger] texts(reasons@)[k]),
    {
        if !is_settled(&reasons[i]) {
            assert(!is_settled_reason(texts(reasons@)[i as int]));
            return true;
        }
    }
    false
}

/// Whether the list holds a string with the characters of `s`.
fn contains_text(v: &Vec<String>, s: &String) -> (b: bool)
    ensures
        b == texts(v@).contains(s@),
{
    let n = v.len();
    for i in 0..n
        invariant
            n == v@.len(),
            forall|k: int| 0 <= k < i ==> #[trigger] texts(v@)[k] != s@,
    {
        if v[i] == *s {
            assert(texts(v@)[i as int] == s@);
            return true;
        }
    }
    false
}

/// Scans the pods listed in namespace `namespace`: raises an alert for each watched pod
/// in trouble whose phase differs from the one recorded for it, records the phase of
/// each pod none of whose containers is being created, and forgets the pods that are
/// no longer listed. The alerts are keyed by pod name.
pub fn monitor_pods_in_namespace(
    states: &mut PodStates,
    namespace: &String,
    pods: &Vec<PodReport>,
    monitored_pods: &Vec<String>,
) -> (alerts: StrMap<PodAlert>)
    ensures
        final(states)@ == scan(old(states)@, namespace@, texts(monitored_pods@), pods_view(pods@)).0,
        alerts@ == scan(old(states)@, namespace@, texts(monitored_pods@), pods_view(pods@)).1,
{
    let ghost targets = texts(monitored_pods@);
    let ghost pv = pods_view(pods@);
    let mut known = match states.remove(namespace) {
        Some(m) => m,
        None => StrMap::new(),
    };
    let ghost known0 = known@;
    assert(known0 == recorded(old(states)@, namespace@));
    let mut alerts: StrMap<PodAlert> = StrMap::new();
    let running = String::from_str("Running");
    let creating = String::from_str("ContainerCreating");
    let n = pods.len();
    assert(pv.take(0) =~= Seq::<PodView>::empty());
    for i in 0..n
        invariant
            n == pods@.len(),
            pv == pods_view(pods@),
            targets == texts(monitored_pods@),
            running@ == "Running"@,
            creating@ == "ContainerCreating"@,
            (known@, alerts@) == observe_all(known0, targets, pv.take(i as int)),
    {
        let pod = &pods[i];
        let (statuses, reasons) = describe_containers(pod);
        let unsettled = has_unsettled(&reasons);
        let same_phase = match known.get(&pod.name) {
            Some(phase) => *phase == pod.phase,
            None => false,
        };
        let watched = monitored_pods.len() == 0 || contains_text(monitored_pods, &pod.name);
        let is_creating_pod = contains_text(&reasons, &creating);
        if unsettled && !(pod.phase == running) && !same_phase && watched {
            let alert = PodAlert {
                container_statuses: statuses,
                container_reasons: reasons,
                phase: pod.phase.clone(),
            };
            alerts.insert(pod.name.clone(), alert);
        }
        if !is_creating_pod {
            known.insert(pod.name.clone(), pod.phase.clone());
        }
        proof {
            assert(pv.take(i + 1).drop_last() =~= pv.take(i as int));
            assert(pv[i as int] == pod@);
        }
    }
    assert(pv.take(n as int) =~= pv);
    let ghost outcome = observe_all(known0, targets, pv);
    let mut kept: StrMap<String> = StrMap::new();
    for i in 0..n
        invariant
            n == pods@.len(),
            pv == pods_view(pods@),
            known@ == outcome.0,
            kept@ == outcome.0.restrict(names_in(pv.take(i as int))),
    {
        let name = &pods[i].name;
        proof {
            assert(pv[i as int].name == name@);
            assert(names_in(pv.take(i + 1)) =~= names_in(pv.take(i as int)).insert(name@)) by {
                assert forall|x: Seq<char>| names_in(pv.take(i + 1)).contains(x)
                    <==> names_in(pv.take(i as int)).insert(name@).contains(x) by {
                    if names_in(pv.take(i + 1)).contains(x) {
                        let j = choose|j: int| 0 <= j < i + 1 && (#[trigger] pv.take(i + 1)[j]).name == x;
                        if j < i {
                            assert(pv.take(i as int)[j].name == x);
                        }
                    }
                    if names_in(pv.take(i as int)).contains(x) {
                        let j = choose|j: int| 0 <= j < i && (#[trigger] pv.take(i as int)[j]).name == x;
                        assert(pv.take(i + 1)[j].name == x);
                    }
                    if x == name@ {
                        assert(pv.take(i + 1)[i as int].name == x);
                    }
                }
            }
        }
        match known.get(name) {
            Some(phase) => {
                kept.insert(name.clone(), phase.clone());
            },
            None => {},
        }
        assert(kept@ =~= outcome.0.restrict(names_in(pv.take(i + 1))));
    }
    assert(pv.take(n as int) =~= pv);
    states.insert(namespace.clone(), kept);
    proof {
        assert(final(states)@ =~= scan(old(states)@, namespace@, targets, pv).0);
    }
    alerts
}

} // verus!
