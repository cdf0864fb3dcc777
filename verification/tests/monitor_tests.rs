use podmonitor::monitor::{monitor_pods_in_namespace, ContainerReport, PodAlert, PodReport, PodStates};
use podmonitor::str_map::StrMap;

fn waiting(reason: &str) -> ContainerReport {
    ContainerReport { running: false, waiting_reason: Some(reason.to_string()) }
}

fn running() -> ContainerReport {
    ContainerReport { running: true, waiting_reason: None }
}

fn stopped() -> ContainerReport {
    ContainerReport { running: false, waiting_reason: None }
}

fn pod(name: &str, containers: Vec<ContainerReport>, phase: &str) -> PodReport {
    PodReport { name: name.to_string(), containers, phase: phase.to_string() }
}

fn s(x: &str) -> String {
    x.to_string()
}

fn alerts_of(m: StrMap<PodAlert>) -> Vec<(String, PodAlert)> {
    let mut v = m.into_entries();
    v.sort_by(|a, b| a.0.cmp(&b.0));
    v
}

fn phase_of(states: &PodStates, ns: &str, pod: &str) -> Option<String> {
    states.get(&s(ns)).and_then(|m| m.get(&s(pod)).cloned())
}

#[test]
fn crashing_pod_is_reported_once() {
    let mut states: PodStates = StrMap::new();
    let pods = vec![pod("web", vec![waiting("CrashLoopBackOff")], "Pending")];
    let alerts = alerts_of(monitor_pods_in_namespace(&mut states, &s("apps"), &pods, &vec![]));
    assert_eq!(alerts.len(), 1);
    assert_eq!(alerts[0].0, "web");
    assert_eq!(alerts[0].1.container_statuses, vec![s("Not Running")]);
    assert_eq!(alerts[0].1.container_reasons, vec![s("CrashLoopBackOff")]);
    assert_eq!(alerts[0].1.phase, "Pending");
    assert_eq!(phase_of(&states, "apps", "web"), Some(s("Pending")));

    let again = monitor_pods_in_namespace(&mut states, &s("apps"), &pods, &vec![]);
    assert_eq!(again.len(), 0);
}

#[test]
fn new_phase_is_reported_again() {
    let mut states: PodStates = StrMap::new();
    let first = vec![pod("job", vec![waiting("ErrImagePull")], "Pending")];
    monitor_pods_in_namespace(&mut states, &s("apps"), &first, &vec![]);
    let second = vec![pod("job", vec![stopped()], "Failed")];
    let alerts = alerts_of(monitor_pods_in_namespace(&mut states, &s("apps"), &second, &vec![]));
    assert_eq!(alerts.len(), 1);
    assert_eq!(alerts[0].1.container_reasons, vec![s("None")]);
    assert_eq!(alerts[0].1.phase, "Failed");
    assert_eq!(phase_of(&states, "apps", "job"), Some(s("Failed")));
}

#[test]
fn running_phase_is_never_reported() {
    let mut states: PodStates = StrMap::new();
    let pods = vec![pod("web", vec![waiting("CrashLoopBackOff")], "Running")];
    let alerts = monitor_pods_in_namespace(&mut states, &s("apps"), &pods, &vec![]);
    assert_eq!(alerts.len(), 0);
    assert_eq!(phase_of(&states, "apps", "web"), Some(s("Running")));
}

#[test]
fn settled_reasons_are_not_reported() {
    let mut states: PodStates = StrMap::new();
    let pods = vec![pod("done", vec![waiting("Succeeded"), waiting("Running")], "Succeeded")];
    let alerts = monitor_pods_in_namespace(&mut states, &s("apps"), &pods, &vec![]);
    assert_eq!(alerts.len(), 0);
}

#[test]
fn container_without_waiting_state_counts_as_unsettled() {
    let mut states: PodStates = StrMap::new();
    let pods = vec![pod("batch", vec![running()], "Succeeded")];
    let alerts = alerts_of(monitor_pods_in_namespace(&mut states, &s("apps"), &pods, &vec![]));
    assert_eq!(alerts.len(), 1);
    assert_eq!(alerts[0].1.container_statuses, vec![s("Running")]);
    assert_eq!(alerts[0].1.container_reasons, vec![s("None")]);
}

#[test]
fn pod_without_containers_is_not_reported() {
    let mut states: PodStates = StrMap::new();
    let pods = vec![pod("empty", vec![], "Pending")];
    let alerts = monitor_pods_in_namespace(&mut states, &s("apps"), &pods, &vec![]);
    assert_eq!(alerts.len(), 0);
    assert_eq!(phase_of(&states, "apps", "empty"), Some(s("Pending")));
}

#[test]
fn creating_pod_is_not_recorded_and_reported_each_scan() {
    let mut states: PodStates = StrMap::new();
    let pods = vec![pod("boot", vec![waiting("ContainerCreating"), waiting("ImagePullBackOff")], "Pending")];
    let a1 = monitor_pods_in_namespace(&mut states, &s("apps"), &pods, &vec![]);
    assert_eq!(a1.len(), 1);
    assert_eq!(phase_of(&states, "apps", "boot"), None);
    let a2 = monitor_pods_in_namespace(&mut states, &s("apps"), &pods, &vec![]);
    assert_eq!(a2.len(), 1);
}

#[test]
fn only_target_pods_are_reported_but_all_are_recorded() {
    let mut states: PodStates = StrMap::new();
    let pods = vec![
        pod("web", vec![waiting("CrashLoopBackOff")], "Pending"),
        pod("db", vec![waiting("CrashLoopBackOff")], "Pending"),
    ];
    let alerts = alerts_of(monitor_pods_in_namespace(&mut states, &s("apps"), &pods, &vec![s("db")]));
    assert_eq!(alerts.len(), 1);
    assert_eq!(alerts[0].0, "db");
    assert_eq!(phase_of(&states, "apps", "web"), Some(s("Pending")));
    assert_eq!(phase_of(&states, "apps", "db"), Some(s("Pending")));
}

#[test]
fn vanished_pods_are_forgotten_and_other_namespaces_kept() {
    let mut states: PodStates = StrMap::new();
    let other = vec![pod("cache", vec![running()], "Running")];
    monitor_pods_in_namespace(&mut states, &s("infra"), &other, &vec![]);
    let pods = vec![pod("a", vec![running()], "Running"), pod("b", vec![running()], "Running")];
    monitor_pods_in_namespace(&mut states, &s("apps"), &pods, &vec![]);
    assert_eq!(phase_of(&states, "apps", "b"), Some(s("Running")));
    let fewer = vec![pod("a", vec![running()], "Running")];
    monitor_pods_in_namespace(&mut states, &s("apps"), &fewer, &vec![]);
    assert_eq!(phase_of(&states, "apps", "a"), Some(s("Running")));
    assert_eq!(phase_of(&states, "apps", "b"), None);
    assert_eq!(phase_of(&states, "infra", "cache"), Some(s("Running")));
}

#[test]
fn scanning_an_empty_namespace_records_it() {
    let mut states: PodStates = StrMap::new();
    let alerts = monitor_pods_in_namespace(&mut states, &s("quiet"), &vec![], &vec![]);
    assert_eq!(alerts.len(), 0);
    assert!(states.contains_key(&s("quiet")));
    assert_eq!(states.get(&s("quiet")).map(|m| m.len()), Some(0));
}
