use podmonitor::crd::{PodMonitorSpec, WebHook};
use podmonitor::finalizer::{add_patch, delete_patch, finalizer_name};
use podmonitor::reconcile::{
    determine_action, notify_step, plan_after_scan, plan_reconcile, requeue_after_error, Notifier,
    NotifierOutcome, NotifyAction, NotifyProgress, PodMonitorAction, PodMonitorResource,
    ReconcileError, ReconcilePlan, Requeue,
};

fn spec(targets: Option<Vec<&str>>, webhook: bool) -> PodMonitorSpec {
    PodMonitorSpec {
        name: "monitor".to_string(),
        target_namespace: "apps".to_string(),
        target_pods: targets.map(|v| v.into_iter().map(|s| s.to_string()).collect()),
        mail: None,
        webhook: if webhook { Some(WebHook { url: "http://hook".to_string() }) } else { None },
    }
}

fn resource(
    namespace: Option<&str>,
    deleting: bool,
    finalizers: Option<Vec<&str>>,
    spec: PodMonitorSpec,
) -> PodMonitorResource {
    PodMonitorResource {
        name: "pm".to_string(),
        namespace: namespace.map(|s| s.to_string()),
        deletion_requested: deleting,
        finalizers: finalizers.map(|v| v.into_iter().map(|s| s.to_string()).collect()),
        spec,
    }
}

#[test]
fn action_delete_takes_precedence() {
    let r = resource(Some("apps"), true, Some(vec!["podmonitors.kk.dev/finalizer"]), spec(None, false));
    assert_eq!(determine_action(&r), PodMonitorAction::Delete);
    let r = resource(Some("apps"), true, None, spec(None, false));
    assert_eq!(determine_action(&r), PodMonitorAction::Delete);
}

#[test]
fn action_create_without_finalizers() {
    let r = resource(Some("apps"), false, None, spec(None, false));
    assert_eq!(determine_action(&r), PodMonitorAction::Create);
    let r = resource(Some("apps"), false, Some(vec![]), spec(None, false));
    assert_eq!(determine_action(&r), PodMonitorAction::Create);
}

#[test]
fn action_noop_with_finalizer() {
    let r = resource(Some("apps"), false, Some(vec!["other"]), spec(None, false));
    assert_eq!(determine_action(&r), PodMonitorAction::NoOp);
}

#[test]
fn plan_refuses_missing_namespace() {
    let r = resource(None, false, None, spec(None, false));
    match plan_reconcile(&r) {
        Err(e) => {
            assert_eq!(e, ReconcileError::MissingNamespace);
            assert_eq!(
                e.message(),
                "Pod Monitor Resource is namespaced. Kindly provide namespace for resource"
            );
        }
        Ok(_) => panic!("a resource without namespace must be refused"),
    }
}

#[test]
fn plan_adds_finalizer_then_requeues() {
    let r = resource(Some("apps"), false, None, spec(None, false));
    match plan_reconcile(&r) {
        Ok(ReconcilePlan::AddFinalizer { name, namespace, requeue }) => {
            assert_eq!(name, "pm");
            assert_eq!(namespace, "apps");
            assert_eq!(requeue, Requeue::After { seconds: 10 });
        }
        _ => panic!("expected the finalizer to be added"),
    }
}

#[test]
fn plan_removes_finalizer_then_awaits_change() {
    let r = resource(Some("apps"), true, Some(vec!["podmonitors.kk.dev/finalizer"]), spec(None, false));
    match plan_reconcile(&r) {
        Ok(ReconcilePlan::RemoveFinalizer { name, namespace, requeue }) => {
            assert_eq!(name, "pm");
            assert_eq!(namespace, "apps");
            assert_eq!(requeue, Requeue::AwaitChange);
        }
        _ => panic!("expected the finalizer to be removed"),
    }
}

#[test]
fn plan_monitors_targets() {
    let r = resource(Some("apps"), false, Some(vec!["f"]), spec(Some(vec!["web", "db"]), false));
    match plan_reconcile(&r) {
        Ok(ReconcilePlan::MonitorPods { namespace, target_pods }) => {
            assert_eq!(namespace, "apps");
            assert_eq!(target_pods, vec!["web".to_string(), "db".to_string()]);
        }
        _ => panic!("expected monitoring"),
    }
    let r = resource(Some("apps"), false, Some(vec!["f"]), spec(None, false));
    match plan_reconcile(&r) {
        Ok(ReconcilePlan::MonitorPods { target_pods, .. }) => assert!(target_pods.is_empty()),
        _ => panic!("expected monitoring"),
    }
}

#[test]
fn notifiers_after_scan() {
    let mut s = spec(None, true);
    let (n, q) = plan_after_scan(&s, false);
    assert!(n.is_empty());
    assert_eq!(q, Requeue::After { seconds: 10 });
    let (n, _) = plan_after_scan(&s, true);
    assert_eq!(n, vec![Notifier::Webhook]);
    s.mail = Some(podmonitor::crd::MailDetails {
        smtp_server: "s".to_string(),
        smtp_port: 25,
        to: "a@b".to_string(),
        from: "c@d".to_string(),
        tls: podmonitor::crd::TlsOption::False,
        username: None,
        password: None,
    });
    let (n, _) = plan_after_scan(&s, true);
    assert_eq!(n, vec![Notifier::Email, Notifier::Webhook]);
    s.webhook = None;
    let (n, _) = plan_after_scan(&s, true);
    assert_eq!(n, vec![Notifier::Email]);
}

#[test]
fn error_requeues_after_five_seconds() {
    assert_eq!(requeue_after_error(), Requeue::After { seconds: 5 });
}

#[test]
fn finalizer_patches() {
    assert_eq!(finalizer_name(), "podmonitors.kk.dev/finalizer");
    assert_eq!(add_patch().finalizers, Some(vec!["podmonitors.kk.dev/finalizer".to_string()]));
    assert_eq!(delete_patch().finalizers, None);
}

#[test]
fn notifiers_run_in_order_then_finish() {
    let mut p = NotifyProgress::new(vec![Notifier::Email, Notifier::Webhook], Requeue::After { seconds: 10 });
    assert_eq!(notify_step(&mut p, None), NotifyAction::Run(Notifier::Email));
    assert_eq!(notify_step(&mut p, Some(NotifierOutcome::Delivered)), NotifyAction::Run(Notifier::Webhook));
    assert_eq!(
        notify_step(&mut p, Some(NotifierOutcome::Delivered)),
        NotifyAction::Finish(Requeue::After { seconds: 10 })
    );
}

#[test]
fn failed_notifier_aborts_the_rest() {
    let mut p = NotifyProgress::new(vec![Notifier::Webhook, Notifier::Email], Requeue::After { seconds: 10 });
    assert_eq!(notify_step(&mut p, None), NotifyAction::Run(Notifier::Webhook));
    assert_eq!(notify_step(&mut p, Some(NotifierOutcome::Failed)), NotifyAction::Abort);
    assert_eq!(p.next, 1);
}

#[test]
fn no_notifier_finishes_at_once() {
    let mut p = NotifyProgress::new(vec![], Requeue::After { seconds: 10 });
    assert_eq!(notify_step(&mut p, None), NotifyAction::Finish(Requeue::After { seconds: 10 }));
}
