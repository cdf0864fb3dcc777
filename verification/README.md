# podmonitor

A Kubernetes operator that watches the pods of a namespace on behalf of `PodMonitor`
resources (`kk.dev/v1`) and sends an alert, by mail and/or webhook, when a pod gets into
trouble. The decisions are a Verus-verified library; the operator around it is plain Rust.

- `src/crd.rs`: the resource's specification and its accessors.
- `src/str_map.rs`: a map keyed by strings, with distinct keys as its type invariant.
- `src/monitor.rs`: the pod scan: which pods raise an alert, and which phases are recorded
  between scans; `src/monitor_laws.rs` proves what every scan keeps.
- `src/reconcile.rs`: what one reconciliation of a resource does, and when it requeues.
- `src/notify.rs`: how an alert mail is planned and composed, and which SMTP transport carries it.
- `src/mail.rs`: the lettre mailboxes and messages, each kept together with the text it came from.
- `src/finalizer.rs`: the merge patches that add and remove the operator's finalizer.
- `app/`: the operator itself: the controller loop, the Kubernetes, SMTP and HTTP calls.
