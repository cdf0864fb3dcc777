//! Verified core of the PodMonitor operator: the custom resource model,
//! the pod-state tracking that decides which pods to alert on, and the
//! decisions the reconciler takes for each resource.

pub mod crd;
pub mod str_map;
pub mod monitor;
pub mod reconcile;
pub mod mail;
pub mod notify;
pub mod finalizer;
pub mod monitor_laws;
