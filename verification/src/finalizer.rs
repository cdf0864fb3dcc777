use vstd::prelude::*;

verus! {

/// The name of the finalizer that the operator puts on its resources.
pub open spec fn finalizer_text() -> Seq<char> {
    "podmonitors.kk.dev/finalizer"@
}

/// A JSON merge patch of a resource's metadata that sets its list of finalizers
/// (`None` clears it).
#[derive(Debug, Clone, PartialEq)]
pub struct FinalizerPatch {
    pub finalizers: Option<Vec<String>>,
}

pub fn finalizer_name() -> (s: String)
    ensures
        s@ == finalizer_text(),
        s@ == "podmonitors.kk.dev/finalizer"@,
{
    String::from_str("podmonitors.kk.dev/finalizer")
}

/// The patch that puts the operator's finalizer, and only it, on a resource.
pub fn add_patch() -> (p: FinalizerPatch)
    ensures
        p.finalizers is Some,
        p.finalizers->0@.len() == 1,
        p.finalizers->0@[0]@ == finalizer_text(),
        p.finalizers->0@[0]@ == "podmonitors.kk.dev/finalizer"@,
{
    let mut finalizers: Vec<String> = Vec::new();
    finalizers.push(finalizer_name());
    FinalizerPatch { finalizers: Some(finalizers) }
}

/// The patch that clears the finalizers of a resource.
pub fn delete_patch() -> (p: FinalizerPatch)
    ensures
        p.finalizers is None,
{
    FinalizerPatch { finalizers: None }
}

} // verus!
