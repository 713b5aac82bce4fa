//! Routing of raw runtime events.
//!
//! A normalised event is routed by its type, its action, and whether it
//! carries a pod-name attribute: container OOM events with a pod name are
//! remediated per pod, container OOM events without one fall into the
//! catch-all bucket, and everything else is treated as unclassified noise
//! to be rate-limited only.

use vstd::prelude::*;

verus! {

/// Which handler one runtime event goes to.
#[derive(Clone, Copy, Debug, PartialEq, Eq, Structural)]
pub enum Route {
    /// A container OOM carrying a pod name: remediation scoped per pod.
    AnticipatedOom,
    /// A container OOM outside the orchestrator: the catch-all bucket.
    OtherOom,
    /// Any other runtime event: rate-limited, never killed.
    OtherPanic,
}

/// The routing rule over the event's type, action, and whether a pod-name
/// attribute is present.
pub open spec fn spec_classify(typ: Seq<char>, action: Seq<char>, has_pod_name: bool) -> Route {
    if typ == "container"@ && action == "oom"@ {
        if has_pod_name {
            Route::AnticipatedOom
        } else {
            Route::OtherOom
        }
    } else {
        Route::OtherPanic
    }
}

/// Route one normalised runtime event.
pub fn classify(typ: &String, action: &String, has_pod_name: bool) -> (r: Route)
    ensures
        r == spec_classify(typ@, action@, has_pod_name),
{
    let t_container: String = String::from_str("container");
    let a_oom: String = String::from_str("oom");
    if *typ == t_container && *action == a_oom {
        if has_pod_name {
            Route::AnticipatedOom
        } else {
            Route::OtherOom
        }
    } else {
        Route::OtherPanic
    }
}

} // verus!
