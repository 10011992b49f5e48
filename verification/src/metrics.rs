//! Metric label shaping.
//!
//! The counters and gauges themselves, and their text encoding, live in the
//! application; what the library pins down is how a request or a VM
//! operation is turned into a label set.

use vstd::prelude::*;

verus! {

/// The labels a request or operation is counted under.
#[derive(Clone, Debug)]
pub struct ApiLabels {
    pub method: String,
    pub endpoint: String,
    pub status: String,
}

/// The labels for one HTTP request.
pub fn request_labels(method: &str, endpoint: &str, status: &str) -> (l: ApiLabels)
    ensures
        l.method@ == method@,
        l.endpoint@ == endpoint@,
        l.status@ == status@,
{
    ApiLabels {
        method: String::from_str(method),
        endpoint: String::from_str(endpoint),
        status: String::from_str(status),
    }
}

/// The labels for one VM operation: counted under the `VM` method with the
/// operation as the endpoint.
pub fn vm_operation_labels(operation: &str, status: &str) -> (l: ApiLabels)
    ensures
        l.method@ == "VM"@,
        l.endpoint@ == operation@,
        l.status@ == status@,
{
    ApiLabels {
        method: String::from_str("VM"),
        endpoint: String::from_str(operation),
        status: String::from_str(status),
    }
}

} // verus!
