//! Request types of the promote feature: submitting a validated
//! action to the external platform. The core only carries these
//! values; the submission itself lives outside the engine.

use vstd::prelude::*;

verus! {

/// How the target workflow action is selected on the platform.
#[derive(Clone, Debug)]
pub struct PromoteSelector {
    pub selector_type: String,
    pub value: String,
}

/// A request to promote a validated action into a platform workflow.
#[derive(Clone, Debug)]
pub struct PromoteRequest {
    pub hubspot_token: String,
    pub workflow_id: String,
    pub selector: PromoteSelector,
    pub runtime: Option<String>,
    pub source_code: String,
    pub force: bool,
    pub dry_run: bool,
}

} // verus!
