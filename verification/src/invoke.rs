//! Decisions of the action invoker: which runtime and adapter serve a
//! given entry, the exact argument order of the invocation protocol,
//! and how one finished subprocess is classified into a hard failure,
//! a soft failure or a success.

use vstd::prelude::*;

use vstd::string::StringExecFns;

use crate::config::Config;
use crate::error::EngineError;
use crate::jsontext::{json_ok_field_of, json_well_formed, read_json_ok_field, trim_of, trim_str};
use crate::metrics::InvocationMetrics;
use crate::text::{
    ascii_lower_seq, ascii_lowercase, entry_matches_js, entry_matches_python, ext_seq,
    extension_of, is_js_entry, is_python_entry,
};

verus! {

/// The runtime a given entry dispatches to, by extension.
#[derive(Clone, Copy, Debug, PartialEq, Eq, Structural)]
pub enum RuntimeKind {
    Python,
    Node,
    Unsupported,
}

/// The runtime an entry's extension names: `.py` is Python,
/// `.js`/`.mjs`/`.cjs` is Node, anything else is unsupported.
pub open spec fn spec_runtime_kind(entry: Seq<char>) -> RuntimeKind {
    if is_python_entry(entry) {
        RuntimeKind::Python
    } else if is_js_entry(entry) {
        RuntimeKind::Node
    } else {
        RuntimeKind::Unsupported
    }
}

/// Resolve an entry path to its runtime. All extension knowledge sits
/// here and in the validation predicates.
pub fn resolve_runtime(entry: &str) -> (r: RuntimeKind)
    ensures
        r == spec_runtime_kind(entry@),
{
    if entry_matches_python(entry) {
        RuntimeKind::Python
    } else if entry_matches_js(entry) {
        RuntimeKind::Node
    } else {
        RuntimeKind::Unsupported
    }
}

/// Everything the caller needs to spawn one invocation: the runtime
/// binary, the adapter file to write beside the action, and the entry.
#[derive(Clone, Debug)]
pub struct InvocationPlan {
    pub runtime_binary: String,
    pub adapter_file_name: String,
    pub entry: String,
}

/// Resolve a configuration into an invocation plan, or the hard
/// failure that forbids spawning anything: a missing action, or an
/// entry whose extension names no supported runtime.
pub fn plan_invocation(cfg: &Config) -> (r: Result<InvocationPlan, EngineError>)
    ensures
        cfg.action is None ==> r == Err::<InvocationPlan, EngineError>(
            EngineError::Validation { error: crate::error::ValidationError::MissingAction },
        ),
        cfg.action is Some ==> match spec_runtime_kind(cfg.action->Some_0.entry@) {
            RuntimeKind::Python => r is Ok && r->Ok_0.runtime_binary == cfg.runtime.python
                && r->Ok_0.adapter_file_name@ == "hs_python_runner.py"@
                && r->Ok_0.entry == cfg.action->Some_0.entry,
            RuntimeKind::Node => r is Ok && r->Ok_0.runtime_binary == cfg.runtime.node
                && r->Ok_0.adapter_file_name@ == "hs_node_runner.mjs"@
                && r->Ok_0.entry == cfg.action->Some_0.entry,
            RuntimeKind::Unsupported => r is Err && (r->Err_0 matches
                EngineError::UnsupportedActionType { extension }
                && extension@ == ascii_lower_seq(ext_seq(cfg.action->Some_0.entry@))),
        },
{
    let action = match &cfg.action {
        None => {
            return Err(
                EngineError::Validation { error: crate::error::ValidationError::MissingAction },
            );
        },
        Some(a) => a,
    };
    match resolve_runtime(action.entry.as_str()) {
        RuntimeKind::Python => Ok(
            InvocationPlan {
                runtime_binary: cfg.runtime.python.clone(),
                adapter_file_name: String::from_str("hs_python_runner.py"),
                entry: action.entry.clone(),
            },
        ),
        RuntimeKind::Node => Ok(
            InvocationPlan {
                runtime_binary: cfg.runtime.node.clone(),
                adapter_file_name: String::from_str("hs_node_runner.mjs"),
                entry: action.entry.clone(),
            },
        ),
        RuntimeKind::Unsupported => Err(
            EngineError::UnsupportedActionType {
                extension: ascii_lowercase(extension_of(action.entry.as_str()).as_str()),
            },
        ),
    }
}

/// The invocation protocol's argument list, in its fixed order: the
/// adapter script, the action entry, the event file.
pub fn build_invocation_args(adapter_path: &str, entry_path: &str, event_path: &str) -> (r: Vec<
    String,
>)
    ensures
        r@.len() == 3,
        r@[0]@ == adapter_path@,
        r@[1]@ == entry_path@,
        r@[2]@ == event_path@,
{
    let mut args: Vec<String> = Vec::new();
    args.push(String::from_str(adapter_path));
    args.push(String::from_str(entry_path));
    args.push(String::from_str(event_path));
    args
}

/// The verdict the adapter's trimmed standard output carries: `true`
/// only when the document's `ok` member is the boolean `true`; a
/// missing or wrong-typed member counts as failure.
pub open spec fn spec_adapter_verdict(stdout_text: Seq<char>) -> bool {
    json_ok_field_of(trim_of(stdout_text)) == Some(Some(true))
}

/// Classify one finished subprocess. A non-zero exit status or
/// unparseable output is a hard failure; otherwise the result is the
/// adapter's verdict together with the invocation's metrics.
pub fn complete_invocation(
    exit_ok: bool,
    stdout_text: &str,
    duration_ms: u128,
    max_rss_kb: Option<u64>,
) -> (r: Result<(bool, InvocationMetrics), EngineError>)
    ensures
        !exit_ok ==> r == Err::<(bool, InvocationMetrics), EngineError>(
            EngineError::RuntimeExitError,
        ),
        exit_ok && !json_well_formed(trim_of(stdout_text@)) ==> r == Err::<
            (bool, InvocationMetrics),
            EngineError,
        >(EngineError::AdapterOutputError),
        exit_ok && json_well_formed(trim_of(stdout_text@)) ==> r is Ok && r->Ok_0.0
            == spec_adapter_verdict(stdout_text@) && r->Ok_0.1.duration_ms == duration_ms
            && r->Ok_0.1.max_rss_kb == max_rss_kb,
{
    if !exit_ok {
        return Err(EngineError::RuntimeExitError);
    }
    let trimmed = trim_str(stdout_text);
    match read_json_ok_field(trimmed) {
        None => Err(EngineError::AdapterOutputError),
        Some(field) => {
            let verdict = match field {
                Some(b) => b,
                None => false,
            };
            Ok((verdict, InvocationMetrics { duration_ms, max_rss_kb }))
        },
    }
}

} // verus!
