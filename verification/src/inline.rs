//! The in-memory configuration form: literal source text for the
//! action and each fixture, converted into a filesystem-backed
//! `Config` once those sources are materialized under a workspace
//! root.

use vstd::prelude::*;

use vstd::string::StringExecFns;

use crate::config::{Action, ActionType, Config, ExecutionMode, Runtime, SnapshotConfig};

verus! {

/// The language of an inline action.
#[derive(Clone, Copy, Debug, PartialEq, Eq, Structural)]
pub enum InlineLanguage {
    Js,
    Python,
}

/// An inline action: language, entry path relative to the workspace
/// root, and the literal source text to materialize there.
#[derive(Clone, Debug)]
pub struct InlineAction {
    pub language: InlineLanguage,
    pub entry: String,
    pub source: String,
}

/// A named sample input event, as literal JSON text.
#[derive(Clone, Debug)]
pub struct InlineFixture {
    pub name: String,
    pub source: String,
}

/// Runtime binary names for the inline form.
#[derive(Clone, Debug)]
pub struct InlineRuntime {
    pub node: String,
    pub python: String,
}

/// Snapshot settings for the inline form.
#[derive(Clone, Copy, Debug, PartialEq, Eq, Structural)]
pub struct InlineSnapshots {
    pub enabled: bool,
}

/// An in-memory execution configuration carrying literal sources
/// instead of paths.
#[derive(Clone, Debug)]
pub struct InlineConfig {
    pub version: u32,
    pub action: InlineAction,
    pub fixtures: Vec<InlineFixture>,
    /// Environment variables, in declaration order.
    pub env: Vec<(String, String)>,
    pub runtime: InlineRuntime,
    pub snapshots: InlineSnapshots,
    pub repeat: u32,
}

/// The default node runtime binary name.
pub fn default_node() -> (r: String)
    ensures
        r@ == "node"@,
{
    String::from_str("node")
}

/// The default python runtime binary name.
pub fn default_python() -> (r: String)
    ensures
        r@ == "python"@,
{
    String::from_str("python")
}

/// The default repeat count.
pub fn default_repeat() -> (r: u32)
    ensures
        r == 1,
{
    1
}

/// A relative path anchored under `root`, separated by `/`.
pub open spec fn joined(root: Seq<char>, rel: Seq<char>) -> Seq<char> {
    root + "/"@ + rel
}

/// `root` with `rel` appended after a `/` separator.
pub fn join_under(root: &str, rel: &str) -> (r: String)
    ensures
        r@ == joined(root@, rel@),
{
    String::from_str(root).concat("/").concat(rel)
}

impl InlineConfig {
    /// Convert this inline configuration into a filesystem-backed
    /// `Config` whose paths sit under `root`, where the caller has
    /// materialized the action and fixture sources. Fixture order is
    /// preserved; the resulting mode is `Normal`.
    pub fn into_config(self, root: &str) -> (r: Config)
        ensures
            r.action is Some,
            r.action->Some_0.action_type == (match self.action.language {
                InlineLanguage::Js => ActionType::Js,
                InlineLanguage::Python => ActionType::Python,
            }),
            r.action->Some_0.entry@ == joined(root@, self.action.entry@),
            r.fixtures@.len() == self.fixtures@.len(),
            forall|i: int|
                0 <= i < self.fixtures@.len() ==> #[trigger] r.fixtures@[i]@ == joined(
                    root@,
                    self.fixtures@[i].name@,
                ),
            r.env == self.env,
            r.runtime.node == self.runtime.node,
            r.runtime.python == self.runtime.python,
            r.snapshots.enabled == self.snapshots.enabled,
            r.snapshots.ignore@.len() == 0,
            r.repeat == self.repeat,
            r.mode == ExecutionMode::Normal,
    {
        let action_type = match self.action.language {
            InlineLanguage::Js => ActionType::Js,
            InlineLanguage::Python => ActionType::Python,
        };
        let entry = join_under(root, self.action.entry.as_str());

        let mut fixtures: Vec<String> = Vec::new();
        let n = self.fixtures.len();
        let mut i: usize = 0;
        while i < n
            invariant
                i <= n,
                n == self.fixtures@.len(),
                fixtures@.len() == i,
                forall|j: int|
                    0 <= j < i ==> #[trigger] fixtures@[j]@ == joined(
                        root@,
                        self.fixtures@[j].name@,
                    ),
            decreases n - i,
        {
            fixtures.push(join_under(root, self.fixtures[i].name.as_str()));
            i = i + 1;
        }

        Config {
            action: Some(Action { action_type, entry }),
            fixtures,
            env: self.env,
            runtime: Runtime { node: self.runtime.node, python: self.runtime.python },
            snapshots: SnapshotConfig { enabled: self.snapshots.enabled, ignore: Vec::new() },
            repeat: self.repeat,
            mode: ExecutionMode::Normal,
        }
    }
}

} // verus!
