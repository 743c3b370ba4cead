//! Permission levels and action classification.
use vstd::prelude::*;

use crate::text::str_eq;

verus! {

/// Sensitivity of an operation, from harmless to forbidden.
#[derive(Debug, Clone, Copy, PartialEq, Eq, Structural)]
pub enum PermissionLevel {
    /// Pure reads with no side effects.
    ReadOnly,
    /// Writes considered safe by policy (sandboxed paths, ...).
    Safe,
    /// Allowed only after explicit user confirmation.
    RequiresConfirmation,
    /// Dangerous even with confirmation (destructive shell, ...).
    Restricted,
    /// Never allowed.
    Denied,
}

impl PermissionLevel {
    /// Position of the level on the scale from harmless to forbidden.
    pub open spec fn rank(self) -> int {
        match self {
            PermissionLevel::ReadOnly => 0,
            PermissionLevel::Safe => 1,
            PermissionLevel::RequiresConfirmation => 2,
            PermissionLevel::Restricted => 3,
            PermissionLevel::Denied => 4,
        }
    }

    pub open spec fn label_view(self) -> Seq<char> {
        match self {
            PermissionLevel::ReadOnly => "read-only"@,
            PermissionLevel::Safe => "safe"@,
            PermissionLevel::RequiresConfirmation => "requires-confirmation"@,
            PermissionLevel::Restricted => "restricted"@,
            PermissionLevel::Denied => "denied"@,
        }
    }

    /// Short machine-friendly label.
    pub fn label(self) -> (r: &'static str)
        ensures
            r@ == self.label_view(),
    {
        match self {
            PermissionLevel::ReadOnly => "read-only",
            PermissionLevel::Safe => "safe",
            PermissionLevel::RequiresConfirmation => "requires-confirmation",
            PermissionLevel::Restricted => "restricted",
            PermissionLevel::Denied => "denied",
        }
    }
}

/// What kind of action a tool call represents.
#[derive(Debug, Clone)]
pub enum ActionKind {
    Read,
    Write,
    Delete,
    Execute,
    SystemInfo,
    Other(String),
}

/// The tool names that read (files or directories).
pub open spec fn is_read_tool(tool: Seq<char>) -> bool {
    tool == "read_file"@ || tool == "list_dir"@
}

/// The tool names known to the classifier.
pub open spec fn is_known_tool(tool: Seq<char>) -> bool {
    is_read_tool(tool) || tool == "write_file"@ || tool == "delete_file"@ || tool
        == "run_shell"@ || tool == "system_info"@
}

impl ActionKind {
    /// Kind that the classifier assigns to a tool name.
    pub open spec fn of_tool(self, tool: Seq<char>) -> bool {
        match self {
            ActionKind::Read => is_read_tool(tool),
            ActionKind::Write => tool == "write_file"@,
            ActionKind::Delete => tool == "delete_file"@,
            ActionKind::Execute => tool == "run_shell"@,
            ActionKind::SystemInfo => tool == "system_info"@,
            ActionKind::Other(name) => name@ == tool && !is_known_tool(tool),
        }
    }

    /// Classification from the tool name (the payload is inspected
    /// separately by the policy).
    pub fn classify(tool: &str, _input: &serde_json::Value) -> (r: Self)
        ensures
            r.of_tool(tool@),
    {
        kind_of_tool_name(tool)
    }
}

/// The classifier's tool names are pairwise distinct.
pub proof fn lemma_tool_names_distinct()
    ensures
        "read_file"@ != "list_dir"@,
        "read_file"@ != "write_file"@,
        "read_file"@ != "delete_file"@,
        "read_file"@ != "run_shell"@,
        "read_file"@ != "system_info"@,
        "list_dir"@ != "write_file"@,
        "list_dir"@ != "delete_file"@,
        "list_dir"@ != "run_shell"@,
        "list_dir"@ != "system_info"@,
        "write_file"@ != "delete_file"@,
        "write_file"@ != "run_shell"@,
        "write_file"@ != "system_info"@,
        "delete_file"@ != "run_shell"@,
        "delete_file"@ != "system_info"@,
        "run_shell"@ != "system_info"@,
{
    reveal_strlit("read_file");
    reveal_strlit("list_dir");
    reveal_strlit("write_file");
    reveal_strlit("delete_file");
    reveal_strlit("run_shell");
    reveal_strlit("system_info");
    assert("read_file"@[0] != "list_dir"@[0]);
    assert("read_file"@[0] != "write_file"@[0]);
    assert("read_file"@[1] != "run_shell"@[1]);
    assert("read_file"@[0] != "delete_file"@[0]);
    assert("read_file"@[0] != "system_info"@[0]);
    assert("list_dir"@[0] != "write_file"@[0]);
    assert("list_dir"@[0] != "delete_file"@[0]);
    assert("list_dir"@[0] != "run_shell"@[0]);
    assert("list_dir"@[0] != "system_info"@[0]);
    assert("write_file"@[0] != "delete_file"@[0]);
    assert("write_file"@[0] != "run_shell"@[0]);
    assert("write_file"@[0] != "system_info"@[0]);
    assert("delete_file"@[0] != "run_shell"@[0]);
    assert("delete_file"@[0] != "system_info"@[0]);
    assert("run_shell"@[0] != "system_info"@[0]);
}

/// Action kind of a tool name.
pub(crate) fn kind_of_tool_name(tool: &str) -> (r: ActionKind)
    ensures
        r.of_tool(tool@),
{
    if str_eq(tool, "read_file") || str_eq(tool, "list_dir") {
        ActionKind::Read
    } else if str_eq(tool, "write_file") {
        ActionKind::Write
    } else if str_eq(tool, "delete_file") {
        ActionKind::Delete
    } else if str_eq(tool, "run_shell") {
        ActionKind::Execute
    } else if str_eq(tool, "system_info") {
        ActionKind::SystemInfo
    } else {
        ActionKind::Other(tool.to_string())
    }
}

} // verus!
