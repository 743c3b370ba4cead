//! Tool-call decisions, tool failures and the fixed confirmers.
use vstd::prelude::*;

use crate::text::concat;

verus! {

/// Failure of a single tool execution.
#[derive(Debug, Clone)]
pub enum ToolError {
    InvalidInput(String),
    Execution(String),
    Unavailable(String),
}

impl ToolError {
    /// The message shown for this error (its `Display` text).
    pub open spec fn message_view(&self) -> Seq<char> {
        match self {
            ToolError::InvalidInput(m) => "invalid input: "@ + m@,
            ToolError::Execution(m) => "execution failed: "@ + m@,
            ToolError::Unavailable(m) => "tool not available: "@ + m@,
        }
    }

    /// Renders the error as text.
    pub fn message(&self) -> (r: String)
        ensures
            r@ == self.message_view(),
    {
        match self {
            ToolError::InvalidInput(m) => concat("invalid input: ", m.as_str()),
            ToolError::Execution(m) => concat("execution failed: ", m.as_str()),
            ToolError::Unavailable(m) => concat("tool not available: ", m.as_str()),
        }
    }
}

/// Decision returned by the security policy before any tool runs.
#[derive(Debug, Clone)]
pub enum ToolDecision {
    Allow,
    RequireConfirmation { reason: String },
    Deny { reason: String },
}

/// Mathematical form of a [`ToolDecision`]: reasons as character sequences.
pub enum DecisionView {
    Allow,
    RequireConfirmation(Seq<char>),
    Deny(Seq<char>),
}

impl View for ToolDecision {
    type V = DecisionView;

    open spec fn view(&self) -> DecisionView {
        match self {
            ToolDecision::Allow => DecisionView::Allow,
            ToolDecision::RequireConfirmation { reason } => DecisionView::RequireConfirmation(
                reason@,
            ),
            ToolDecision::Deny { reason } => DecisionView::Deny(reason@),
        }
    }
}

/// Confirmer that approves everything (demos and tests only).
pub struct AllowAllConfirmer;

impl AllowAllConfirmer {
    /// Answers a confirmation request: always yes.
    pub fn confirm(&self, _tool: &str, _input: &serde_json::Value, _reason: &str) -> (r: bool)
        ensures
            r,
    {
        true
    }
}

/// Confirmer that denies everything (safe default for non-interactive runs).
pub struct DenyAllConfirmer;

impl DenyAllConfirmer {
    /// Answers a confirmation request: always no.
    pub fn confirm(&self, _tool: &str, _input: &serde_json::Value, _reason: &str) -> (r: bool)
        ensures
            !r,
    {
        false
    }
}

/// Always approves (demos/tests only — never the default in the app).
pub struct AlwaysApprove;

impl AlwaysApprove {
    /// Answers a confirmation request: always yes.
    pub fn confirm(&self, _tool: &str, _input: &serde_json::Value, _reason: &str) -> (r: bool)
        ensures
            r,
    {
        true
    }
}

/// Always denies (safe non-interactive default).
pub struct AlwaysDeny;

impl AlwaysDeny {
    /// Answers a confirmation request: always no.
    pub fn confirm(&self, _tool: &str, _input: &serde_json::Value, _reason: &str) -> (r: bool)
        ensures
            !r,
    {
        false
    }
}

/// A typed answer approves when, trimmed and lowercased, it is `o`,
/// `oui`, `y` or `yes`.
pub open spec fn approving_answer(answer: Seq<char>) -> bool {
    let a = crate::text::lowercase_text(crate::text::trim_seq(answer));
    a == "o"@ || a == "oui"@ || a == "y"@ || a == "yes"@
}

/// Confirmer asking at the terminal (`o/N`). Reading and printing are
/// the caller's; this says what is shown and how an answer is read.
pub struct TerminalConfirmer;

impl TerminalConfirmer {
    /// Whether the answer typed at the prompt approves.
    pub fn approves(&self, answer: &str) -> (r: bool)
        ensures
            r == approving_answer(answer@),
    {
        let t = crate::text::trim_str(answer);
        let a = crate::text::to_lowercase(t.as_str());
        let s = a.as_str();
        crate::text::str_eq(s, "o") || crate::text::str_eq(s, "oui") || crate::text::str_eq(s, "y")
            || crate::text::str_eq(s, "yes")
    }

    /// The lines shown before the question.
    pub fn prompt_lines(&self, tool: &str, reason: &str, input_text: &str) -> (r: (String, String, String))
        ensures
            r.0@ == "\n🔐 L'assistant veut exécuter l'outil « "@ + tool@ + " »."@,
            r.1@ == "   Motif : "@ + reason@,
            r.2@ == "   Entrée : "@ + input_text@,
    {
        (
            crate::text::concat3("\n🔐 L'assistant veut exécuter l'outil « ", tool, " »."),
            concat("   Motif : ", reason),
            concat("   Entrée : ", input_text),
        )
    }
}

/// Confirmer driven by a closure, for wiring any prompt.
pub struct ConfirmerFn<F>(pub F);

impl<F: Fn(String, serde_json::Value, String) -> bool> ConfirmerFn<F> {
    /// Asks the closure, with the tool name, its input and the reason.
    pub fn confirm(&self, tool: &str, input: &serde_json::Value, reason: &str) -> (r: bool)
        requires
            forall|t: String, i: serde_json::Value, why: String| #[trigger] self.0.requires((t, i, why)),
        ensures
            exists|t: String, why: String|
                t@ == tool@ && why@ == reason@ && #[trigger] self.0.ensures((t, *input, why), r),
    {
        (self.0)(tool.to_string(), crate::json::json_clone(input), reason.to_string())
    }
}

} // verus!
