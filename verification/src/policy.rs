//! The security policy: every tool call is classified and gated here
//! before it may run.
use vstd::prelude::*;

use crate::json::{compact_text, json_str_field, json_to_string, str_or_empty};
use crate::permissions::{is_known_tool, is_read_tool, kind_of_tool_name, lemma_tool_names_distinct, ActionKind, PermissionLevel};
use crate::text::{
    byte_prefix, byte_prefix_len, chars_eq, chars_of, char_boundary_at, concat3, contains_chars,
    is_whitespace_char, is_ws, join_chars, matches_at, occurs_at,
    join_seq, lowercase_text, push_all, push_str, seq_contains, seq_starts_with, split_chars,
    split_seq, starts_with_chars, str_eq, string_from_chars, to_lowercase, utf8_len,
};
use crate::tool::{DecisionView, ToolDecision};

verus! {

/// Shell command fragments that are blocked outright, even with confirmation.
pub open spec fn blocked_patterns() -> Seq<Seq<char>> {
    seq![
        "rm -rf /"@,
        "rm -rf ~"@,
        "mkfs"@,
        ":(){"@,
        "dd if="@,
        "dd of=/dev"@,
        "> /dev/sd"@,
        "shutdown"@,
        "reboot"@,
        "halt"@,
        "poweroff"@,
        "chmod -R 777 /"@,
        "chown -R"@,
        "curl|sh"@,
        "wget|sh"@,
    ]
}

/// Number of blocked shell fragments.
pub const BLOCKED_PATTERN_COUNT: usize = 15;

/// The `i`-th blocked shell fragment.
pub fn blocked_shell_pattern(i: usize) -> (r: &'static str)
    requires
        i < BLOCKED_PATTERN_COUNT,
    ensures
        r@ == blocked_patterns()[i as int],
{
    match i {
        0 => "rm -rf /",
        1 => "rm -rf ~",
        2 => "mkfs",
        3 => ":(){",
        4 => "dd if=",
        5 => "dd of=/dev",
        6 => "> /dev/sd",
        7 => "shutdown",
        8 => "reboot",
        9 => "halt",
        10 => "poweroff",
        11 => "chmod -R 777 /",
        12 => "chown -R",
        13 => "curl|sh",
        _ => "wget|sh",
    }
}

/// Index of the first non-whitespace character of `s` at or after `k`
/// (`s.len()` when there is none).
pub open spec fn skip_ws(s: Seq<char>, k: int) -> int
    decreases s.len() - k,
{
    if 0 <= k < s.len() && is_ws(s[k]) {
        skip_ws(s, k + 1)
    } else {
        k
    }
}

/// A shell program name (`sh` or `bash`) stands as a whole word at `p`.
pub open spec fn shell_word_at(s: Seq<char>, p: int) -> bool {
    ||| (occurs_at(s, "sh"@, p) && (p + 2 == s.len() || is_ws(s[p + 2])))
    ||| (occurs_at(s, "bash"@, p) && (p + 4 == s.len() || is_ws(s[p + 4])))
}

/// A download command (`curl` or `wget`) starts at `i`.
pub open spec fn download_at(s: Seq<char>, i: int) -> bool {
    occurs_at(s, "curl"@, i) || occurs_at(s, "wget"@, i)
}

/// A pipe at `j` feeds a shell program.
pub open spec fn pipe_to_shell_at(s: Seq<char>, j: int) -> bool {
    0 <= j < s.len() && s[j] == '|' && shell_word_at(s, skip_ws(s, j + 1))
}

/// A download is piped into a shell: `curl` or `wget`, then later a pipe
/// into `sh` or `bash` (`curl https://x/i.sh | sh`).
pub open spec fn pipes_download_to_shell(s: Seq<char>) -> bool {
    exists|i: int, j: int|
        0 <= i < j && #[trigger] download_at(s, i) && #[trigger] pipe_to_shell_at(s, j)
}

/// A command is destructive when, lowercased, it contains the lowercase
/// form of a blocked fragment, or pipes a download into a shell.
pub open spec fn is_destructive(command: Seq<char>) -> bool {
    ||| exists|i: int|
        0 <= i < blocked_patterns().len() && #[trigger] seq_contains(
            lowercase_text(command),
            lowercase_text(blocked_patterns()[i]),
        )
    ||| pipes_download_to_shell(lowercase_text(command))
}

/// Index of the first non-whitespace character at or after `k`.
fn skip_whitespace(s: &Vec<char>, k: usize) -> (r: usize)
    requires
        k <= s.len(),
    ensures
        r as int == skip_ws(s@, k as int),
        k <= r <= s.len(),
{
    let mut p = k;
    while p < s.len() && is_whitespace_char(s[p])
        invariant
            k <= p <= s.len(),
            skip_ws(s@, p as int) == skip_ws(s@, k as int),
        decreases s.len() - p,
    {
        p = p + 1;
    }
    p
}

/// Whether `sh` or `bash` stands as a whole word at `p`.
fn is_shell_word_at(s: &Vec<char>, p: usize) -> (r: bool)
    requires
        p <= s.len(),
    ensures
        r == shell_word_at(s@, p as int),
{
    proof {
        reveal_strlit("sh");
        reveal_strlit("bash");
    }
    let sh = chars_of("sh");
    let bash = chars_of("bash");
    if matches_at(s, &sh, p) && (p + 2 == s.len() || is_whitespace_char(s[p + 2])) {
        return true;
    }
    matches_at(s, &bash, p) && (p + 4 == s.len() || is_whitespace_char(s[p + 4]))
}

/// Whether a (lowercased) command pipes a download into a shell.
fn pipes_download_into_shell(s: &Vec<char>) -> (r: bool)
    ensures
        r == pipes_download_to_shell(s@),
{
    let curl = chars_of("curl");
    let wget = chars_of("wget");
    let mut seen = false;
    let mut k: usize = 0;
    while k < s.len()
        invariant
            k <= s.len(),
            curl@ == "curl"@,
            wget@ == "wget"@,
            seen == exists|i: int| 0 <= i < k && #[trigger] download_at(s@, i),
            forall|i: int, j: int|
                0 <= i < j < k ==> !(#[trigger] download_at(s@, i) && #[trigger] pipe_to_shell_at(
                    s@,
                    j,
                )),
        decreases s.len() - k,
    {
        if s[k] == '|' && seen {
            let p = skip_whitespace(s, k + 1);
            if is_shell_word_at(s, p) {
                proof {
                    let i = choose|i: int| 0 <= i < k && #[trigger] download_at(s@, i);
                    assert(download_at(s@, i) && pipe_to_shell_at(s@, k as int));
                }
                return true;
            }
        }
        let here = matches_at(s, &curl, k) || matches_at(s, &wget, k);
        proof {
            assert(here == download_at(s@, k as int));
            if here {
                assert(0 <= k < k + 1 && download_at(s@, k as int));
            } else if !seen {
                assert forall|i: int| 0 <= i < k + 1 implies !#[trigger] download_at(s@, i) by {}
            }
        }
        seen = seen || here;
        k = k + 1;
    }
    assert forall|i: int, j: int| 0 <= i < j && #[trigger] download_at(s@, i) implies !#[trigger] pipe_to_shell_at(s@, j) by {
        if j < s@.len() {
            assert(0 <= i < j < k);
        }
    }
    false
}

/// Returns true when a shell command looks destructive.
pub fn is_destructive_shell_command(command: &str) -> (r: bool)
    ensures
        r == is_destructive(command@),
{
    let lower = to_lowercase(command);
    let lower_chars = chars_of(lower.as_str());
    let mut i: usize = 0;
    while i < BLOCKED_PATTERN_COUNT
        invariant
            i <= BLOCKED_PATTERN_COUNT,
            lower_chars@ == lowercase_text(command@),
            blocked_patterns().len() == BLOCKED_PATTERN_COUNT,
            forall|j: int|
                0 <= j < i ==> !#[trigger] seq_contains(
                    lowercase_text(command@),
                    lowercase_text(blocked_patterns()[j]),
                ),
        decreases BLOCKED_PATTERN_COUNT - i,
    {
        let pat = to_lowercase(blocked_shell_pattern(i));
        let pat_chars = chars_of(pat.as_str());
        if contains_chars(&lower_chars, &pat_chars) {
            return true;
        }
        i = i + 1;
    }
    pipes_download_into_shell(&lower_chars)
}

/// A normalized path lies inside a directory, component by component: it
/// is the directory itself or lies below it (`/home/sory2` is not below
/// `/home/sory`).
pub open spec fn within_dir(path: Seq<char>, dir: Seq<char>) -> bool {
    ||| path == dir
    ||| seq_starts_with(path, dir.push('/'))
    ||| (dir.len() > 0 && dir.last() == '/' && seq_starts_with(path, dir))
}

/// Whether the normalized `path` lies inside the directory `dir`.
pub fn is_within_dir(path: &Vec<char>, dir: &Vec<char>) -> (r: bool)
    ensures
        r == within_dir(path@, dir@),
{
    if chars_eq(path, dir) {
        return true;
    }
    if dir.len() > 0 && dir[dir.len() - 1] == '/' {
        let r = starts_with_chars(path, dir);
        proof {
            if seq_starts_with(path@, dir@.push('/')) {
                let n = dir@.len() as int;
                assert(path@.subrange(0, n + 1) == dir@.push('/'));
                assert(path@.subrange(0, n) =~= path@.subrange(0, n + 1).subrange(0, n));
                assert(dir@.push('/').subrange(0, n) =~= dir@);
                assert(seq_starts_with(path@, dir@));
            }
            assert(dir@.last() == '/');
        }
        return r;
    }
    let mut below: Vec<char> = Vec::new();
    push_all(&mut below, dir);
    below.push('/');
    assert(below@ =~= dir@.push('/'));
    starts_with_chars(path, &below)
}

/// Effect of one path component on the stack of a lexical normalization:
/// empty and `.` components vanish, `..` drops the last kept component.
pub open spec fn push_component(stack: Seq<Seq<char>>, comp: Seq<char>) -> Seq<Seq<char>> {
    if comp.len() == 0 || comp == seq!['.'] {
        stack
    } else if comp == seq!['.', '.'] {
        if stack.len() > 0 {
            stack.drop_last()
        } else {
            stack
        }
    } else {
        stack.push(comp)
    }
}

/// Components kept after applying `parts` left to right.
pub open spec fn normalize_components(parts: Seq<Seq<char>>) -> Seq<Seq<char>>
    decreases parts.len(),
{
    if parts.len() == 0 {
        Seq::empty()
    } else {
        push_component(normalize_components(parts.drop_last()), parts.last())
    }
}

/// Absolute lexical normalization of a `/`-separated path.
pub open spec fn normalized_path(path: Seq<char>) -> Seq<char> {
    seq!['/'] + join_seq(normalize_components(split_seq(path, '/')), seq!['/'])
}

/// The input text as shown in a confirmation prompt: at most 160 bytes,
/// followed by an ellipsis when cut.
pub open spec fn truncated_view(s: Seq<char>) -> Seq<char> {
    if utf8_len(s) > 160 {
        byte_prefix(s, 160) + "…"@
    } else {
        s
    }
}

/// Cutting the text at 160 bytes is possible (it does not split a character).
pub open spec fn truncation_ok(s: Seq<char>) -> bool {
    utf8_len(s) > 160 ==> char_boundary_at(s, 160)
}

/// Lexically normalizes a `/`-separated path into an absolute one.
pub fn normalize_path(path: &str) -> (r: Vec<char>)
    ensures
        r@ == normalized_path(path@),
{
    let chars = chars_of(path);
    let pieces = split_chars(&chars, '/');
    let ghost parts = split_seq(path@, '/');
    let mut stack: Vec<Vec<char>> = Vec::new();
    let mut i: usize = 0;
    while i < pieces.len()
        invariant
            i <= pieces.len(),
            pieces@.len() == parts.len(),
            forall|k: int| 0 <= k < pieces@.len() ==> #[trigger] pieces@[k]@ == parts[k],
            stack@.map_values(|p: Vec<char>| p@) == normalize_components(parts.take(i as int)),
        decreases pieces.len() - i,
    {
        assert(parts.take(i + 1).drop_last() =~= parts.take(i as int));
        let ghost before = stack@.map_values(|p: Vec<char>| p@);
        let comp = &pieces[i];
        let is_dot = comp.len() == 1 && comp[0] == '.';
        let is_dotdot = comp.len() == 2 && comp[0] == '.' && comp[1] == '.';
        proof {
            if comp@ == seq!['.'] {
                assert(comp@[0] == '.');
            }
            if is_dot {
                assert(comp@ =~= seq!['.']);
            }
            if comp@ == seq!['.', '.'] {
                assert(comp@[0] == '.' && comp@[1] == '.');
            }
            if is_dotdot {
                assert(comp@ =~= seq!['.', '.']);
            }
        }
        if comp.len() == 0 || is_dot {
        } else if is_dotdot {
            if stack.len() > 0 {
                stack.pop();
                assert(stack@.map_values(|p: Vec<char>| p@) =~= before.drop_last());
            }
        } else {
            stack.push(comp.clone());
            assert(stack@.map_values(|p: Vec<char>| p@) =~= before.push(comp@));
        }
        i = i + 1;
    }
    assert(parts.take(pieces.len() as int) =~= parts);
    let sep = vec!['/'];
    let joined = join_chars(&stack, &sep);
    let mut out = vec!['/'];
    push_all(&mut out, &joined);
    assert(sep@ =~= seq!['/']);
    out
}

/// The input text cut for a confirmation prompt; `None` when byte 160
/// falls inside a character.
pub fn truncate_text(s: &str) -> (r: Option<String>)
    ensures
        r is None <==> !truncation_ok(s@),
        r matches Some(t) ==> t@ == truncated_view(s@),
{
    let chars = chars_of(s);
    let (k, fits, boundary) = byte_prefix_len(&chars, 160);
    if fits {
        return Some(s.to_string());
    }
    if !boundary {
        return None;
    }
    let mut out: Vec<char> = Vec::new();
    let mut i: usize = 0;
    while i < k
        invariant
            i <= k <= chars@.len(),
            out@ == chars@.take(i as int),
        decreases k - i,
    {
        out.push(chars[i]);
        i = i + 1;
        assert(out@ =~= chars@.take(i as int));
    }
    push_str(&mut out, "…");
    Some(string_from_chars(&out))
}

/// The serialized tool input cut for a confirmation prompt; `None` when
/// byte 160 of the serialization falls inside a character.
pub fn truncate_input(input: &serde_json::Value) -> (r: Option<String>)
    ensures
        r is None <==> !truncation_ok(crate::json::compact_text(*input)),
        r matches Some(t) ==> t@ == truncated_view(crate::json::compact_text(*input)),
{
    let text = json_to_string(input);
    truncate_text(text.as_str())
}

/// Tunable policy. The desktop app builds it from the configuration.
#[derive(Debug, Clone)]
pub struct SecurityPolicy {
    pub shell_requires_confirmation: bool,
    pub filesystem_write_requires_confirmation: bool,
    pub filesystem_sandbox: String,
    /// When true, destructive shell commands are denied instead of merely
    /// requiring confirmation.
    pub block_destructive_shell: bool,
}

impl Default for SecurityPolicy {
    fn default() -> (r: Self)
        ensures
            r.shell_requires_confirmation,
            r.filesystem_write_requires_confirmation,
            r.filesystem_sandbox@.len() == 0,
            r.block_destructive_shell,
    {
        SecurityPolicy {
            shell_requires_confirmation: true,
            filesystem_write_requires_confirmation: true,
            filesystem_sandbox: String::new(),
            block_destructive_shell: true,
        }
    }
}

impl SecurityPolicy {
    /// A policy that lets writes and shell commands through without
    /// confirmation, still blocking destructive commands.
    pub fn permissive_for_tests() -> (r: Self)
        ensures
            !r.shell_requires_confirmation,
            !r.filesystem_write_requires_confirmation,
            r.filesystem_sandbox@.len() == 0,
            r.block_destructive_shell,
    {
        SecurityPolicy {
            shell_requires_confirmation: false,
            filesystem_write_requires_confirmation: false,
            filesystem_sandbox: String::new(),
            block_destructive_shell: true,
        }
    }

    /// Permission level of a call to `tool` whose `command` field (empty
    /// when absent) is `command`.
    pub open spec fn level_for(self, tool: Seq<char>, command: Seq<char>) -> PermissionLevel {
        if is_read_tool(tool) || tool == "system_info"@ {
            PermissionLevel::ReadOnly
        } else if tool == "write_file"@ {
            if self.filesystem_write_requires_confirmation {
                PermissionLevel::RequiresConfirmation
            } else {
                PermissionLevel::Safe
            }
        } else if tool == "run_shell"@ {
            if self.block_destructive_shell && is_destructive(command) {
                PermissionLevel::Restricted
            } else if self.shell_requires_confirmation {
                PermissionLevel::RequiresConfirmation
            } else {
                PermissionLevel::Safe
            }
        } else {
            PermissionLevel::RequiresConfirmation
        }
    }

    /// Reason for refusing a path outside the sandbox, if it is outside.
    pub open spec fn sandbox_violation(self, path: Seq<char>) -> Option<Seq<char>> {
        let sandbox = self.filesystem_sandbox@;
        if sandbox.len() == 0 || path.len() == 0 {
            None
        } else if within_dir(normalized_path(path), sandbox) {
            None
        } else {
            Some("path '"@ + path + "' is outside sandbox '"@ + sandbox + "'"@)
        }
    }

    /// The decision for a call, given the tool name, the `command` and
    /// `path` fields of its input (empty when absent) and the input's JSON
    /// text; `None` where cutting the input text for the prompt is impossible.
    pub open spec fn decision_for(
        self,
        tool: Seq<char>,
        command: Seq<char>,
        path: Seq<char>,
        input_text: Seq<char>,
    ) -> Option<DecisionView> {
        match self.sandbox_violation(path) {
            Some(reason) => Some(DecisionView::Deny(reason)),
            None => match self.level_for(tool, command) {
                PermissionLevel::ReadOnly | PermissionLevel::Safe => Some(DecisionView::Allow),
                PermissionLevel::RequiresConfirmation => if truncation_ok(input_text) {
                    Some(
                        DecisionView::RequireConfirmation(
                            "tool '"@ + tool + "' needs your approval (input: "@
                                + truncated_view(input_text) + ")"@,
                        ),
                    )
                } else {
                    None
                },
                PermissionLevel::Restricted => Some(
                    DecisionView::Deny(
                        "tool '"@ + tool + "' is blocked by policy (destructive action)"@,
                    ),
                ),
                PermissionLevel::Denied => Some(
                    DecisionView::Deny("tool '"@ + tool + "' is denied by policy"@),
                ),
            },
        }
    }

    /// Permission level from the tool name and its shell command text.
    pub fn level_for_command(&self, tool: &str, command: &str) -> (r: PermissionLevel)
        ensures
            r == self.level_for(tool@, command@),
    {
        proof {
            lemma_tool_names_distinct();
        }
        let kind = kind_of_tool_name(tool);
        match kind {
            ActionKind::Read | ActionKind::SystemInfo => PermissionLevel::ReadOnly,
            ActionKind::Write => {
                if self.filesystem_write_requires_confirmation {
                    PermissionLevel::RequiresConfirmation
                } else {
                    PermissionLevel::Safe
                }
            },
            ActionKind::Delete => PermissionLevel::RequiresConfirmation,
            ActionKind::Execute => {
                if self.block_destructive_shell && is_destructive_shell_command(command) {
                    return PermissionLevel::Restricted;
                }
                if self.shell_requires_confirmation {
                    PermissionLevel::RequiresConfirmation
                } else {
                    PermissionLevel::Safe
                }
            },
            ActionKind::Other(_) => PermissionLevel::RequiresConfirmation,
        }
    }

    /// Map a tool call to a permission level.
    pub fn classify(&self, tool: &str, input: &serde_json::Value) -> (r: PermissionLevel)
        ensures
            r == self.level_for(tool@, str_or_empty(*input, "command"@)),
    {
        let command = match json_str_field(input, "command") {
            Some(c) => c,
            None => String::new(),
        };
        self.level_for_command(tool, command.as_str())
    }

    /// Enforce the filesystem sandbox on a path (empty when absent).
    pub fn check_sandbox_path(&self, path: &str) -> (r: Option<String>)
        ensures
            r matches Some(m) ==> self.sandbox_violation(path@) == Some(m@),
            r is None ==> self.sandbox_violation(path@) is None,
    {
        let sandbox = chars_of(self.filesystem_sandbox.as_str());
        if sandbox.len() == 0 {
            return None;
        }
        if path.is_empty() {
            return None;
        }
        let normalized = normalize_path(path);
        if !is_within_dir(&normalized, &sandbox) {
            let mut msg: Vec<char> = Vec::new();
            push_str(&mut msg, "path '");
            push_str(&mut msg, path);
            push_str(&mut msg, "' is outside sandbox '");
            push_all(&mut msg, &sandbox);
            push_str(&mut msg, "'");
            return Some(string_from_chars(&msg));
        }
        None
    }

    /// Enforce the filesystem sandbox, if configured.
    pub fn check_sandbox(&self, input: &serde_json::Value) -> (r: Option<String>)
        ensures
            r matches Some(m) ==> self.sandbox_violation(str_or_empty(*input, "path"@)) == Some(m@),
            r is None ==> self.sandbox_violation(str_or_empty(*input, "path"@)) is None,
    {
        let path = match json_str_field(input, "path") {
            Some(p) => p,
            None => String::new(),
        };
        self.check_sandbox_path(path.as_str())
    }

    /// The decision for a call from the fields its input carries; `None`
    /// where cutting the input text for the prompt is impossible.
    pub fn decide_fields(&self, tool: &str, command: &str, path: &str, input_text: &str) -> (r:
        Option<ToolDecision>)
        ensures
            match r {
                Some(d) => self.decision_for(tool@, command@, path@, input_text@) == Some(d@),
                None => self.decision_for(tool@, command@, path@, input_text@) is None,
            },
    {
        if let Some(reason) = self.check_sandbox_path(path) {
            return Some(ToolDecision::Deny { reason });
        }
        match self.level_for_command(tool, command) {
            PermissionLevel::ReadOnly | PermissionLevel::Safe => Some(ToolDecision::Allow),
            PermissionLevel::RequiresConfirmation => {
                match truncate_text(input_text) {
                    Some(shown) => {
                        let mut msg: Vec<char> = Vec::new();
                        push_str(&mut msg, "tool '");
                        push_str(&mut msg, tool);
                        push_str(&mut msg, "' needs your approval (input: ");
                        push_str(&mut msg, shown.as_str());
                        push_str(&mut msg, ")");
                        Some(ToolDecision::RequireConfirmation { reason: string_from_chars(&msg) })
                    },
                    None => None,
                }
            },
            PermissionLevel::Restricted => {
                let reason = concat3(
                    "tool '",
                    tool,
                    "' is blocked by policy (destructive action)",
                );
                Some(ToolDecision::Deny { reason })
            },
            PermissionLevel::Denied => {
                let reason = concat3("tool '", tool, "' is denied by policy");
                Some(ToolDecision::Deny { reason })
            },
        }
    }

    /// The policy check: decides whether a tool call may run. `None` where the
    /// input's JSON text cannot be cut at 160 bytes for the prompt.
    pub fn authorize(&self, tool: &str, input: &serde_json::Value) -> (r: Option<ToolDecision>)
        ensures
            match r {
                Some(d) => self.decision_for(
                    tool@,
                    str_or_empty(*input, "command"@),
                    str_or_empty(*input, "path"@),
                    compact_text(*input),
                ) == Some(d@),
                None => self.decision_for(
                    tool@,
                    str_or_empty(*input, "command"@),
                    str_or_empty(*input, "path"@),
                    compact_text(*input),
                ) is None,
            },
    {
        let command = match json_str_field(input, "command") {
            Some(c) => c,
            None => String::new(),
        };
        let path = match json_str_field(input, "path") {
            Some(p) => p,
            None => String::new(),
        };
        let text = json_to_string(input);
        self.decide_fields(tool, command.as_str(), path.as_str(), text.as_str())
    }
}

/// Reads, directory listings and system information are allowed without
/// confirmation, whatever the switches, unless the sandbox refuses the path.
pub proof fn law_reads_are_allowed(
    policy: SecurityPolicy,
    tool: Seq<char>,
    command: Seq<char>,
    path: Seq<char>,
    text: Seq<char>,
)
    requires
        is_read_tool(tool) || tool == "system_info"@,
        policy.sandbox_violation(path) is None,
    ensures
        policy.decision_for(tool, command, path, text) == Some(DecisionView::Allow),
{
}

/// With blocking enabled, a destructive shell command is denied, even when
/// shell commands need no confirmation.
pub proof fn law_destructive_shell_is_denied(
    policy: SecurityPolicy,
    command: Seq<char>,
    path: Seq<char>,
    text: Seq<char>,
)
    requires
        policy.block_destructive_shell,
        is_destructive(command),
    ensures
        policy.decision_for("run_shell"@, command, path, text) matches Some(DecisionView::Deny(_)),
{
    lemma_tool_names_distinct();
}

/// A path that normalizes outside a configured sandbox is denied for every
/// tool, reads included.
pub proof fn law_sandbox_escape_is_denied(
    policy: SecurityPolicy,
    tool: Seq<char>,
    command: Seq<char>,
    path: Seq<char>,
    text: Seq<char>,
)
    requires
        policy.filesystem_sandbox@.len() > 0,
        path.len() > 0,
        !within_dir(normalized_path(path), policy.filesystem_sandbox@),
    ensures
        policy.decision_for(tool, command, path, text) matches Some(DecisionView::Deny(_)),
{
}

/// A non-destructive shell command needs the user's approval whenever the
/// policy asks for shell confirmation.
pub proof fn law_shell_needs_confirmation(
    policy: SecurityPolicy,
    command: Seq<char>,
    path: Seq<char>,
    text: Seq<char>,
)
    requires
        policy.shell_requires_confirmation,
        !is_destructive(command),
        policy.sandbox_violation(path) is None,
        truncation_ok(text),
    ensures
        policy.decision_for("run_shell"@, command, path, text) matches Some(
            DecisionView::RequireConfirmation(_),
        ),
{
    lemma_tool_names_distinct();
}

/// Deleting a file, and writing one while the policy asks for write
/// confirmation, need the user's approval (inside the sandbox, if any).
pub proof fn law_file_changes_need_confirmation(
    policy: SecurityPolicy,
    tool: Seq<char>,
    command: Seq<char>,
    path: Seq<char>,
    text: Seq<char>,
)
    requires
        tool == "delete_file"@ || (tool == "write_file"@ && policy.filesystem_write_requires_confirmation),
        policy.sandbox_violation(path) is None,
        truncation_ok(text),
    ensures
        policy.decision_for(tool, command, path, text) matches Some(
            DecisionView::RequireConfirmation(_),
        ),
{
    lemma_tool_names_distinct();
}

/// A tool the classifier does not know is never allowed outright: it needs
/// confirmation or is denied.
pub proof fn law_unknown_tools_are_never_allowed(
    policy: SecurityPolicy,
    tool: Seq<char>,
    command: Seq<char>,
    path: Seq<char>,
    text: Seq<char>,
)
    requires
        !is_known_tool(tool),
    ensures
        !(policy.decision_for(tool, command, path, text) matches Some(DecisionView::Allow)),
{
}

/// The policy never classifies a call as `Denied`: refusals come from the
/// sandbox or from blocked destructive commands.
pub proof fn law_level_is_never_denied(policy: SecurityPolicy, tool: Seq<char>, command: Seq<char>)
    ensures
        policy.level_for(tool, command) != PermissionLevel::Denied,
{
}

impl SecurityPolicy {
    /// The policy the desktop apps run with: the configured confirmations
    /// and sandbox, destructive shell commands always blocked.
    pub fn from_config(config: &crate::config::SecurityConfig) -> (r: Self)
        ensures
            r.shell_requires_confirmation == config.shell_requires_confirmation,
            r.filesystem_write_requires_confirmation == config.filesystem_write_requires_confirmation,
            r.filesystem_sandbox == config.filesystem_sandbox,
            r.block_destructive_shell,
    {
        SecurityPolicy {
            shell_requires_confirmation: config.shell_requires_confirmation,
            filesystem_write_requires_confirmation: config.filesystem_write_requires_confirmation,
            filesystem_sandbox: config.filesystem_sandbox.clone(),
            block_destructive_shell: true,
        }
    }
}

} // verus!
