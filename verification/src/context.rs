//! Short-term context window construction.
use vstd::prelude::*;

use crate::memory::Memory;
use crate::message::{ChatMessage, MessageRole};
use crate::text::{
    chars_of, is_blank, join_seq, lemma_split_join, push_all, push_str, split_seq, string_from_chars,
    trim_seq,
};

verus! {

/// Everything the orchestrator hands to a provider for one inference step.
#[derive(Debug, Clone)]
pub struct ChatContext {
    pub system_prompt: String,
    /// Most relevant long-term memories, rendered before history.
    pub memories: Vec<Memory>,
    /// Recent history, oldest first, already truncated to fit.
    pub window: Vec<ChatMessage>,
}

/// Index of the first message kept in a window of `max` messages.
pub open spec fn window_start(len: nat, max: nat) -> nat {
    if len > max {
        (len - max) as nat
    } else {
        0
    }
}

/// One memory as rendered in the summary: `- [label] content`.
pub open spec fn memory_line(m: Memory) -> Seq<char> {
    "- ["@ + m.category.label_view() + "] "@ + m.content@
}

/// The summary message text for a list of memories.
pub open spec fn memories_summary(memories: Seq<Memory>) -> Seq<char> {
    "Relevant long-term memories:\n"@ + join_seq(
        memories.map_values(|m: Memory| memory_line(m)),
        "\n"@,
    )
}

/// The messages a context flattens into: the system prompt unless blank,
/// then the memories summary unless there are no memories, then the window.
pub open spec fn flattened_prefix_len(prompt: Seq<char>, memories: Seq<Memory>) -> nat {
    (if trim_seq(prompt).len() == 0 {
        0nat
    } else {
        1nat
    }) + (if memories.len() == 0 {
        0nat
    } else {
        1nat
    })
}

impl ChatContext {
    /// Build a context window: system prompt + memories + the last
    /// `max_history` messages (always keeping message order).
    pub fn build(
        system_prompt: &str,
        memories: Vec<Memory>,
        history: &[ChatMessage],
        max_history: usize,
    ) -> (r: Self)
        ensures
            r.system_prompt@ == system_prompt@,
            r.memories@ == memories@,
            r.window@.len() == history@.len() - window_start(
                history@.len(),
                max_history as nat,
            ),
            forall|k: int|
                0 <= k < r.window@.len() ==> (#[trigger] r.window@[k]).same_as(
                    history@[window_start(history@.len(), max_history as nat) + k],
                ),
    {
        let start: usize = if history.len() > max_history {
            history.len() - max_history
        } else {
            0
        };
        let mut window: Vec<ChatMessage> = Vec::new();
        let mut i: usize = start;
        while i < history.len()
            invariant
                start <= i <= history@.len(),
                start == window_start(history@.len(), max_history as nat),
                window@.len() == i - start,
                forall|k: int|
                    0 <= k < window@.len() ==> (#[trigger] window@[k]).same_as(
                        history@[start + k],
                    ),
            decreases history.len() - i,
        {
            window.push(history[i].clone());
            i = i + 1;
        }
        ChatContext { system_prompt: system_prompt.to_string(), memories, window }
    }

    /// Flatten into the message list sent to the provider.
    pub fn into_messages(self) -> (r: Vec<ChatMessage>)
        ensures
            r@.len() == flattened_prefix_len(self.system_prompt@, self.memories@)
                + self.window@.len(),
            trim_seq(self.system_prompt@).len() != 0 ==> r@[0].is_plain(
                MessageRole::System,
                self.system_prompt@,
            ),
            self.memories@.len() != 0 ==> r@[flattened_prefix_len(
                self.system_prompt@,
                self.memories@,
            ) - 1].is_plain(MessageRole::System, memories_summary(self.memories@)),
            forall|k: int|
                0 <= k < self.window@.len() ==> r@[flattened_prefix_len(
                    self.system_prompt@,
                    self.memories@,
                ) + k] == #[trigger] self.window@[k],
    {
        let mut out: Vec<ChatMessage> = Vec::new();
        let ghost prompt = self.system_prompt@;
        if !is_blank(self.system_prompt.as_str()) {
            out.push(ChatMessage::system(self.system_prompt));
        }
        let ghost first = out@;
        assert(first.len() == if trim_seq(prompt).len() == 0 { 0nat } else { 1nat });
        assert(trim_seq(prompt).len() != 0 ==> first[0].is_plain(MessageRole::System, prompt));
        let ghost lines = self.memories@.map_values(|m: Memory| memory_line(m));
        if self.memories.len() > 0 {
            let mut text: Vec<char> = Vec::new();
            push_str(&mut text, "Relevant long-term memories:\n");
            let mut i: usize = 0;
            while i < self.memories.len()
                invariant
                    i <= self.memories@.len(),
                    lines == self.memories@.map_values(|m: Memory| memory_line(m)),
                    text@ == "Relevant long-term memories:\n"@ + join_seq(
                        lines.take(i as int),
                        "\n"@,
                    ),
                decreases self.memories.len() - i,
            {
                assert(lines.take(i + 1).drop_last() =~= lines.take(i as int));
                if i > 0 {
                    push_str(&mut text, "\n");
                }
                let label = self.memories[i].category_label();
                push_str(&mut text, "- [");
                push_str(&mut text, label.as_str());
                push_str(&mut text, "] ");
                push_str(&mut text, self.memories[i].content.as_str());
                proof {
                    if i == 0 {
                        assert(lines.take(1)[0] == memory_line(self.memories@[0]));
                    }
                }
                i = i + 1;
                assert(text@ =~= "Relevant long-term memories:\n"@ + join_seq(
                    lines.take(i as int),
                    "\n"@,
                ));
            }
            assert(lines.take(self.memories.len() as int) =~= lines);
            out.push(ChatMessage::system(string_from_chars(&text)));
        }
        assert(forall|k: int| 0 <= k < first.len() ==> out@[k] == first[k]);
        let ghost prefix = out@;
        let mut window = self.window;
        out.append(&mut window);
        assert(out@ == prefix + self.window@);
        out
    }

    /// Whether the window holds a message of the given role.
    pub fn contains_role(&self, role: MessageRole) -> (r: bool)
        ensures
            r == exists|k: int| 0 <= k < self.window@.len() && self.window@[k].role == role,
    {
        let mut i: usize = 0;
        while i < self.window.len()
            invariant
                i <= self.window@.len(),
                forall|k: int| 0 <= k < i ==> self.window@[k].role != role,
            decreases self.window.len() - i,
        {
            if self.window[i].role == role {
                return true;
            }
            i = i + 1;
        }
        false
    }
}

/// The memories summary lists every memory given, one line each, in
/// order: with one memory it is the header then `- [label] content`, and
/// one more memory adds a newline and its own `- [label] content` line
/// after the others.
pub proof fn law_summary_lists_every_memory(memories: Seq<Memory>, m: Memory)
    ensures
        memories_summary(seq![m]) == "Relevant long-term memories:\n"@ + "- ["@
            + m.category.label_view() + "] "@ + m.content@,
        memories.len() > 0 ==> memories_summary(memories.push(m)) == memories_summary(memories)
            + "\n"@ + "- ["@ + m.category.label_view() + "] "@ + m.content@,
{
    let one = seq![m].map_values(|x: Memory| memory_line(x));
    assert(one.len() == 1 && one[0] == memory_line(m));
    assert(memory_line(m) =~= "- ["@ + m.category.label_view() + "] "@ + m.content@);
    let all = memories.push(m).map_values(|x: Memory| memory_line(x));
    assert(all.drop_last() =~= memories.map_values(|x: Memory| memory_line(x)));
    assert(all.last() == memory_line(m));
    if memories.len() > 0 {
        assert(all.len() > 1);
    }
}

/// After its header, the summary splits on line feeds into exactly one
/// `- [label] content` line per memory, in order (for memories whose label
/// and content hold no line feed).
pub proof fn law_summary_line_per_memory(memories: Seq<Memory>)
    requires
        memories.len() > 0,
        forall|k: int, j: int|
            0 <= k < memories.len() && 0 <= j < memories[k].category.label_view().len()
                ==> #[trigger] memories[k].category.label_view()[j] != '\n',
        forall|k: int, j: int|
            0 <= k < memories.len() && 0 <= j < memories[k].content@.len()
                ==> #[trigger] memories[k].content@[j] != '\n',
    ensures
        split_seq(
            memories_summary(memories).skip("Relevant long-term memories:\n"@.len() as int),
            '\n',
        ) == memories.map_values(
            |m: Memory| "- ["@ + m.category.label_view() + "] "@ + m.content@,
        ),
        split_seq(
            memories_summary(memories).skip("Relevant long-term memories:\n"@.len() as int),
            '\n',
        ).len() == memories.len(),
{
    reveal_strlit("- [");
    reveal_strlit("] ");
    let lines = memories.map_values(|m: Memory| memory_line(m));
    let expected = memories.map_values(
        |m: Memory| "- ["@ + m.category.label_view() + "] "@ + m.content@,
    );
    assert(lines =~= expected);
    assert forall|i: int, j: int| 0 <= i < lines.len() && 0 <= j < lines[i].len() implies #[trigger] lines[i][j]
        != '\n' by {
        let m = memories[i];
        let a = "- ["@;
        let b = m.category.label_view();
        let c = "] "@;
        let d = m.content@;
        assert(lines[i] == a + b + c + d);
        if j < a.len() {
        } else if j < a.len() + b.len() {
            assert(lines[i][j] == b[j - a.len()]);
        } else if j < a.len() + b.len() + c.len() {
        } else {
            assert(lines[i][j] == d[j - a.len() - b.len() - c.len()]);
        }
    }
    lemma_split_join(lines);
    let header = "Relevant long-term memories:\n"@;
    assert(memories_summary(memories).skip(header.len() as int) =~= join_seq(lines, "\n"@));
}

} // verus!
