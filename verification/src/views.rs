//! Rendering helpers shared by the frontends: chat text, terminal
//! snapshot, history grouping and provider rows.
use vstd::prelude::*;

use crate::json::{compact_text, json_to_string};
use crate::message::{ChatMessage, MessageRole, ToolCall};
use crate::provider::ProviderStatus;
use crate::text::{
    chars_of, concat_all, contains_chars, decimal, lowercase_text, push_all, push_decimal, push_str,
    seq_contains, string_from_chars, to_lowercase, trim_seq, trim_str,
};
use crate::ui::{active_title_view, AppState, ConversationSummary, ProviderRow};

verus! {

pub open spec fn role_label_view(role: MessageRole) -> Seq<char> {
    match role {
        MessageRole::System => "⚙️ Système"@,
        MessageRole::User => "🧑 Vous"@,
        MessageRole::Assistant => "🤖 Assistant"@,
        MessageRole::Tool => "🔧 Outil"@,
    }
}

/// One-line prefix per role for plain-text frontends.
pub fn role_label(role: MessageRole) -> (r: &'static str)
    ensures
        r@ == role_label_view(role),
{
    match role {
        MessageRole::System => "⚙️ Système",
        MessageRole::User => "🧑 Vous",
        MessageRole::Assistant => "🤖 Assistant",
        MessageRole::Tool => "🔧 Outil",
    }
}

/// The lines describing tool calls: the name and the compact JSON text of
/// the arguments of each.
pub open spec fn calls_text(calls: Seq<ToolCall>) -> Seq<char>
    decreases calls.len(),
{
    if calls.len() == 0 {
        Seq::empty()
    } else {
        calls_text(calls.drop_last()) + "\n  ⚙️ "@ + calls.last().name@ + " "@ + compact_text(
            calls.last().arguments,
        )
    }
}

/// `text` renders a message of this role, content and tool calls: the role
/// label, a colon and a line break, the content, then one line per call
/// with the call's name and the JSON text of its arguments.
pub open spec fn renders_message(
    text: Seq<char>,
    role: MessageRole,
    content: Seq<char>,
    calls: Seq<ToolCall>,
) -> bool {
    text == role_label_view(role) + ":\n"@ + content + calls_text(calls)
}

/// Render a message as plain text with its tool calls.
pub fn format_message(message: &ChatMessage) -> (r: String)
    ensures
        renders_message(r@, message.role, message.content@, message.tool_calls@),
{
    let mut out: Vec<char> = Vec::new();
    push_str(&mut out, role_label(message.role));
    push_str(&mut out, ":\n");
    push_str(&mut out, message.content.as_str());
    let ghost head = out@;
    let mut i: usize = 0;
    while i < message.tool_calls.len()
        invariant
            i <= message.tool_calls@.len(),
            out@ == head + calls_text(message.tool_calls@.take(i as int)),
        decreases message.tool_calls.len() - i,
    {
        let arg_text = json_to_string(&message.tool_calls[i].arguments);
        push_str(&mut out, "\n  ⚙️ ");
        push_str(&mut out, message.tool_calls[i].name.as_str());
        push_str(&mut out, " ");
        push_str(&mut out, arg_text.as_str());
        proof {
            assert(message.tool_calls@.take(i + 1).drop_last() =~= message.tool_calls@.take(
                i as int,
            ));
        }
        i = i + 1;
        assert(out@ =~= head + calls_text(message.tool_calls@.take(i as int)));
    }
    assert(message.tool_calls@.take(message.tool_calls@.len() as int) =~= message.tool_calls@);
    string_from_chars(&out)
}

/// First line of the terminal snapshot.
pub open spec fn snapshot_head(state: AppState) -> Seq<char> {
    "╭─ SoryOS AI Assistant ─ "@ + active_title_view(state) + " ─────────\n"@
        + "│ Conversations: "@ + decimal(state.conversations@.len()) + "\n"@
}

/// Status lines and last line of the terminal snapshot.
pub open spec fn snapshot_tail(state: AppState) -> Seq<char> {
    (if state.chat.generating {
        "│ … génération en cours (streaming) …\n"@
    } else {
        Seq::empty()
    }) + (match state.chat.last_error {
        Some(e) => "│ ⚠️ Erreur : "@ + e@ + "\n"@,
        None => Seq::empty(),
    }) + "╰─ "@ + state.voice.icon_view() + " "@ + state.voice.label_view()
        + " ─────────────────────────\n"@
}

/// The messages the snapshot shows, as (role, content, calls): the chat's
/// messages, then the partial answer if any, without system messages.
pub open spec fn shown_messages(state: AppState) -> Seq<(MessageRole, Seq<char>, Seq<ToolCall>)> {
    let all = state.chat.messages@.map_values(
        |m: ChatMessage| (m.role, m.content@, m.tool_calls@),
    ) + if state.chat.streaming_text@.len() == 0 {
        Seq::empty()
    } else {
        seq![(MessageRole::Assistant, state.chat.streaming_text@, Seq::<ToolCall>::empty())]
    };
    all.filter(not_system())
}

/// Keeps the entries that are not system messages.
pub open spec fn not_system() -> spec_fn((MessageRole, Seq<char>, Seq<ToolCall>)) -> bool {
    |t: (MessageRole, Seq<char>, Seq<ToolCall>)| t.0 != MessageRole::System
}

/// Keeps the non-empty sections.
pub open spec fn non_empty_section() -> spec_fn((Seq<char>, Seq<ConversationSummary>)) -> bool {
    |g: (Seq<char>, Seq<ConversationSummary>)| g.1.len() > 0
}

/// The snapshot lines for rendered messages.
pub open spec fn message_blocks(texts: Seq<Seq<char>>) -> Seq<Seq<char>> {
    texts.map_values(|t: Seq<char>| "├─ "@ + t + "\n"@)
}

/// Render the full application state as a terminal snapshot.
#[verifier::rlimit(40)]
pub fn render_snapshot(state: &AppState) -> (r: String)
    ensures
        exists|texts: Seq<Seq<char>>|
            {
                &&& texts.len() == shown_messages(*state).len()
                &&& forall|k: int|
                    0 <= k < texts.len() ==> renders_message(
                        texts[k],
                        (#[trigger] shown_messages(*state)[k]).0,
                        shown_messages(*state)[k].1,
                        shown_messages(*state)[k].2,
                    )
                &&& r@ == snapshot_head(*state) + concat_all(message_blocks(texts))
                    + snapshot_tail(*state)
            },
{
    let mut out: Vec<char> = Vec::new();
    push_str(&mut out, "╭─ SoryOS AI Assistant ─ ");
    push_str(&mut out, state.active_title());
    push_str(&mut out, " ─────────\n");
    push_str(&mut out, "│ Conversations: ");
    push_decimal(&mut out, state.conversations.len());
    push_str(&mut out, "\n");
    let ghost head = out@;
    assert(head =~= snapshot_head(*state));
    let visible = state.chat.visible_messages();
    let ghost all = state.chat.messages@.map_values(
        |m: ChatMessage| (m.role, m.content@, m.tool_calls@),
    ) + if state.chat.streaming_text@.len() == 0 {
        Seq::empty()
    } else {
        seq![(MessageRole::Assistant, state.chat.streaming_text@, Seq::<ToolCall>::empty())]
    };
    assert(visible@.len() == all.len());
    assert forall|k: int| 0 <= k < visible@.len() implies (#[trigger] visible@[k]).role == all[k].0
        && visible@[k].content@ == all[k].1 && visible@[k].tool_calls@ == all[k].2 by {
        if k < state.chat.messages@.len() {
            assert(visible@[k].same_as(state.chat.messages@[k]));
        }
    }
    let ghost mut texts: Seq<Seq<char>> = Seq::empty();
    let mut i: usize = 0;
    while i < visible.len()
        invariant
            i <= visible@.len(),
            visible@.len() == all.len(),
            forall|k: int|
                0 <= k < visible@.len() ==> (#[trigger] visible@[k]).role == all[k].0
                    && visible@[k].content@ == all[k].1 && visible@[k].tool_calls@ == all[k].2,
            texts.len() == all.take(i as int).filter(not_system()).len(),
            forall|k: int|
                0 <= k < texts.len() ==> renders_message(
                    #[trigger] texts[k],
                    all.take(i as int).filter(not_system())[k].0,
                    all.take(i as int).filter(not_system())[k].1,
                    all.take(i as int).filter(not_system())[k].2,
                ),
            out@ == head + concat_all(message_blocks(texts)),
        decreases visible.len() - i,
    {
        let ghost old_f = all.take(i as int).filter(not_system());
        let ghost old_texts = texts;
        proof {
            reveal_with_fuel(Seq::filter, 1);
            assert(all.take(i + 1).drop_last() =~= all.take(i as int));
            assert(all.take(i + 1).last() == all[i as int]);
            assert(all.take(i + 1).filter(not_system()) == if not_system()(all[i as int]) {
                old_f.push(all[i as int])
            } else {
                old_f
            });
        }
        if visible[i].role != MessageRole::System {
            let text = format_message(&visible[i]);
            push_str(&mut out, "├─ ");
            push_str(&mut out, text.as_str());
            push_str(&mut out, "\n");
            proof {
                texts = texts.push(text@);
                assert(message_blocks(texts).drop_last() =~= message_blocks(old_texts));
                assert(out@ =~= head + concat_all(message_blocks(texts)));
            }
        }
        let ghost new_f = all.take(i + 1).filter(not_system());
        proof {
            assert forall|k: int| 0 <= k < texts.len() implies renders_message(
                #[trigger] texts[k],
                new_f[k].0,
                new_f[k].1,
                new_f[k].2,
            ) by {
                if k < old_texts.len() {
                    assert(new_f[k] == old_f[k]);
                    assert(texts[k] == old_texts[k]);
                } else {
                    assert(new_f[k] == all[i as int]);
                }
            }
        }
        i = i + 1;
    }
    assert(all.take(visible@.len() as int) =~= all);
    assert(shown_messages(*state) == all.filter(not_system()));
    let ghost body_end = out@;
    if state.chat.generating {
        push_str(&mut out, "│ … génération en cours (streaming) …\n");
    }
    match &state.chat.last_error {
        Some(err) => {
            push_str(&mut out, "│ ⚠️ Erreur : ");
            push_str(&mut out, err.as_str());
            push_str(&mut out, "\n");
        },
        None => {},
    }
    push_str(&mut out, "╰─ ");
    push_str(&mut out, state.voice.icon());
    push_str(&mut out, " ");
    push_str(&mut out, state.voice.label());
    push_str(&mut out, " ─────────────────────────\n");
    assert(out@ =~= body_end + snapshot_tail(*state));
    string_from_chars(&out)
}

/// One history section (`Aujourd'hui`, `Hier`, ...).
#[derive(Debug, Clone)]
pub struct HistoryGroup {
    pub label: String,
    pub items: Vec<ConversationSummary>,
}

/// History section of a row updated `days` ago: 0 today, 1 yesterday,
/// 2 to 7 the last week, anything else older.
pub open spec fn section_of(days: i64) -> int {
    if days == 0 {
        0
    } else if days == 1 {
        1
    } else if 2 <= days <= 7 {
        2
    } else {
        3
    }
}

pub open spec fn section_label(section: int) -> Seq<char> {
    if section == 0 {
        "Aujourd'hui"@
    } else if section == 1 {
        "Hier"@
    } else if section == 2 {
        "7 derniers jours"@
    } else {
        "Plus ancien"@
    }
}

/// A row passes the search filter (lowercased, trimmed query; empty
/// query keeps everything).
pub open spec fn passes_filter(row: ConversationSummary, query: Seq<char>) -> bool {
    query.len() == 0 || seq_contains(lowercase_text(row.title@), query)
}

/// The rows of a section, in order.
pub open spec fn section_rows(
    rows: Seq<ConversationSummary>,
    query: Seq<char>,
    section: int,
) -> Seq<ConversationSummary> {
    rows.filter(
        |r: ConversationSummary| passes_filter(r, query) && section_of(r.updated_days_ago) == section,
    )
}

/// The sections in order, as (label, rows), empty ones left out.
pub open spec fn history_sections(rows: Seq<ConversationSummary>, query: Seq<char>) -> Seq<
    (Seq<char>, Seq<ConversationSummary>),
> {
    seq![
        (section_label(0), section_rows(rows, query, 0)),
        (section_label(1), section_rows(rows, query, 1)),
        (section_label(2), section_rows(rows, query, 2)),
        (section_label(3), section_rows(rows, query, 3)),
    ].filter(non_empty_section())
}

fn section_of_days(days: i64) -> (r: usize)
    ensures
        r == section_of(days),
{
    if days == 0 {
        0
    } else if days == 1 {
        1
    } else if 2 <= days && days <= 7 {
        2
    } else {
        3
    }
}

fn section_name(section: usize) -> (r: String)
    requires
        section < 4,
    ensures
        r@ == section_label(section as int),
{
    if section == 0 {
        "Aujourd'hui".to_string()
    } else if section == 1 {
        "Hier".to_string()
    } else if section == 2 {
        "7 derniers jours".to_string()
    } else {
        "Plus ancien".to_string()
    }
}

/// Group rows into date sections, optionally filtered by a search query.
/// Empty sections are omitted; the newest section comes first.
pub fn group_history(rows: &[ConversationSummary], filter: &str) -> (r: Vec<HistoryGroup>)
    ensures
        r@.map_values(|g: HistoryGroup| (g.label@, g.items@)) == history_sections(
            rows@,
            lowercase_text(trim_seq(filter@)),
        ),
{
    let trimmed = trim_str(filter);
    let query = to_lowercase(trimmed.as_str());
    let query_chars = chars_of(query.as_str());
    let ghost q = query_chars@;
    let mut buckets: Vec<Vec<ConversationSummary>> = Vec::new();
    buckets.push(Vec::new());
    buckets.push(Vec::new());
    buckets.push(Vec::new());
    buckets.push(Vec::new());
    let mut i: usize = 0;
    while i < rows.len()
        invariant
            i <= rows@.len(),
            q == lowercase_text(trim_seq(filter@)),
            query_chars@ == q,
            buckets@.len() == 4,
            forall|b: int|
                0 <= b < 4 ==> (#[trigger] buckets@[b])@ == section_rows(rows@.take(i as int), q, b),
        decreases rows.len() - i,
    {
        let row = &rows[i];
        let title = to_lowercase(row.title.as_str());
        let title_chars = chars_of(title.as_str());
        let keep = query_chars.len() == 0 || contains_chars(&title_chars, &query_chars);
        let section = section_of_days(row.updated_days_ago);
        proof {
            reveal_with_fuel(Seq::filter, 1);
            assert(rows@.take(i + 1).drop_last() =~= rows@.take(i as int));
            assert(rows@.take(i + 1).last() == rows@[i as int]);
        }
        if keep {
            let ghost before = buckets@;
            let mut bucket = clone_rows(&buckets[section]);
            bucket.push(row.clone());
            buckets.set(section, bucket);
            assert forall|b: int| 0 <= b < 4 implies (#[trigger] buckets@[b])@ == section_rows(
                rows@.take(i + 1),
                q,
                b,
            ) by {
                if b != section {
                    assert(buckets@[b] == before[b]);
                }
            }
        }
        i = i + 1;
    }
    assert(rows@.take(rows@.len() as int) =~= rows@);
    let mut groups: Vec<HistoryGroup> = Vec::new();
    let ghost all = seq![
        (section_label(0), section_rows(rows@, q, 0)),
        (section_label(1), section_rows(rows@, q, 1)),
        (section_label(2), section_rows(rows@, q, 2)),
        (section_label(3), section_rows(rows@, q, 3)),
    ];
    let mut b: usize = 0;
    while b < 4
        invariant
            b <= 4,
            buckets@.len() == 4,
            forall|c: int| 0 <= c < 4 ==> (#[trigger] buckets@[c])@ == all[c].1,
            all.len() == 4,
            forall|c: int| 0 <= c < 4 ==> (#[trigger] all[c]).0 == section_label(c),
            groups@.map_values(|g: HistoryGroup| (g.label@, g.items@)) == all.take(b as int).filter(
                non_empty_section(),
            ),
        decreases 4 - b,
    {
        proof {
            reveal_with_fuel(Seq::filter, 1);
            assert(all.take(b + 1).drop_last() =~= all.take(b as int));
            assert(all.take(b + 1).last() == all[b as int]);
            assert(all.take(b + 1).filter(non_empty_section()) == if non_empty_section()(all[b as int]) {
                all.take(b as int).filter(non_empty_section()).push(all[b as int])
            } else {
                all.take(b as int).filter(non_empty_section())
            });
        }
        if buckets[b].len() > 0 {
            let ghost before = groups@.map_values(|g: HistoryGroup| (g.label@, g.items@));
            let items = clone_rows(&buckets[b]);
            let label = section_name(b);
            groups.push(HistoryGroup { label, items });
            assert(groups@.map_values(|g: HistoryGroup| (g.label@, g.items@)) =~= before.push(
                all[b as int],
            ));
        }
        b = b + 1;
    }
    assert(all.take(4) =~= all);
    groups
}

/// An element-wise copy of a list of sidebar rows.
pub fn clone_rows(v: &Vec<ConversationSummary>) -> (r: Vec<ConversationSummary>)
    ensures
        r@ == v@,
{
    let mut out: Vec<ConversationSummary> = Vec::new();
    let mut i: usize = 0;
    while i < v.len()
        invariant
            i <= v@.len(),
            out@ == v@.take(i as int),
        decreases v.len() - i,
    {
        out.push(v[i].clone());
        i = i + 1;
        assert(out@ =~= v@.take(i as int));
    }
    assert(out@ =~= v@);
    out
}

/// Minimal provider state (status only, no secrets) for the settings view.
#[derive(Debug, Clone)]
pub struct ProviderState {
    pub name: String,
    pub status: ProviderStatus,
    pub models: Vec<String>,
}

/// Build provider rows from live states (status strings only, no secrets).
pub fn provider_rows(states: &[ProviderState]) -> (r: Vec<ProviderRow>)
    ensures
        r@.len() == states@.len(),
        forall|k: int|
            0 <= k < r@.len() ==> (#[trigger] r@[k]).name == states@[k].name && r@[k].status@
                == states@[k].status.label_view() && r@[k].models@ == states@[k].models@,
{
    let mut out: Vec<ProviderRow> = Vec::new();
    let mut i: usize = 0;
    while i < states.len()
        invariant
            i <= states@.len(),
            out@.len() == i,
            forall|k: int|
                0 <= k < i ==> (#[trigger] out@[k]).name == states@[k].name && out@[k].status@
                    == states@[k].status.label_view() && out@[k].models@ == states@[k].models@,
        decreases states.len() - i,
    {
        let s = &states[i];
        let models = clone_strings(&s.models);
        out.push(ProviderRow { name: s.name.clone(), status: s.status.label().to_string(), models });
        i = i + 1;
    }
    out
}

/// An element-wise copy of a list of strings.
pub fn clone_strings(v: &Vec<String>) -> (r: Vec<String>)
    ensures
        r@ == v@,
{
    let mut out: Vec<String> = Vec::new();
    let mut i: usize = 0;
    while i < v.len()
        invariant
            i <= v@.len(),
            out@ == v@.take(i as int),
        decreases v.len() - i,
    {
        out.push(v[i].clone());
        i = i + 1;
        assert(out@ =~= v@.take(i as int));
    }
    assert(out@ =~= v@);
    out
}

} // verus!
