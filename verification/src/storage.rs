//! What the local stores decide: which memories a search returns and how
//! storage failures are reported. The SQL itself runs in the caller.
use vstd::prelude::*;

use crate::conversation::ConversationId;
use crate::memory::{Memory, MemoryError};
use crate::text::{contains_str, lowercase_text, seq_contains, to_lowercase};

verus! {

/// A conversation store failure.
#[derive(Debug, Clone)]
pub enum StoreError {
    Backend(String),
    NotFound(ConversationId),
}

/// A settings store failure.
#[derive(Debug, Clone)]
pub enum SettingsError {
    Storage(String),
}

/// A backend failure with this message.
pub fn to_store(message: String) -> (r: StoreError)
    ensures
        r matches StoreError::Backend(m) && m == message,
{
    StoreError::Backend(message)
}

/// A memory store failure with this message.
pub fn to_err(message: String) -> (r: MemoryError)
    ensures
        r matches MemoryError::Storage(m) && m == message,
{
    MemoryError::Storage(message)
}

/// A settings store failure with this message.
pub fn settings_error(message: String) -> (r: SettingsError)
    ensures
        r matches SettingsError::Storage(m) && m == message,
{
    SettingsError::Storage(message)
}

/// The error for a failed lookup of conversation `id`: a database message
/// about missing rows means the conversation does not exist.
pub fn lookup_error(message: String, id: ConversationId) -> (r: StoreError)
    ensures
        seq_contains(message@, "no rows"@) || seq_contains(message@, "no row"@) ==> r
            == StoreError::NotFound(id),
        !(seq_contains(message@, "no rows"@) || seq_contains(message@, "no row"@)) ==> (r matches StoreError::Backend(
            m,
        ) && m == message),
{
    if contains_str(message.as_str(), "no rows") || contains_str(message.as_str(), "no row") {
        StoreError::NotFound(id)
    } else {
        StoreError::Backend(message)
    }
}

/// A memory matches a (lowercased) query when the query is empty, or the
/// lowercased content or the category label contains it.
pub open spec fn memory_matches(m: Memory, query: Seq<char>) -> bool {
    query.len() == 0 || seq_contains(lowercase_text(m.content@), query) || seq_contains(
        m.category.label_view(),
        query,
    )
}

/// Keeps the memories that match.
pub open spec fn matching(query: Seq<char>) -> spec_fn(Memory) -> bool {
    |m: Memory| memory_matches(m, query)
}

/// At most `n` first elements.
pub open spec fn first_n<A>(s: Seq<A>, n: nat) -> Seq<A> {
    if s.len() <= n {
        s
    } else {
        s.take(n as int)
    }
}

/// Keyword search over memories (in the store's order): those matching
/// the lowercased query, at most `limit` of them.
pub fn search_memories(memories: Vec<Memory>, query: &str, limit: usize) -> (r: Vec<Memory>)
    ensures
        r@ == first_n(memories@.filter(matching(lowercase_text(query@))), limit as nat),
{
    let q = to_lowercase(query);
    let mut kept: Vec<Memory> = Vec::new();
    let mut rest = memories;
    let ghost all = rest@;
    let ghost n = all.len();
    assert(all.skip(0) =~= all);
    assert(kept@ =~= all.take(0).filter(matching(q@)));
    while rest.len() > 0
        invariant
            q@ == lowercase_text(query@),
            rest@.len() <= n,
            n == all.len(),
            rest@ == all.skip(n - rest@.len()),
            kept@ == all.take(n - rest@.len()).filter(matching(q@)),
        decreases rest@.len(),
    {
        let ghost i = n - rest@.len();
        let m = rest.remove(0);
        assert(m == all[i]);
        assert(rest@ =~= all.skip(i + 1));
        proof {
            reveal_with_fuel(Seq::filter, 1);
            assert(all.take(i + 1).drop_last() =~= all.take(i));
            assert(all.take(i + 1).last() == all[i]);
        }
        let keep = q.as_str().is_empty() || contains_str(to_lowercase(m.content.as_str()).as_str(), q.as_str())
            || contains_str(m.category.label().as_str(), q.as_str());
        if keep {
            kept.push(m);
        }
    }
    assert(all.take(n as int) =~= all);
    if kept.len() > limit {
        kept.truncate(limit);
    }
    kept
}

} // verus!
