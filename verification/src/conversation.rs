//! Conversations: ordered message histories with stable ids.
use vstd::prelude::*;

use crate::clock::{now_micros, random_uuid};
use crate::message::{ChatMessage, MessageRole};
use crate::text::{chars_of, str_eq, string_from_chars};

verus! {

/// Stable conversation identifier: the 128-bit value of a UUID.
#[derive(Debug, Clone, Copy, PartialEq, Eq, Structural, Hash)]
pub struct ConversationId(pub u128);

impl ConversationId {
    /// A fresh random (v4) identifier.
    pub fn new() -> Self {
        ConversationId(random_uuid())
    }
}

/// Title given to a conversation before it has a better one.
pub open spec fn placeholder_title() -> Seq<char> {
    "Nouvelle conversation"@
}

/// Number of messages of the given role.
pub open spec fn count_role(messages: Seq<ChatMessage>, role: MessageRole) -> nat
    decreases messages.len(),
{
    if messages.len() == 0 {
        0
    } else {
        count_role(messages.drop_last(), role) + if messages.last().role == role {
            1nat
        } else {
            0nat
        }
    }
}

/// `k` is the position of the first user message.
pub open spec fn is_first_user(messages: Seq<ChatMessage>, k: int) -> bool {
    &&& 0 <= k < messages.len()
    &&& messages[k].role == MessageRole::User
    &&& forall|j: int| 0 <= j < k ==> messages[j].role != MessageRole::User
}

/// The title a conversation gets from `derive_title`: kept when it is a
/// real title, otherwise the first 48 characters of the first user message
/// (unchanged when there is none).
pub open spec fn derived_title(title: Seq<char>, messages: Seq<ChatMessage>) -> Seq<char> {
    if title != placeholder_title() && title.len() != 0 {
        title
    } else if exists|k: int| is_first_user(messages, k) {
        let k = choose|k: int| is_first_user(messages, k);
        let text = messages[k].content@;
        if text.len() <= 48 {
            text
        } else {
            text.take(48)
        }
    } else {
        title
    }
}

/// An ordered message history plus metadata. Times are microseconds since
/// the Unix epoch.
#[derive(Debug, Clone)]
pub struct Conversation {
    pub id: ConversationId,
    pub title: String,
    pub messages: Vec<ChatMessage>,
    pub created_at: i64,
    pub updated_at: i64,
}

impl Conversation {
    /// An empty conversation with a fresh id, created now.
    pub fn new(title: String) -> (r: Self)
        ensures
            r.title == title,
            r.messages@.len() == 0,
            r.created_at == r.updated_at,
    {
        let now = now_micros();
        Conversation {
            id: ConversationId::new(),
            title,
            messages: Vec::new(),
            created_at: now,
            updated_at: now,
        }
    }

    /// Appends a message and refreshes the update time.
    pub fn push(&mut self, message: ChatMessage)
        ensures
            final(self).messages@ == old(self).messages@.push(message),
            final(self).id == old(self).id,
            final(self).title == old(self).title,
            final(self).created_at == old(self).created_at,
    {
        self.messages.push(message);
        self.updated_at = now_micros();
    }

    /// Number of user messages.
    pub fn user_turns(&self) -> (r: usize)
        ensures
            r == count_role(self.messages@, MessageRole::User),
    {
        let mut n: usize = 0;
        let mut i: usize = 0;
        while i < self.messages.len()
            invariant
                i <= self.messages.len(),
                n == count_role(self.messages@.take(i as int), MessageRole::User),
                n <= i,
            decreases self.messages.len() - i,
        {
            assert(self.messages@.take(i + 1).drop_last() =~= self.messages@.take(i as int));
            if self.messages[i].role == MessageRole::User {
                n = n + 1;
            }
            i = i + 1;
        }
        assert(self.messages@.take(self.messages.len() as int) =~= self.messages@);
        n
    }

    /// Suggest a title from the first user message (used when the model
    /// hasn't provided one).
    pub fn derive_title(&mut self)
        ensures
            final(self).title@ == derived_title(old(self).title@, old(self).messages@),
            final(self).messages == old(self).messages,
            final(self).id == old(self).id,
            final(self).created_at == old(self).created_at,
            final(self).updated_at == old(self).updated_at,
    {
        if !str_eq(self.title.as_str(), "Nouvelle conversation") && !self.title.as_str().is_empty() {
            return;
        }
        let mut i: usize = 0;
        while i < self.messages.len()
            invariant
                i <= self.messages.len(),
                forall|j: int| 0 <= j < i ==> self.messages@[j].role != MessageRole::User,
                *self == *old(self),
                !(old(self).title@ != placeholder_title() && old(self).title@.len() != 0),
            decreases self.messages.len() - i,
        {
            if self.messages[i].role == MessageRole::User {
                let chars = chars_of(self.messages[i].content.as_str());
                let mut out: Vec<char> = Vec::new();
                let mut k: usize = 0;
                while k < chars.len() && k < 48
                    invariant
                        k <= chars.len(),
                        k <= 48,
                        out@ == chars@.take(k as int),
                    decreases chars.len() - k,
                {
                    out.push(chars[k]);
                    k = k + 1;
                    assert(out@ =~= chars@.take(k as int));
                }
                proof {
                    assert(is_first_user(self.messages@, i as int));
                    let c = choose|c: int| is_first_user(self.messages@, c);
                    assert(c == i) by {
                        if c < i {
                            assert(self.messages@[c].role != MessageRole::User);
                        }
                        if i < c {
                            assert(self.messages@[i as int].role != MessageRole::User);
                        }
                    }
                    if chars@.len() <= 48 {
                        assert(out@ =~= chars@);
                    }
                }
                self.title = string_from_chars(&out);
                return;
            }
            i = i + 1;
        }
        assert(!exists|k: int| is_first_user(self.messages@, k));
    }
}

/// Counting user turns only ever grows when messages are appended, by one
/// for a user message and by nothing otherwise.
pub proof fn law_user_turns_after_push(messages: Seq<ChatMessage>, m: ChatMessage)
    ensures
        count_role(messages.push(m), MessageRole::User) == count_role(messages, MessageRole::User)
            + if m.role == MessageRole::User {
            1nat
        } else {
            0nat
        },
{
    assert(messages.push(m).drop_last() =~= messages);
}

} // verus!
