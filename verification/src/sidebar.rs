//! Sidebar rows for the saved conversations, most recently updated first.
use vstd::prelude::*;

use crate::conversation::Conversation;
use crate::ui::ConversationSummary;

verus! {

/// `day/month hour:minute` of a UTC instant given in microseconds since
/// the epoch (`None` when the instant cannot be represented).
pub uninterp spec fn day_time_of(micros: i64) -> Option<Seq<char>>;

/// `chrono::DateTime::from_timestamp_micros` then `format("%d/%m %H:%M")`
/// (UTC). Claimed: the text is `day_time_of` the instant, `None` exactly when
/// that has none.
#[verifier::external_body]
fn day_time_text(micros: i64) -> (r: Option<String>)
    ensures
        match r {
            Some(t) => day_time_of(micros) == Some(t@),
            None => day_time_of(micros) is None,
        },
{
    chrono::DateTime::from_timestamp_micros(micros).map(|d| d.format("%d/%m %H:%M").to_string())
}

/// `chrono::DateTime::from_timestamp_micros(micros)` gives an instant (the
/// microseconds are within chrono's representable range).
pub uninterp spec fn micros_in_range(micros: i64) -> bool;

/// The local calendar day of an instant given in microseconds since the
/// epoch, counted from the start of the Common Era
/// (`DateTime::from_timestamp_micros`, then `with_timezone(&Local)`, the
/// local date by `NaiveDateTime::checked_add_offset` of the zone's offset,
/// and `num_days_from_ce`). `None` when the instant, or its local date, is
/// out of chrono's range. Claimed: a day comes only for an instant that
/// `from_timestamp_micros` accepts (`micros_in_range`); the day itself
/// depends on the time zone, and nothing is claimed about it.
#[verifier::external_body]
fn local_day_number(micros: i64) -> (r: Option<i32>)
    ensures
        r is Some ==> micros_in_range(micros),
{
    let local = chrono::DateTime::from_timestamp_micros(micros)?.with_timezone(&chrono::Local);
    let naive = local.naive_utc().checked_add_offset(*local.offset())?;
    Some(chrono::Datelike::num_days_from_ce(&naive.date()))
}

/// Today's local calendar day, counted from the start of the Common Era
/// (`Local::now().date_naive().num_days_from_ce()`). Depends on the clock:
/// nothing is claimed about it.
#[verifier::external_body]
fn local_today_number() -> i32 {
    chrono::Datelike::num_days_from_ce(&chrono::Local::now().date_naive())
}

/// Whole days from the local day `then` to the local day `today`.
pub fn day_difference(today: i32, then: i32) -> (r: i64)
    ensures
        r == today - then,
{
    today as i64 - then as i64
}

/// Whole days since a conversation's last update, in local time: today's
/// local day minus that of the update (`day_difference` of the two day
/// numbers read from the clock and the time zone); zero when the update
/// time, or its local date, cannot be represented.
pub fn days_ago(updated_at: i64) -> (r: i64)
    ensures
        !micros_in_range(updated_at) ==> r == 0,
{
    match local_day_number(updated_at) {
        Some(then) => {
            let today = local_today_number();
            day_difference(today, then)
        },
        None => 0,
    }
}

/// Positions `0..n` ordered by `keys`, largest first; equal keys keep
/// their order.
pub open spec fn ordered_desc(keys: Seq<i64>, order: Seq<usize>) -> bool {
    &&& forall|i: int| 0 <= i < order.len() ==> #[trigger] order[i] < keys.len()
    &&& forall|i: int, j: int|
        0 <= i < j < order.len() ==> keys[#[trigger] order[i] as int] > keys[#[trigger] order[j] as int] || (keys[order[i] as int]
            == keys[order[j] as int] && order[i] < order[j])
}

/// The positions of a sequence of length `n`, in order.
pub open spec fn positions(n: nat) -> Seq<usize> {
    Seq::new(n, |i: int| i as usize)
}

/// Positions of `keys` sorted by key, largest first, stable.
pub fn order_by_key_desc(keys: &Vec<i64>) -> (r: Vec<usize>)
    ensures
        r@.len() == keys@.len(),
        r@.to_multiset() == positions(keys@.len()).to_multiset(),
        ordered_desc(keys@, r@),
{
    let mut out: Vec<usize> = Vec::new();
    let mut k: usize = 0;
    assert(out@ =~= positions(0));
    while k < keys.len()
        invariant
            k <= keys@.len(),
            out@.len() == k,
            out@.to_multiset() == positions(k as nat).to_multiset(),
            forall|i: int| 0 <= i < out@.len() ==> #[trigger] out@[i] < k,
            ordered_desc(keys@, out@),
        decreases keys.len() - k,
    {
        let key = keys[k];
        let mut p: usize = 0;
        while p < out.len() && keys[out[p]] >= key
            invariant
                p <= out@.len(),
                forall|i: int| 0 <= i < out@.len() ==> #[trigger] out@[i] < k,
                k < keys@.len(),
                forall|i: int| 0 <= i < p ==> keys@[#[trigger] out@[i] as int] >= key,
            decreases out.len() - p,
        {
            p = p + 1;
        }
        let ghost before = out@;
        out.insert(p, k);
        proof {
            vstd::seq_lib::to_multiset_insert(before, p as int, k);
            assert(positions((k + 1) as nat) =~= positions(k as nat).push(k));
            vstd::seq_lib::to_multiset_build(positions(k as nat), k);
            assert forall|i: int| 0 <= i < out@.len() implies #[trigger] out@[i] < k + 1 by {
                if i < p {
                    assert(out@[i] == before[i]);
                } else if i > p {
                    assert(out@[i] == before[i - 1]);
                }
            }
            assert forall|i: int, j: int| 0 <= i < j < out@.len() implies keys@[#[trigger] out@[i] as int]
                > keys@[#[trigger] out@[j] as int] || (keys@[out@[i] as int] == keys@[out@[j] as int]
                && out@[i] < out@[j]) by {
                if j < p {
                    assert(out@[i] == before[i] && out@[j] == before[j]);
                } else if j == p {
                    assert(out@[i] == before[i]);
                } else if i == p {
                    assert(out@[j] == before[j - 1]);
                    assert(keys@[before[p as int] as int] < key);
                    if j - 1 > p {
                        assert(keys@[before[p as int] as int] >= keys@[before[j - 1] as int]);
                    }
                } else if i < p {
                    assert(out@[i] == before[i] && out@[j] == before[j - 1]);
                    assert(keys@[before[i] as int] >= key);
                    if j - 1 >= p {
                        assert(keys@[before[p as int] as int] < key);
                        if j - 1 > p {
                            assert(keys@[before[p as int] as int] >= keys@[before[j - 1] as int]);
                        }
                    }
                } else {
                    assert(out@[i] == before[i - 1] && out@[j] == before[j - 1]);
                }
            }
        }
        k = k + 1;
    }
    out
}

/// A conversation's row title: its own, or `(sans titre)`.
pub open spec fn row_title(title: Seq<char>) -> Seq<char> {
    if title.len() == 0 {
        "(sans titre)"@
    } else {
        title
    }
}

/// Build sidebar rows, most recently updated first (stable for equal
/// times): each row names its conversation, shows its title (or
/// `(sans titre)`) and its update time.
pub fn summarize(conversations: &Vec<Conversation>) -> (r: Vec<ConversationSummary>)
    ensures
        r@.len() == conversations@.len(),
        exists|order: Seq<usize>|
            #![trigger order.len()]
            order.len() == conversations@.len() && order.to_multiset() == positions(
                conversations@.len(),
            ).to_multiset() && ordered_desc(
                conversations@.map_values(|c: Conversation| c.updated_at),
                order,
            ) && forall|k: int|
                0 <= k < r@.len() ==> (#[trigger] r@[k]).id == conversations@[order[k] as int].id
                    && r@[k].title@ == row_title(conversations@[order[k] as int].title@)
                    && r@[k].updated@ == match day_time_of(conversations@[order[k] as int].updated_at) {
                    Some(t) => t,
                    None => seq![],
                },
{
    let mut keys: Vec<i64> = Vec::new();
    let mut i: usize = 0;
    while i < conversations.len()
        invariant
            i <= conversations@.len(),
            keys@ == conversations@.take(i as int).map_values(|c: Conversation| c.updated_at),
        decreases conversations.len() - i,
    {
        keys.push(conversations[i].updated_at);
        i = i + 1;
        assert(keys@ =~= conversations@.take(i as int).map_values(|c: Conversation| c.updated_at));
    }
    assert(conversations@.take(conversations@.len() as int) =~= conversations@);
    let order = order_by_key_desc(&keys);
    let mut rows: Vec<ConversationSummary> = Vec::new();
    let mut k: usize = 0;
    while k < order.len()
        invariant
            k <= order@.len(),
            order@.len() == conversations@.len(),
            forall|j: int| 0 <= j < order@.len() ==> #[trigger] order@[j] < conversations@.len(),
            rows@.len() == k,
            forall|j: int|
                0 <= j < k ==> (#[trigger] rows@[j]).id == conversations@[order@[j] as int].id
                    && rows@[j].title@ == row_title(conversations@[order@[j] as int].title@)
                    && rows@[j].updated@ == match day_time_of(conversations@[order@[j] as int].updated_at) {
                    Some(t) => t,
                    None => seq![],
                },
        decreases order.len() - k,
    {
        proof {
            reveal_strlit("");
        }
        let c = &conversations[order[k]];
        let title = if c.title.as_str().is_empty() {
            "(sans titre)".to_string()
        } else {
            c.title.clone()
        };
        let updated = match day_time_text(c.updated_at) {
            Some(t) => t,
            None => String::new(),
        };
        rows.push(
            ConversationSummary {
                id: c.id,
                title,
                updated,
                updated_days_ago: days_ago(c.updated_at),
            },
        );
        k = k + 1;
    }
    assert(order@.len() == conversations@.len());
    rows
}

} // verus!
