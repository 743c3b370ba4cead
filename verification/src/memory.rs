//! Long-term memory items and their categories.
use vstd::prelude::*;

use crate::clock::{now_micros, random_uuid};
use crate::text::str_eq;

verus! {

/// Broad category used for filtering and display.
#[derive(Debug, Clone)]
pub enum MemoryCategory {
    Preference,
    Fact,
    Project,
    Other(String),
}

impl MemoryCategory {
    pub open spec fn label_view(&self) -> Seq<char> {
        match self {
            MemoryCategory::Preference => "preference"@,
            MemoryCategory::Fact => "fact"@,
            MemoryCategory::Project => "project"@,
            MemoryCategory::Other(s) => s@,
        }
    }

    /// Stored/displayed name of the category.
    pub fn label(&self) -> (r: String)
        ensures
            r@ == self.label_view(),
    {
        match self {
            MemoryCategory::Preference => "preference".to_string(),
            MemoryCategory::Fact => "fact".to_string(),
            MemoryCategory::Project => "project".to_string(),
            MemoryCategory::Other(s) => s.clone(),
        }
    }
}

/// The category a stored label denotes.
pub open spec fn category_of(label: Seq<char>, c: MemoryCategory) -> bool {
    if label == "preference"@ {
        c is Preference
    } else if label == "fact"@ {
        c is Fact
    } else if label == "project"@ {
        c is Project
    } else {
        c matches MemoryCategory::Other(s) && s@ == label
    }
}

/// Reads a stored category label back.
pub fn parse_category(s: &str) -> (r: MemoryCategory)
    ensures
        category_of(s@, r),
{
    if str_eq(s, "preference") {
        MemoryCategory::Preference
    } else if str_eq(s, "fact") {
        MemoryCategory::Fact
    } else if str_eq(s, "project") {
        MemoryCategory::Project
    } else {
        MemoryCategory::Other(s.to_string())
    }
}

/// Storing a category and reading it back gives the same label.
pub proof fn law_category_label_round_trip(c: MemoryCategory, back: MemoryCategory)
    requires
        category_of(c.label_view(), back),
    ensures
        back.label_view() == c.label_view(),
{
}

/// Bit pattern of the `f32` value 1.0.
pub const ONE_F32_BITS: u32 = 0x3F80_0000;

/// `f32::clamp(x, 0.0, 1.0)` on the bit pattern of `x` (IEEE-754 single
/// precision): NaN and values already in range are kept (`-0.0`
/// included), negative values become `0.0`, values above one become `1.0`.
pub open spec fn clamp_unit_bits(bits: u32) -> u32 {
    let negative = bits >= 0x8000_0000;
    let magnitude = if negative {
        bits - 0x8000_0000
    } else {
        bits as int
    };
    if magnitude > 0x7F80_0000 {
        bits
    } else if negative && magnitude > 0 {
        0
    } else if !negative && magnitude > 0x3F80_0000 {
        ONE_F32_BITS
    } else {
        bits
    }
}

/// Clamps an `f32` importance (given by its bits) to `0.0..=1.0`.
pub fn clamp_importance(bits: u32) -> (r: u32)
    ensures
        r == clamp_unit_bits(bits),
{
    let negative = bits >= 0x8000_0000;
    let magnitude = if negative { bits - 0x8000_0000 } else { bits };
    if magnitude > 0x7F80_0000 {
        bits
    } else if negative && magnitude > 0 {
        0
    } else if !negative && magnitude > 0x3F80_0000 {
        ONE_F32_BITS
    } else {
        bits
    }
}

/// A single remembered item. The importance is held as the bit pattern of
/// its `f32` value (0.0 trivia .. 1.0 critical); times are microseconds
/// since the Unix epoch.
#[derive(Debug, Clone)]
pub struct Memory {
    pub id: u128,
    pub content: String,
    pub category: MemoryCategory,
    pub importance_bits: u32,
    pub created_at: i64,
    pub updated_at: i64,
}

impl Memory {
    /// A fresh memory with a new id, the current time and the importance
    /// clamped to `0.0..=1.0`.
    pub fn new(content: String, category: MemoryCategory, importance_bits: u32) -> (r: Self)
        ensures
            r.content == content,
            r.category == category,
            r.importance_bits == clamp_unit_bits(importance_bits),
            r.created_at == r.updated_at,
    {
        let now = now_micros();
        Memory {
            id: random_uuid(),
            content,
            category,
            importance_bits: clamp_importance(importance_bits),
            created_at: now,
            updated_at: now,
        }
    }

    pub fn category_label(&self) -> (r: String)
        ensures
            r@ == self.category.label_view(),
    {
        self.category.label()
    }
}

/// Storage failure of the memory store.
#[derive(Debug, Clone)]
pub enum MemoryError {
    Storage(String),
}

} // verus!
