//! Model pricing policy: the backend side of the free-only guarantee.
//!
//! Prices are `f64` values held by their IEEE-754 bit patterns; a price is
//! free exactly when it compares equal to zero, that is when its bits are
//! those of `+0.0` or `-0.0`. There is intentionally no way to approve a
//! paid model.
use vstd::prelude::*;

use crate::json::{json_as_str, json_number_bits, number_bits, string_content};
use crate::text::{trim_seq, trim_str};

verus! {

/// Bit pattern of `-0.0`.
pub const NEGATIVE_ZERO_BITS: u64 = 0x8000_0000_0000_0000;

/// The `f64` with these bits compares equal to `0.0`.
pub open spec fn is_zero_price(bits: u64) -> bool {
    bits == 0 || bits == NEGATIVE_ZERO_BITS
}

/// Pricing policy applied to model selection.
#[derive(Debug, Clone, Copy, PartialEq, Eq, Structural)]
pub enum ModelPricingPolicy {
    FreeOnly,
}

impl Default for ModelPricingPolicy {
    fn default() -> (r: Self)
        ensures
            r == ModelPricingPolicy::FreeOnly,
    {
        ModelPricingPolicy::FreeOnly
    }
}

/// Rejection of a model that violates the pricing policy (prices as `f64`
/// bit patterns).
#[derive(Debug, Clone)]
pub enum PolicyViolation {
    ModelNotFree { model: String, prompt_bits: u64, completion_bits: u64 },
    UnknownModel(String),
}

/// Whether a price (by its bits) is exactly zero.
pub fn price_is_zero(bits: u64) -> (r: bool)
    ensures
        r == is_zero_price(bits),
{
    bits == 0 || bits == NEGATIVE_ZERO_BITS
}

/// Pricing check: both prices must be exactly zero.
pub fn check_free_only(model: &str, prompt_bits: u64, completion_bits: u64) -> (r: Result<
    (),
    PolicyViolation,
>)
    ensures
        r is Ok <==> is_zero_price(prompt_bits) && is_zero_price(completion_bits),
        r matches Err(PolicyViolation::ModelNotFree { model: m, prompt_bits: p, completion_bits: c })
            ==> m@ == model@ && p == prompt_bits && c == completion_bits,
        !(r matches Err(PolicyViolation::UnknownModel(_))),
{
    if price_is_zero(prompt_bits) && price_is_zero(completion_bits) {
        Ok(())
    } else {
        Err(
            PolicyViolation::ModelNotFree {
                model: model.to_string(),
                prompt_bits,
                completion_bits,
            },
        )
    }
}

/// Bits of the float that a text denotes as a JSON number, if it is one.
pub uninterp spec fn number_text_bits(s: Seq<char>) -> Option<u64>;

/// `str::parse::<serde_json::Number>` (the JSON number grammar, the whole
/// text), then `Number::as_f64` and `to_bits`: the same text always gives
/// the same bits; `None` when the text is not a JSON number. Float texts
/// outside that grammar (`+0`, `.5`, `0.`, `inf`, `NaN`) have no price
/// here, so a model priced that way is never counted as free.
#[verifier::external_body]
fn parse_number_bits(s: &str) -> (r: Option<u64>)
    ensures
        r == number_text_bits(s@),
{
    s.parse::<serde_json::Number>().ok().and_then(|n| n.as_f64()).map(|v| v.to_bits())
}

/// The price a JSON value denotes: a string is trimmed and read as a JSON
/// number, a number is taken as is; anything else has no price.
pub open spec fn price_of(value: serde_json::Value) -> Option<u64> {
    match string_content(value) {
        Some(s) => number_text_bits(trim_seq(s)),
        None => number_bits(value),
    }
}

/// Parse an OpenRouter-style price (`"0"`, `"0.000001"`, `0`, …) into the
/// bits of its float value. Anything unparsable yields `None`, so callers
/// fail closed.
pub fn parse_price(value: &serde_json::Value) -> (r: Option<u64>)
    ensures
        r == price_of(*value),
{
    match json_as_str(value) {
        Some(s) => price_from_text(s.as_str()),
        None => json_number_bits(value),
    }
}

/// The price written in a JSON string: its trimmed text parsed as a float.
pub fn price_from_text(s: &str) -> (r: Option<u64>)
    ensures
        r == number_text_bits(trim_seq(s@)),
{
    let t = trim_str(s);
    parse_number_bits(t.as_str())
}

} // verus!
