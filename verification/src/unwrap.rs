//! The runtime meaning of a synthesized conversion. A generated conversion
//! matches a union value against one specific tag: on a match it returns the
//! wrapped payload, on any other tag it returns the fixed failure message.
//! This module states that behavior over a value's tag and payload and proves
//! its laws; the emitted source text in [`crate::emit`] spells out the same
//! match, arm for arm.

use vstd::prelude::*;
use crate::emit::wrong_variant_message;

verus! {

/// A union value as one generated conversion sees it: the tag the value was
/// constructed through, and the payload that variant wraps.
pub struct TaggedValue<T> {
    pub tag: String,
    pub value: T,
}

/// What a generated conversion returns: the payload when the value was
/// constructed through the targeted variant, the fixed message otherwise.
pub open spec fn unwrap_spec<T>(tag: Seq<char>, value: T, target: Seq<char>) -> Result<
    T,
    Seq<char>,
> {
    if tag == target {
        Result::Ok(value)
    } else {
        Result::Err(wrong_variant_message())
    }
}

/// Performs the conversion a generated `try_from` body performs: the payload
/// comes back exactly when the value's tag is the targeted one.
pub fn try_unwrap<T>(v: TaggedValue<T>, target_tag: &String) -> (r: Result<T, &'static str>)
    ensures
        (match unwrap_spec(v.tag@, v.value, target_tag@) {
            Result::Ok(x) => r matches Ok(y) && y == x,
            Result::Err(m) => r matches Err(s) && s@ == m,
        }),
{
    if v.tag == *target_tag {
        Ok(v.value)
    } else {
        Err(
            "Only variants containing an inner value of the same type as the target should be passed to this function",
        )
    }
}

/// Round trip: extracting through the very variant a value was constructed
/// with yields the wrapped payload unchanged.
pub proof fn lemma_round_trip<T>(tag: Seq<char>, value: T)
    ensures
        unwrap_spec(tag, value, tag) == Result::<T, Seq<char>>::Ok(value),
{
}

/// Wrong variant: extracting through any other variant yields the fixed
/// failure message, never a success.
pub proof fn lemma_wrong_variant<T>(tag: Seq<char>, value: T, target: Seq<char>)
    requires
        tag != target,
    ensures
        unwrap_spec(tag, value, target) == Result::<T, Seq<char>>::Err(wrong_variant_message()),
{
}

} // verus!
