//! Constructor tag arithmetic: logical variant numbers and physical tags.
use vstd::prelude::*;
use crate::node::{Constr, PlutusData};

verus! {

/// The physical tag and overflow discriminant that stand for logical variant `n`.
pub open spec fn tag_of(n: u64) -> (u64, Option<u64>) {
    if n <= 6 {
        ((121 + n) as u64, None)
    } else if n <= 127 {
        ((1280 + n - 7) as u64, None)
    } else {
        (102, Some(n))
    }
}

/// The logical variant that a physical tag stands for, if any.
pub open spec fn variant_of(tag: u64, any_constructor: Option<u64>) -> Option<u64> {
    if 121 <= tag <= 127 {
        Some((tag - 121) as u64)
    } else if 1280 <= tag <= 1400 {
        Some((tag - 1280 + 7) as u64)
    } else if tag == 102 {
        any_constructor
    } else {
        None
    }
}

/// Decoding the tag produced for any variant yields that variant again.
pub proof fn lemma_tag_inverse(n: u64)
    ensures
        variant_of(tag_of(n).0, tag_of(n).1) == Some(n),
{
}

/// The logical variant of a constructor node, or `None` for a tag that stands for none.
pub fn constructor_value(c: &Constr) -> (r: Option<u64>)
    ensures
        r == variant_of(c.tag, c.any_constructor),
{
    if 121 <= c.tag && c.tag <= 127 {
        Some(c.tag - 121)
    } else if 1280 <= c.tag && c.tag <= 1400 {
        Some(c.tag - 1280 + 7)
    } else if c.tag == 102 {
        c.any_constructor
    } else {
        None
    }
}

/// A constructor node for logical variant `variant` holding `fields`.
pub fn create_constr(variant: u64, fields: Vec<PlutusData>) -> (r: PlutusData)
    ensures
        r == PlutusData::Constr(
            Constr { tag: tag_of(variant).0, any_constructor: tag_of(variant).1, fields },
        ),
{
    let (tag, any_constructor) = if variant <= 6 {
        (variant + 121, None)
    } else if variant <= 127 {
        (variant + 1280 - 7, None)
    } else {
        (102, Some(variant))
    };
    PlutusData::Constr(Constr { tag, any_constructor, fields })
}

} // verus!
