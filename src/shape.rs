//! Shape-driven rules: how the alternatives of a union are numbered, and how a decoded
//! constructor is matched against them.
use vstd::prelude::*;
use crate::node::DecodeError;
use crate::parse::is_variant_count_error;

verus! {

/// How many alternatives in `overrides` carry no explicit variant number.
pub open spec fn count_implicit(overrides: Seq<Option<u64>>) -> nat
    decreases overrides.len(),
{
    if overrides.len() == 0 {
        0
    } else {
        count_implicit(overrides.drop_last()) + if overrides.last() is None {
            1nat
        } else {
            0nat
        }
    }
}

/// The logical variant of alternative `i`: its explicit number, or else its position among
/// the alternatives that have none.
pub open spec fn variant_number(overrides: Seq<Option<u64>>, i: int) -> int {
    match overrides[i] {
        Some(n) => n as int,
        None => count_implicit(overrides.subrange(0, i)) as int,
    }
}

proof fn lemma_count_implicit_bound(overrides: Seq<Option<u64>>)
    ensures
        count_implicit(overrides) <= overrides.len(),
    decreases overrides.len(),
{
    if overrides.len() > 0 {
        lemma_count_implicit_bound(overrides.drop_last());
    }
}

/// The logical variant of each alternative of a union, given the explicit numbers that
/// some of them carry.
pub fn assign_variants(overrides: &Vec<Option<u64>>) -> (r: Vec<u64>)
    ensures
        r.len() == overrides.len(),
        forall|i: int| 0 <= i < r.len() ==> r[i] == variant_number(overrides@, i),
{
    let mut r: Vec<u64> = Vec::new();
    let mut implicit: u64 = 0;
    let mut i: usize = 0;
    while i < overrides.len()
        invariant
            0 <= i <= overrides.len(),
            r.len() == i,
            implicit == count_implicit(overrides@.subrange(0, i as int)),
            forall|j: int| 0 <= j < i ==> r[j] == variant_number(overrides@, j),
        decreases overrides.len() - i,
    {
        proof {
            lemma_count_implicit_bound(overrides@.subrange(0, i as int));
            assert(overrides@.subrange(0, i + 1).drop_last() =~= overrides@.subrange(0, i as int));
        }
        match overrides[i] {
            Some(n) => {
                r.push(n);
            },
            None => {
                r.push(implicit);
                implicit = implicit + 1;
            },
        }
        i = i + 1;
    }
    r
}

/// Alternative `k` is the first in `numbers` whose variant is `variant`.
pub open spec fn is_first_match(numbers: Seq<u64>, variant: u64, k: int) -> bool {
    &&& 0 <= k < numbers.len()
    &&& numbers[k] == variant
    &&& forall|j: int| 0 <= j < k ==> numbers[j] != variant
}

/// The alternative that a constructor of variant `variant` with `len` fields stands for:
/// the first whose number is `variant`, which must take exactly `len` fields.
pub fn match_alternative(variant: u64, len: usize, numbers: &[u64], arities: &[usize]) -> (r:
    Result<usize, DecodeError>)
    requires
        numbers@.len() == arities@.len(),
    ensures
        (forall|k: int| 0 <= k < numbers@.len() ==> numbers@[k] != variant) ==> r
            == Err::<usize, DecodeError>(DecodeError::UnexpectedVariant { variant }),
        forall|k: int|
            #[trigger] is_first_match(numbers@, variant, k) ==> if arities@[k] == len {
                r == Ok::<usize, DecodeError>(k as usize)
            } else {
                r matches Err(e) && is_variant_count_error(e, variant, arities@[k], len as int)
            },
{
    let mut k: usize = 0;
    while k < numbers.len()
        invariant
            0 <= k <= numbers@.len(),
            numbers@.len() == arities@.len(),
            forall|j: int| 0 <= j < k ==> numbers@[j] != variant,
        decreases numbers@.len() - k,
    {
        if numbers[k] == variant {
            assert(is_first_match(numbers@, variant, k as int));
            if arities[k] == len {
                return Ok(k);
            } else {
                return Err(
                    DecodeError::WrongVariantFieldCount { variant, expected: arities[k], actual: len },
                );
            }
        }
        k = k + 1;
    }
    Err(DecodeError::UnexpectedVariant { variant })
}

} // verus!
