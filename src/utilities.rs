//! Small searching helpers shared across the crate.
use vstd::prelude::*;
use vstd::std_specs::cmp::PartialOrdSpec;

verus! {

/// Index of the first element of `slice` that does not compare less than `value`.
///
/// When the elements that compare less than `value` form a prefix of the slice (as they do
/// for a sorted slice), the result is the length of that prefix: every element before it is
/// less than `value`, and none from it on is. Elements that cannot be compared with `value`
/// count as not less.
pub fn lower_bound<T: PartialOrd>(slice: &[T], value: T) -> (r: usize)
    ensures
        r <= slice@.len(),
        T::obeys_partial_cmp_spec() && less_is_prefix(slice@, value) ==> {
            &&& forall|i: int| 0 <= i < r ==> is_less(#[trigger] slice@[i], value)
            &&& forall|i: int| r <= i < slice@.len() ==> !is_less(#[trigger] slice@[i], value)
        },
{
    let mut lo: usize = 0;
    let mut hi: usize = slice.len();
    while lo < hi
        invariant
            lo <= hi <= slice@.len(),
            T::obeys_partial_cmp_spec() && less_is_prefix(slice@, value) ==> {
                &&& forall|i: int| 0 <= i < lo ==> is_less(#[trigger] slice@[i], value)
                &&& forall|i: int| hi <= i < slice@.len() ==> !is_less(#[trigger] slice@[i], value)
            },
        decreases hi - lo,
    {
        let mid = lo + (hi - lo) / 2;
        let less = match slice[mid].partial_cmp(&value) {
            Some(core::cmp::Ordering::Less) => true,
            _ => false,
        };
        if less {
            lo = mid + 1;
        } else {
            hi = mid;
        }
    }
    lo
}

/// Whether `a` compares strictly less than `b`.
pub open spec fn is_less<T: PartialOrd>(a: T, b: T) -> bool {
    a.partial_cmp_spec(&b) == Some(core::cmp::Ordering::Less)
}

/// The elements of `s` that are less than `value` come before all the others.
pub open spec fn less_is_prefix<T: PartialOrd>(s: Seq<T>, value: T) -> bool {
    forall|i: int, j: int| 0 <= i <= j < s.len() && is_less(s[j], value) ==> is_less(s[i], value)
}

} // verus!
