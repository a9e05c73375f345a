//! Small utilities on integer slices and vectors.

use vstd::prelude::*;

verus! {

/// The sum of the first `n` elements.
pub open spec fn sum_below(s: Seq<i32>, n: int) -> int
    decreases n,
{
    if n <= 0 {
        0
    } else {
        sum_below(s, n - 1) + s[n - 1]
    }
}

/// The sum of a slice.  Every prefix sum must be representable, which is
/// what the summation loop accumulates.
pub fn sum_slice(slice: &[i32]) -> (r: i32)
    requires
        forall|k: int|
            0 <= k <= slice@.len() ==> i32::MIN <= #[trigger] sum_below(slice@, k) <= i32::MAX,
    ensures
        r == sum_below(slice@, slice@.len() as int),
{
    let n = slice.len();
    let mut sum: i32 = 0;
    let mut i: usize = 0;
    while i < n
        invariant
            i <= n,
            n == slice@.len(),
            sum == sum_below(slice@, i as int),
            forall|k: int|
                0 <= k <= slice@.len() ==> i32::MIN <= #[trigger] sum_below(slice@, k) <= i32::MAX,
        decreases n - i,
    {
        proof {
            assert(sum_below(slice@, i + 1) == sum_below(slice@, i as int) + slice@[i as int]);
        }
        sum = sum + slice[i];
        i = i + 1;
    }
    sum
}

/// The sum of a vector, through a borrow.
pub fn calculate_sum(data: &Vec<i32>) -> (r: i32)
    requires
        forall|k: int|
            0 <= k <= data@.len() ==> i32::MIN <= #[trigger] sum_below(data@, k) <= i32::MAX,
    ensures
        r == sum_below(data@, data@.len() as int),
{
    sum_slice(data.as_slice())
}

/// A reference to a largest element, or nothing for an empty slice.
pub fn find_max(slice: &[i32]) -> (r: Option<&i32>)
    ensures
        slice@.len() == 0 ==> r is None,
        slice@.len() > 0 ==> (r matches Some(m) && (forall|k: int|
            0 <= k < slice@.len() ==> slice@[k] <= *m) && (exists|k: int|
            0 <= k < slice@.len() && slice@[k] == *m)),
{
    let n = slice.len();
    if n == 0 {
        return None;
    }
    let mut best: usize = 0;
    let mut i: usize = 1;
    while i < n
        invariant
            best < i <= n,
            n == slice@.len(),
            forall|k: int| 0 <= k < i ==> slice@[k] <= slice@[best as int],
        decreases n - i,
    {
        if slice[i] > slice[best] {
            best = i;
        }
        i = i + 1;
    }
    Some(&slice[best])
}

/// The positive elements, doubled, in order.
pub open spec fn doubled_positives(s: Seq<i32>) -> Seq<i32>
    decreases s.len(),
{
    if s.len() == 0 {
        Seq::empty()
    } else {
        doubled_positives(s.drop_last()) + if s.last() > 0 {
            seq![(2 * s.last()) as i32]
        } else {
            Seq::empty()
        }
    }
}

/// Keep the positive elements and double them.
pub fn filter_and_double(slice: &[i32]) -> (r: Vec<i32>)
    requires
        forall|k: int| 0 <= k < slice@.len() ==> 2 * #[trigger] slice@[k] <= i32::MAX,
    ensures
        r@ == doubled_positives(slice@),
{
    let n = slice.len();
    let mut r: Vec<i32> = Vec::new();
    let mut i: usize = 0;
    proof {
        assert(r@ =~= doubled_positives(slice@.take(0)));
    }
    while i < n
        invariant
            i <= n,
            n == slice@.len(),
            r@ == doubled_positives(slice@.take(i as int)),
            forall|k: int| 0 <= k < slice@.len() ==> 2 * #[trigger] slice@[k] <= i32::MAX,
        decreases n - i,
    {
        let ghost i0 = i as int;
        let x = slice[i];
        if x > 0 {
            r.push(x * 2);
        }
        proof {
            let pre = slice@.take(i0 + 1);
            assert(pre.drop_last() =~= slice@.take(i0));
            assert(pre.last() == slice@[i0]);
            if slice@[i0] > 0 {
                assert(r@ =~= doubled_positives(slice@.take(i0)) + seq![
                    (2 * slice@[i0]) as i32,
                ]);
            } else {
                assert(r@ =~= doubled_positives(slice@.take(i0)) + Seq::<i32>::empty());
            }
        }
        i = i + 1;
    }
    proof {
        assert(slice@.take(n as int) =~= slice@);
    }
    r
}

/// Double every element in place.
pub fn double_values(data: &mut Vec<i32>)
    requires
        forall|k: int|
            0 <= k < old(data)@.len() ==> i32::MIN <= 2 * #[trigger] old(data)@[k] <= i32::MAX,
    ensures
        final(data)@.len() == old(data)@.len(),
        forall|k: int| 0 <= k < old(data)@.len() ==> #[trigger] final(data)@[k] == 2 * old(data)@[k],
{
    let n = data.len();
    let mut i: usize = 0;
    while i < n
        invariant
            i <= n,
            n == data@.len(),
            n == old(data)@.len(),
            forall|k: int|
                0 <= k < old(data)@.len() ==> i32::MIN <= 2 * #[trigger] old(data)@[k]
                    <= i32::MAX,
            forall|k: int| i <= k < n ==> #[trigger] data@[k] == old(data)@[k],
            forall|k: int| 0 <= k < i ==> #[trigger] data@[k] == 2 * old(data)@[k],
        decreases n - i,
    {
        let v = data[i];
        proof {
            assert(v == old(data)@[i as int]);
        }
        let slot = &mut data[i];
        *slot = v * 2;
        i = i + 1;
    }
}

/// Take ownership of the data and append the next element.
pub fn process_data(data: Vec<i32>) -> (r: Vec<i32>)
    ensures
        r@ == data@.push(6),
{
    let mut data = data;
    data.push(6);
    data
}

} // verus!
