//! The portable kernel family: one number at a time, left to right.
use crate::error::{Result, TalibError};
use crate::traits::Sample;
use vstd::prelude::*;

verus! {

/// The left-to-right total of `xs`, starting from zero.
pub open spec fn sum_spec<T: Sample>(xs: Seq<T>) -> T
    decreases xs.len(),
{
    if xs.len() == 0 {
        T::zero_spec()
    } else {
        sum_spec(xs.drop_last()).plus_spec(xs.last())
    }
}

/// The left-to-right total of the products `a[i] * b[i]` for `i < a.len()`, from zero.
pub open spec fn dot_spec<T: Sample>(a: Seq<T>, b: Seq<T>) -> T
    decreases a.len(),
{
    if a.len() == 0 {
        T::zero_spec()
    } else {
        dot_spec(a.drop_last(), b).plus_spec(a.last().times_spec(b[a.len() - 1]))
    }
}

/// The running total of window `i` of width `w` over `xs`, where window `0` totals
/// `first`: each later window removes the value that left and adds the one that entered.
pub open spec fn slide<T: Sample>(first: T, xs: Seq<T>, w: nat, i: nat) -> T
    decreases i,
{
    if i == 0 {
        first
    } else {
        slide(first, xs, w, (i - 1) as nat).minus_spec(xs[i - 1]).plus_spec(xs[i + w - 1])
    }
}

/// The rolling totals of all windows of width `w` over `xs`.
pub open spec fn rolling_spec<T: Sample>(xs: Seq<T>, w: nat) -> Seq<T> {
    Seq::new(
        (xs.len() - w + 1) as nat,
        |i: int| slide(sum_spec(xs.subrange(0, w as int)), xs, w, i as nat),
    )
}

/// The total of all elements of `data`.
pub fn sum<T: Sample>(data: &[T]) -> (r: T)
    ensures
        r == sum_spec(data@),
{
    let mut total = T::zero();
    let mut i: usize = 0;
    while i < data.len()
        invariant
            i <= data@.len(),
            total == sum_spec(data@.subrange(0, i as int)),
        decreases data@.len() - i,
    {
        proof {
            assert(data@.subrange(0, i + 1).drop_last() =~= data@.subrange(0, i as int));
        }
        total = total.plus(data[i]);
        i += 1;
    }
    proof {
        assert(data@.subrange(0, data@.len() as int) =~= data@);
    }
    total
}

/// The sum of the element-wise products of `a` and `b`.
///
/// Inputs of different lengths are rejected, never truncated.
pub fn dot_product<T: Sample>(a: &[T], b: &[T]) -> (r: Result<T>)
    ensures
        a@.len() != b@.len() <==> r is Err,
        r matches Err(e) ==> (e matches TalibError::InvalidInput { message: m } && m@
            == "Dot product requires vectors of equal length"@),
        r matches Ok(v) ==> v == dot_spec(a@, b@),
{
    if a.len() != b.len() {
        return Err(TalibError::invalid_input("Dot product requires vectors of equal length"));
    }
    let mut total = T::zero();
    let mut i: usize = 0;
    while i < a.len()
        invariant
            a@.len() == b@.len(),
            i <= a@.len(),
            total == dot_spec(a@.subrange(0, i as int), b@),
        decreases a@.len() - i,
    {
        proof {
            assert(a@.subrange(0, i + 1).drop_last() =~= a@.subrange(0, i as int));
        }
        total = total.plus(a[i].times(b[i]));
        i += 1;
    }
    proof {
        assert(a@.subrange(0, a@.len() as int) =~= a@);
    }
    Ok(total)
}

/// The totals of every window of `window_size` consecutive elements of `data`, in order.
///
/// The first window is added up; each later one is derived from the previous total by
/// removing the element that left and adding the one that entered.
pub fn rolling_sum<T: Sample>(data: &[T], window_size: usize) -> (r: Vec<T>)
    requires
        1 <= window_size <= data@.len(),
    ensures
        r@ == rolling_spec(data@, window_size as nat),
{
    let n = data.len();
    let ghost w = window_size as nat;
    let ghost first = sum_spec(data@.subrange(0, window_size as int));
    let mut current = sum(&data[0..window_size]);
    let mut result: Vec<T> = Vec::new();
    result.push(current);
    let mut i: usize = window_size;
    while i < n
        invariant
            window_size <= i <= n,
            n == data@.len(),
            w == window_size,
            current == slide(first, data@, w, (i - window_size) as nat),
            result@.len() == i - window_size + 1,
            forall|k: int|
                0 <= k < result@.len() ==> result@[k] == slide(first, data@, w, k as nat),
        decreases n - i,
    {
        current = current.minus(data[i - window_size]);
        current = current.plus(data[i]);
        result.push(current);
        i += 1;
    }
    proof {
        assert(result@ =~= rolling_spec(data@, w));
    }
    result
}

} // verus!
