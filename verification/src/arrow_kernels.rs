use vstd::prelude::*;

use arrow::array::{Array, AsArray, BooleanArray, Int64Array};
use arrow::datatypes::Int64Type;

verus! {

/// The elements of `a` at the positions where `m` is true, in order.
pub open spec fn filtered(a: Seq<i64>, m: Seq<bool>) -> Seq<i64>
    decreases a.len(),
{
    if a.len() == 0 || m.len() == 0 {
        Seq::empty()
    } else {
        let rest = filtered(a.drop_last(), m.drop_last());
        if m.last() {
            rest.push(a.last())
        } else {
            rest
        }
    }
}

/// How many entries of `m` are true.
pub open spec fn count_trues(m: Seq<bool>) -> int
    decreases m.len(),
{
    if m.len() == 0 {
        0
    } else {
        count_trues(m.drop_last()) + if m.last() {
            1int
        } else {
            0int
        }
    }
}

/// Relies on arrow's checked 64-bit integer addition kernel
/// (`arrow::compute::kernels::numeric::add`): on equal-length,
/// null-free arrays it returns the element-wise sums, or an error as
/// soon as one sum overflows.
#[verifier::external_body]
pub fn add_i64_kernel(a: &Vec<i64>, b: &Vec<i64>) -> (r: Option<Vec<i64>>)
    requires
        a@.len() == b@.len(),
    ensures
        match r {
            Some(s) => {
                &&& s@.len() == a@.len()
                &&& forall|i: int|
                    0 <= i < a@.len() ==> i64::MIN <= #[trigger] (a@[i] + b@[i]) <= i64::MAX
                &&& forall|i: int| 0 <= i < a@.len() ==> s@[i] == a@[i] + b@[i]
            },
            None => exists|i: int|
                0 <= i < a@.len() && !(i64::MIN <= #[trigger] (a@[i] + b@[i]) <= i64::MAX),
        },
{
    let lhs = Int64Array::from(a.clone());
    let rhs = Int64Array::from(b.clone());
    match arrow::compute::kernels::numeric::add(&lhs, &rhs) {
        Ok(res) => Some(res.as_primitive::<Int64Type>().values().to_vec()),
        Err(_) => None,
    }
}

/// Relies on arrow's comparison kernel
/// (`arrow::compute::kernels::cmp::lt`): on equal-length, null-free
/// arrays it returns the element-wise `<` results.
#[verifier::external_body]
pub fn lt_i64_kernel(a: &Vec<i64>, b: &Vec<i64>) -> (r: Vec<bool>)
    requires
        a@.len() == b@.len(),
    ensures
        r@.len() == a@.len(),
        forall|i: int| 0 <= i < a@.len() ==> r@[i] == (a@[i] < b@[i]),
{
    let lhs = Int64Array::from(a.clone());
    let rhs = Int64Array::from(b.clone());
    let res = arrow::compute::kernels::cmp::lt(&lhs, &rhs).unwrap();
    res.values().iter().collect()
}

/// Relies on arrow's selection kernel (`arrow::compute::filter`): on
/// an equal-length, null-free mask it keeps exactly the elements at
/// true positions, in order.
#[verifier::external_body]
pub fn filter_i64_kernel(a: &Vec<i64>, mask: &Vec<bool>) -> (r: Vec<i64>)
    requires
        a@.len() == mask@.len(),
    ensures
        r@ == filtered(a@, mask@),
{
    let values = Int64Array::from(a.clone());
    let predicate = BooleanArray::from(mask.clone());
    let res = arrow::compute::filter(&values, &predicate).unwrap();
    res.as_primitive::<Int64Type>().values().to_vec()
}

/// The number of elements the selection keeps is the number of true
/// mask entries.
pub proof fn lemma_filtered_len(a: Seq<i64>, m: Seq<bool>)
    requires
        a.len() == m.len(),
    ensures
        filtered(a, m).len() == count_trues(m),
    decreases a.len(),
{
    if a.len() != 0 {
        lemma_filtered_len(a.drop_last(), m.drop_last());
    }
}

/// Count the true entries of a mask: the row count of a filtered
/// batch.
pub fn count_true(mask: &Vec<bool>) -> (r: usize)
    ensures
        r == count_trues(mask@),
{
    let mut n: usize = 0;
    let mut i: usize = 0;
    while i < mask.len()
        invariant
            i <= mask@.len(),
            n == count_trues(mask@.take(i as int)),
            n <= i,
        decreases mask@.len() - i,
    {
        if mask[i] {
            n += 1;
        }
        i += 1;
        proof {
            assert(mask@.take(i as int).drop_last() =~= mask@.take(i as int - 1));
        }
    }
    proof {
        assert(mask@.take(mask@.len() as int) =~= mask@);
    }
    n
}

} // verus!
