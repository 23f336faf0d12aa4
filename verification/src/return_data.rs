//! Fixed-width zero padding for program return data, whose transport
//! truncates all rightmost zero bytes.

use vstd::prelude::*;

verus! {

broadcast use vstd::array::group_array_axioms;

/// Pads `return_data` on the right with zero bytes up to the fixed
/// width `N`, undoing the transport's truncation of trailing zeros.
///
/// The data must fit: at most `N` bytes.
pub fn zero_padded_return_data<const N: usize>(return_data: &[u8]) -> (res: [u8; N])
    requires
        return_data@.len() <= N,
    ensures
        forall|i: int| 0 <= i < return_data@.len() ==> res@[i] == return_data@[i],
        forall|i: int| return_data@.len() <= i < N ==> res@[i] == 0,
{
    let mut res: [u8; N] = [0u8; N];
    let mut i: usize = 0;
    while i < return_data.len()
        invariant
            i <= return_data@.len() <= N,
            forall|j: int| 0 <= j < i ==> res@[j] == return_data@[j],
            forall|j: int| i <= j < N ==> res@[j] == 0,
        decreases return_data@.len() - i,
    {
        res[i] = return_data[i];
        i = i + 1;
    }
    res
}

} // verus!
