//! The lengths of encoded fields, computed without encoding them.

use vstd::prelude::*;
use crate::encoding::format::{field_size, length_octets, MAX_LENGTH};

verus! {

/// The number of length octets that announce a value of `n` bytes.
fn length_octets_len(n: usize) -> (k: usize)
    requires
        n <= MAX_LENGTH,
    ensures
        k == length_octets(n as nat).len(),
        1 <= k <= 5,
{
    if n < 0x80 {
        1
    } else if n < 0x100 {
        2
    } else if n < 0x1_0000 {
        3
    } else if n < 0x100_0000 {
        4
    } else {
        5
    }
}

/// The length of a field whose value is `n` bytes long, or nothing where the
/// field would be longer than `MAX_LENGTH`.
pub fn field_len(n: usize) -> (r: Option<usize>)
    ensures
        match r {
            Some(total) => total == field_size(n as nat) && total <= MAX_LENGTH,
            None => field_size(n as nat) > MAX_LENGTH,
        },
{
    if n > MAX_LENGTH {
        return None;
    }
    let k = length_octets_len(n);
    if n > MAX_LENGTH - 1 - k {
        None
    } else {
        Some(1 + k + n)
    }
}

} // verus!
