//! The CNPJ check-digit algorithm.
//!
//! A CNPJ is 14 digits d0..d13. The first check digit folds d0..d11 with
//! the positional weights [5,4,3,2,9,8,7,6,5,4,3,2]; a remainder modulo 11
//! below 2 gives 0, any other remainder r gives 11 - r. The second check
//! digit repeats the fold over d0..d11 and the first check digit with the
//! weights [6,5,4,3,2,9,8,7,6,5,4,3,2], under the same remainder rule. The
//! document is valid when d12 and d13 equal the two computed digits.

use vstd::prelude::*;
use crate::document::ErrorKind;

verus! {

/// The remainder rule shared by both CNPJ check digits.
pub open spec fn cnpj_digit_of(sum: int) -> int {
    if sum % 11 < 2 {
        0
    } else {
        11 - sum % 11
    }
}

/// The weighted sum of d0..d11 with weights [5,4,3,2,9,8,7,6,5,4,3,2].
pub open spec fn cnpj_first_sum(d: Seq<u32>) -> int
    recommends
        d.len() >= 12,
{
    d[0] * 5 + d[1] * 4 + d[2] * 3 + d[3] * 2 + d[4] * 9 + d[5] * 8 + d[6] * 7 + d[7] * 6 + d[8]
        * 5 + d[9] * 4 + d[10] * 3 + d[11] * 2
}

/// The first CNPJ check digit.
pub open spec fn cnpj_first_digit(d: Seq<u32>) -> int
    recommends
        d.len() >= 12,
{
    cnpj_digit_of(cnpj_first_sum(d))
}

/// The weighted sum of d0..d11 and the first check digit with weights
/// [6,5,4,3,2,9,8,7,6,5,4,3,2].
pub open spec fn cnpj_second_sum(d: Seq<u32>) -> int
    recommends
        d.len() >= 12,
{
    d[0] * 6 + d[1] * 5 + d[2] * 4 + d[3] * 3 + d[4] * 2 + d[5] * 9 + d[6] * 8 + d[7] * 7 + d[8]
        * 6 + d[9] * 5 + d[10] * 4 + d[11] * 3 + cnpj_first_digit(d) * 2
}

/// The second CNPJ check digit.
pub open spec fn cnpj_second_digit(d: Seq<u32>) -> int
    recommends
        d.len() >= 12,
{
    cnpj_digit_of(cnpj_second_sum(d))
}

/// The trailing two digits equal the computed check digits.
pub open spec fn cnpj_checksum_ok(d: Seq<u32>) -> bool
    recommends
        d.len() == 14,
{
    d[12] == cnpj_first_digit(d) && d[13] == cnpj_second_digit(d)
}

/// Checks the CNPJ check digits of a 14-digit sequence.
pub fn validate_cnpj(numbers: &Vec<u32>) -> (r: Result<(), ErrorKind>)
    requires
        numbers@.len() == 14,
        forall|i: int| 0 <= i < numbers@.len() ==> #[trigger] numbers@[i] < 10,
    ensures
        r is Ok <==> cnpj_checksum_ok(numbers@),
        r is Err ==> r->Err_0 == ErrorKind::InvalidDocument,
{
    let first_sum: u32 = numbers[0] * 5 + numbers[1] * 4 + numbers[2] * 3 + numbers[3] * 2
        + numbers[4] * 9 + numbers[5] * 8 + numbers[6] * 7 + numbers[7] * 6 + numbers[8] * 5
        + numbers[9] * 4 + numbers[10] * 3 + numbers[11] * 2;
    let first_rem: u32 = first_sum % 11;
    let first_digit: u32 = if first_rem < 2 {
        0
    } else {
        11 - first_rem
    };
    let second_sum: u32 = numbers[0] * 6 + numbers[1] * 5 + numbers[2] * 4 + numbers[3] * 3
        + numbers[4] * 2 + numbers[5] * 9 + numbers[6] * 8 + numbers[7] * 7 + numbers[8] * 6
        + numbers[9] * 5 + numbers[10] * 4 + numbers[11] * 3 + first_digit * 2;
    let second_rem: u32 = second_sum % 11;
    let second_digit: u32 = if second_rem < 2 {
        0
    } else {
        11 - second_rem
    };
    if numbers[12] == first_digit && numbers[13] == second_digit {
        Ok(())
    } else {
        Err(ErrorKind::InvalidDocument)
    }
}

} // verus!
