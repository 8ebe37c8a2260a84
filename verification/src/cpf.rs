//! The CPF check-digit algorithm.
//!
//! A CPF is 11 digits d0..d10. The first check digit folds d0..d8 with
//! descending weights 10..2, multiplies the sum by 10, takes the remainder
//! modulo 11 and maps 10 to 0; the second repeats the fold with weights
//! 11..3, adds twice the first check digit, and applies the same remainder
//! rule. The document is valid when d9 and d10 equal the two computed
//! digits.

use vstd::prelude::*;
use crate::document::ErrorKind;

verus! {

/// A remainder of 10 stands for the check digit 0.
pub open spec fn ten_to_zero(n: int) -> int {
    if n == 10 {
        0
    } else {
        n
    }
}

/// The weighted sum of d0..d8 with descending weights 10..2.
pub open spec fn cpf_first_sum(d: Seq<u32>) -> int
    recommends
        d.len() >= 9,
{
    d[0] * 10 + d[1] * 9 + d[2] * 8 + d[3] * 7 + d[4] * 6 + d[5] * 5 + d[6] * 4 + d[7] * 3 + d[8]
        * 2
}

/// The first CPF check digit.
pub open spec fn cpf_first_digit(d: Seq<u32>) -> int
    recommends
        d.len() >= 9,
{
    ten_to_zero((cpf_first_sum(d) * 10) % 11)
}

/// The weighted sum of d0..d8 with descending weights 11..3.
pub open spec fn cpf_second_sum(d: Seq<u32>) -> int
    recommends
        d.len() >= 9,
{
    d[0] * 11 + d[1] * 10 + d[2] * 9 + d[3] * 8 + d[4] * 7 + d[5] * 6 + d[6] * 5 + d[7] * 4 + d[8]
        * 3
}

/// The second CPF check digit: the second fold extended by the first check
/// digit with weight 2.
pub open spec fn cpf_second_digit(d: Seq<u32>) -> int
    recommends
        d.len() >= 9,
{
    ten_to_zero(((cpf_second_sum(d) + cpf_first_digit(d) * 2) * 10) % 11)
}

/// The trailing two digits equal the computed check digits.
pub open spec fn cpf_checksum_ok(d: Seq<u32>) -> bool
    recommends
        d.len() == 11,
{
    d[9] == cpf_first_digit(d) && d[10] == cpf_second_digit(d)
}

/// Checks the CPF check digits of an 11-digit sequence.
pub fn validate_cpf(numbers: &Vec<u32>) -> (r: Result<(), ErrorKind>)
    requires
        numbers@.len() == 11,
        forall|i: int| 0 <= i < numbers@.len() ==> #[trigger] numbers@[i] < 10,
    ensures
        r is Ok <==> cpf_checksum_ok(numbers@),
        r is Err ==> r->Err_0 == ErrorKind::InvalidDocument,
{
    let first_sum: u32 = numbers[0] * 10 + numbers[1] * 9 + numbers[2] * 8 + numbers[3] * 7
        + numbers[4] * 6 + numbers[5] * 5 + numbers[6] * 4 + numbers[7] * 3 + numbers[8] * 2;
    let first_digit: u32 = match (first_sum * 10) % 11 {
        10 => 0,
        r => r,
    };
    let second_sum: u32 = numbers[0] * 11 + numbers[1] * 10 + numbers[2] * 9 + numbers[3] * 8
        + numbers[4] * 7 + numbers[5] * 6 + numbers[6] * 5 + numbers[7] * 4 + numbers[8] * 3;
    let second_digit: u32 = match ((second_sum + first_digit * 2) * 10) % 11 {
        10 => 0,
        r => r,
    };
    if numbers[9] == first_digit && numbers[10] == second_digit {
        Ok(())
    } else {
        Err(ErrorKind::InvalidDocument)
    }
}

} // verus!
