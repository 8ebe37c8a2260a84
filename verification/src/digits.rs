//! Character-level model of digit strings and the sanitizer.
//!
//! The validation pipeline works on decimal digit values extracted from the
//! input text. This module defines the digit predicates, the digit-only
//! projection of a character sequence, and the two executable extraction
//! modes: strict (stop at the first non-digit) and mask-stripping (discard
//! every non-digit).

use vstd::prelude::*;

verus! {

/// An ASCII decimal digit.
pub open spec fn is_ascii_digit(c: char) -> bool {
    48 <= (c as u32) <= 57
}

/// The numeric value of an ASCII decimal digit.
pub open spec fn digit_value(c: char) -> u32
    recommends
        is_ascii_digit(c),
{
    (((c as u32) as int) - 48) as u32
}

/// The digit character with the given numeric value.
pub open spec fn digit_char(d: u32) -> char
    recommends
        d < 10,
{
    ((d + 48) as u32) as char
}

/// Every character of the sequence is an ASCII decimal digit.
pub open spec fn all_digits(s: Seq<char>) -> bool {
    forall|i: int| 0 <= i < s.len() ==> is_ascii_digit(s[i])
}

/// The digit-only projection: the subsequence of digit characters, in order.
pub open spec fn digit_chars(s: Seq<char>) -> Seq<char>
    decreases s.len(),
{
    if s.len() == 0 {
        Seq::empty()
    } else if is_ascii_digit(s.last()) {
        digit_chars(s.drop_last()).push(s.last())
    } else {
        digit_chars(s.drop_last())
    }
}

/// The numeric values of the digit-only projection.
pub open spec fn digit_seq(s: Seq<char>) -> Seq<u32> {
    digit_chars(s).map_values(|c: char| digit_value(c))
}

/// Every digit value in the sequence equals the first one.
pub open spec fn all_same(d: Seq<u32>) -> bool {
    forall|i: int| 0 <= i < d.len() ==> #[trigger] d[i] == d[0]
}

/// Extending a sequence by one character extends its digit projection by
/// that character exactly when the character is a digit.
pub proof fn lemma_digit_chars_step(s: Seq<char>, k: int)
    requires
        0 <= k < s.len(),
    ensures
        digit_chars(s.subrange(0, k + 1)) == if is_ascii_digit(s[k]) {
            digit_chars(s.subrange(0, k)).push(s[k])
        } else {
            digit_chars(s.subrange(0, k))
        },
{
    let t = s.subrange(0, k + 1);
    assert(t.drop_last() =~= s.subrange(0, k));
    assert(t.last() == s[k]);
}

/// Every character of the digit projection is a digit.
pub proof fn lemma_digit_chars_are_digits(s: Seq<char>)
    ensures
        forall|i: int| 0 <= i < digit_chars(s).len() ==> is_ascii_digit(#[trigger] digit_chars(s)[i]),
    decreases s.len(),
{
    if s.len() > 0 {
        lemma_digit_chars_are_digits(s.drop_last());
        let rest = digit_chars(s.drop_last());
        if is_ascii_digit(s.last()) {
            assert forall|i: int| 0 <= i < digit_chars(s).len() implies is_ascii_digit(
                #[trigger] digit_chars(s)[i],
            ) by {
                if i < rest.len() {
                    assert(digit_chars(s)[i] == rest[i]);
                } else {
                    assert(digit_chars(s)[i] == s.last());
                }
            }
        }
    }
}

/// Strict extraction: the digit values of the longest all-digit prefix.
/// Used for inputs whose length already matches a sanitized document.
pub fn to_integer_vector(input: &str) -> (r: Vec<u32>)
    ensures
        r@.len() <= input@.len(),
        forall|i: int|
            0 <= i < r@.len() ==> is_ascii_digit(#[trigger] input@[i]) && r@[i] == digit_value(
                input@[i],
            ),
        r@.len() < input@.len() ==> !is_ascii_digit(input@[r@.len() as int]),
{
    let n = input.unicode_len();
    let mut v: Vec<u32> = Vec::new();
    let mut i: usize = 0;
    while i < n
        invariant
            i <= n,
            n == input@.len(),
            v@.len() == i,
            forall|j: int|
                0 <= j < i ==> is_ascii_digit(#[trigger] input@[j]) && v@[j] == digit_value(
                    input@[j],
                ),
        decreases n - i,
    {
        let c = input.get_char(i);
        let u = c as u32;
        if 48 <= u && u <= 57 {
            v.push(u - 48);
        } else {
            return v;
        }
        i += 1;
    }
    v
}

/// Mask-stripping extraction: the digit values of every digit character,
/// with all other characters discarded. Used once a format mask matched.
pub fn to_integer_vector_sanitizing(input: &str) -> (r: Vec<u32>)
    ensures
        r@ == digit_seq(input@),
{
    let n = input.unicode_len();
    let mut v: Vec<u32> = Vec::new();
    let mut i: usize = 0;
    proof {
        assert(input@.subrange(0, 0) =~= Seq::<char>::empty());
        assert(v@ =~= digit_seq(input@.subrange(0, 0)));
    }
    while i < n
        invariant
            i <= n,
            n == input@.len(),
            v@ == digit_seq(input@.subrange(0, i as int)),
        decreases n - i,
    {
        let c = input.get_char(i);
        let u = c as u32;
        proof {
            lemma_digit_chars_step(input@, i as int);
        }
        if 48 <= u && u <= 57 {
            v.push(u - 48);
        }
        proof {
            assert(v@ =~= digit_seq(input@.subrange(0, i + 1)));
        }
        i += 1;
    }
    proof {
        assert(input@.subrange(0, n as int) =~= input@);
    }
    v
}

/// Whether every extracted digit equals the first one.
pub fn all_equal(n: &Vec<u32>) -> (r: bool)
    requires
        n@.len() >= 1,
    ensures
        r == all_same(n@),
{
    let first = n[0];
    let mut i: usize = 1;
    while i < n.len()
        invariant
            1 <= i <= n@.len(),
            first == n@[0],
            forall|j: int| 0 <= j < i ==> #[trigger] n@[j] == n@[0],
        decreases n@.len() - i,
    {
        if n[i] != first {
            return false;
        }
        i += 1;
    }
    true
}

/// Relies on String::push: appends the given character to the end of the string.
#[verifier::external_body]
fn push_char(s: &mut String, c: char)
    ensures
        final(s)@ == old(s)@.push(c),
{
    s.push(c);
}

/// Renders a sequence of digit values as the canonical digit-only string.
pub fn numbers_to_string(n: &Vec<u32>) -> (r: String)
    requires
        forall|i: int| 0 <= i < n@.len() ==> #[trigger] n@[i] < 10,
    ensures
        r@ == n@.map_values(|d: u32| digit_char(d)),
{
    let mut s = String::new();
    let mut i: usize = 0;
    proof {
        assert(s@ =~= n@.subrange(0, 0).map_values(|d: u32| digit_char(d)));
    }
    while i < n.len()
        invariant
            i <= n@.len(),
            forall|j: int| 0 <= j < n@.len() ==> #[trigger] n@[j] < 10,
            s@ == n@.subrange(0, i as int).map_values(|d: u32| digit_char(d)),
        decreases n@.len() - i,
    {
        let d = n[i];
        let c = ((48 + d) as u8) as char;
        push_char(&mut s, c);
        proof {
            assert(s@ =~= n@.subrange(0, i + 1).map_values(|d: u32| digit_char(d)));
        }
        i += 1;
    }
    proof {
        assert(n@.subrange(0, n@.len() as int) =~= n@);
    }
    s
}

/// On an all-digit sequence the digit projection is the identity.
pub proof fn lemma_digit_chars_identity(s: Seq<char>)
    requires
        all_digits(s),
    ensures
        digit_chars(s) == s,
    decreases s.len(),
{
    if s.len() == 0 {
        assert(digit_chars(s) =~= s);
    } else {
        assert(all_digits(s.drop_last()));
        lemma_digit_chars_identity(s.drop_last());
        assert(digit_chars(s) =~= s);
    }
}

/// A strict extraction that kept every character saw only digits, and its
/// output is the digit projection of the input.
pub proof fn lemma_strict_digits(s: Seq<char>, n: Seq<u32>)
    requires
        n.len() == s.len(),
        forall|i: int| 0 <= i < n.len() ==> is_ascii_digit(#[trigger] s[i]) && n[i] == digit_value(
            s[i],
        ),
    ensures
        all_digits(s),
        n == digit_seq(s),
        forall|i: int| 0 <= i < n.len() ==> #[trigger] n[i] < 10,
{
    lemma_digit_chars_identity(s);
    assert(n =~= digit_seq(s));
}

} // verus!
