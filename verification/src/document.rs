use vstd::prelude::*;
use crate::digits::all_digits;
use crate::digits::all_equal;
use crate::digits::all_same;
use crate::digits::digit_chars;
use crate::digits::digit_seq;
use crate::digits::digit_value;
use crate::digits::is_ascii_digit;
use crate::digits::lemma_digit_chars_are_digits;
use crate::digits::lemma_digit_chars_identity;
use crate::digits::lemma_digit_chars_step;
use crate::digits::lemma_strict_digits;
use crate::digits::numbers_to_string;
use crate::digits::to_integer_vector;
use crate::digits::to_integer_vector_sanitizing;
use crate::cpf::cpf_checksum_ok;
use crate::cpf::validate_cpf;
use crate::cnpj::cnpj_checksum_ok;
use crate::cnpj::validate_cnpj;

verus! {

/// Length of a sanitized CPF.
pub const SANITIZED_CPF_SIZE: usize = 11;

/// Length of a formatted CPF, which coincides with a sanitized CNPJ.
pub const FORMATTED_CPF_AND_SANITIZED_CNPJ_SIZE: usize = 14;

/// Length of a formatted CNPJ.
pub const FORMATTED_CNPJ_SIZE: usize = 18;

/// The fixed punctuation mask of a formatted CPF: `###.###.###-##`.
pub open spec fn cpf_mask_matches(s: Seq<char>) -> bool {
    &&& s.len() == 14
    &&& is_ascii_digit(s[0])
    &&& is_ascii_digit(s[1])
    &&& is_ascii_digit(s[2])
    &&& s[3] == '.'
    &&& is_ascii_digit(s[4])
    &&& is_ascii_digit(s[5])
    &&& is_ascii_digit(s[6])
    &&& s[7] == '.'
    &&& is_ascii_digit(s[8])
    &&& is_ascii_digit(s[9])
    &&& is_ascii_digit(s[10])
    &&& s[11] == '-'
    &&& is_ascii_digit(s[12])
    &&& is_ascii_digit(s[13])
}

/// The fixed punctuation mask of a formatted CNPJ: `##.###.###/####-##`.
pub open spec fn cnpj_mask_matches(s: Seq<char>) -> bool {
    &&& s.len() == 18
    &&& is_ascii_digit(s[0])
    &&& is_ascii_digit(s[1])
    &&& s[2] == '.'
    &&& is_ascii_digit(s[3])
    &&& is_ascii_digit(s[4])
    &&& is_ascii_digit(s[5])
    &&& s[6] == '.'
    &&& is_ascii_digit(s[7])
    &&& is_ascii_digit(s[8])
    &&& is_ascii_digit(s[9])
    &&& s[10] == '/'
    &&& is_ascii_digit(s[11])
    &&& is_ascii_digit(s[12])
    &&& is_ascii_digit(s[13])
    &&& is_ascii_digit(s[14])
    &&& s[15] == '-'
    &&& is_ascii_digit(s[16])
    &&& is_ascii_digit(s[17])
}

/// The reason an input was rejected, in pipeline order: a length that fits
/// no document shape, then characters or punctuation that do not fit the
/// shape, then a failed uniformity or checksum test.
#[derive(Debug, Clone, PartialEq, Eq, Structural)]
pub enum ErrorKind {
    /// The input contains characters that are not digits, or punctuation
    /// that does not match the expected mask.
    InvalidCharacters,
    /// The input has valid characters but fails the uniformity or
    /// check-digit test.
    InvalidDocument,
    /// The input's length matches no recognized document shape.
    InvalidInput,
}

/// A validated CPF: exactly 11 ASCII digits in canonical form.
#[derive(Debug, Clone, PartialEq, Eq, Hash)]
pub struct CPFDocument(String);

/// A validated CNPJ: exactly 14 ASCII digits in canonical form.
#[derive(Debug, Clone, PartialEq, Eq, Hash)]
pub struct CNPJDocument(String);

impl View for CPFDocument {
    type V = Seq<char>;

    closed spec fn view(&self) -> Seq<char> {
        self.0@
    }
}

impl View for CNPJDocument {
    type V = Seq<char>;

    closed spec fn view(&self) -> Seq<char> {
        self.0@
    }
}

/// A validated Brazilian taxpayer document of either family.
#[derive(Debug, Clone, PartialEq, Hash)]
pub enum DocumentNumber {
    CPF(CPFDocument),
    CNPJ(CNPJDocument),
}

impl View for DocumentNumber {
    type V = Seq<char>;

    closed spec fn view(&self) -> Seq<char> {
        match self {
            DocumentNumber::CPF(d) => d@,
            DocumentNumber::CNPJ(d) => d@,
        }
    }
}

/// The outcome of the uniformity and checksum stage for a CPF candidate.
pub open spec fn cpf_outcome(d: Seq<u32>) -> Result<Seq<u32>, ErrorKind>
    recommends
        d.len() == 11,
{
    if all_same(d) {
        Err(ErrorKind::InvalidDocument)
    } else if cpf_checksum_ok(d) {
        Ok(d)
    } else {
        Err(ErrorKind::InvalidDocument)
    }
}

/// The outcome of the uniformity and checksum stage for a CNPJ candidate.
pub open spec fn cnpj_outcome(d: Seq<u32>) -> Result<Seq<u32>, ErrorKind>
    recommends
        d.len() == 14,
{
    if all_same(d) {
        Err(ErrorKind::InvalidDocument)
    } else if cnpj_checksum_ok(d) {
        Ok(d)
    } else {
        Err(ErrorKind::InvalidDocument)
    }
}

/// The whole pipeline — classify, sanitize, check — as one mathematical
/// function from the input characters to the accepted digit values or the
/// first error: length first, then characters and mask, then uniformity
/// and checksum.
pub open spec fn evaluation(s: Seq<char>) -> Result<Seq<u32>, ErrorKind> {
    if s.len() == 11 {
        if !all_digits(s) {
            Err(ErrorKind::InvalidCharacters)
        } else {
            cpf_outcome(digit_seq(s))
        }
    } else if s.len() == 14 {
        if cpf_mask_matches(s) {
            cpf_outcome(digit_seq(s))
        } else if !all_digits(s) {
            Err(ErrorKind::InvalidCharacters)
        } else {
            cnpj_outcome(digit_seq(s))
        }
    } else if s.len() == 18 {
        if cnpj_mask_matches(s) {
            cnpj_outcome(digit_seq(s))
        } else {
            Err(ErrorKind::InvalidCharacters)
        }
    } else {
        Err(ErrorKind::InvalidInput)
    }
}

/// The shapes that classify as a CPF; every other accepted shape is a CNPJ.
pub open spec fn is_cpf_shape(s: Seq<char>) -> bool {
    s.len() == 11 || cpf_mask_matches(s)
}

/// Stripping a formatted CPF leaves exactly its eleven digit characters.
pub proof fn lemma_cpf_mask_digit_chars(s: Seq<char>)
    requires
        cpf_mask_matches(s),
    ensures
        digit_chars(s) == seq![
            s[0],
            s[1],
            s[2],
            s[4],
            s[5],
            s[6],
            s[8],
            s[9],
            s[10],
            s[12],
            s[13],
        ],
{
    assert(s.subrange(0, 0) =~= Seq::<char>::empty());
    lemma_digit_chars_step(s, 0);
    lemma_digit_chars_step(s, 1);
    lemma_digit_chars_step(s, 2);
    lemma_digit_chars_step(s, 3);
    lemma_digit_chars_step(s, 4);
    lemma_digit_chars_step(s, 5);
    lemma_digit_chars_step(s, 6);
    lemma_digit_chars_step(s, 7);
    lemma_digit_chars_step(s, 8);
    lemma_digit_chars_step(s, 9);
    lemma_digit_chars_step(s, 10);
    lemma_digit_chars_step(s, 11);
    lemma_digit_chars_step(s, 12);
    lemma_digit_chars_step(s, 13);
    assert(s.subrange(0, 14) =~= s);
    assert(digit_chars(s) =~= seq![
        s[0],
        s[1],
        s[2],
        s[4],
        s[5],
        s[6],
        s[8],
        s[9],
        s[10],
        s[12],
        s[13],
    ]);
}

/// Stripping a formatted CNPJ leaves exactly its fourteen digit characters.
pub proof fn lemma_cnpj_mask_digit_chars(s: Seq<char>)
    requires
        cnpj_mask_matches(s),
    ensures
        digit_chars(s) == seq![
            s[0],
            s[1],
            s[3],
            s[4],
            s[5],
            s[7],
            s[8],
            s[9],
            s[11],
            s[12],
            s[13],
            s[14],
            s[16],
            s[17],
        ],
{
    assert(s.subrange(0, 0) =~= Seq::<char>::empty());
    lemma_digit_chars_step(s, 0);
    lemma_digit_chars_step(s, 1);
    lemma_digit_chars_step(s, 2);
    lemma_digit_chars_step(s, 3);
    lemma_digit_chars_step(s, 4);
    lemma_digit_chars_step(s, 5);
    lemma_digit_chars_step(s, 6);
    lemma_digit_chars_step(s, 7);
    lemma_digit_chars_step(s, 8);
    lemma_digit_chars_step(s, 9);
    lemma_digit_chars_step(s, 10);
    lemma_digit_chars_step(s, 11);
    lemma_digit_chars_step(s, 12);
    lemma_digit_chars_step(s, 13);
    lemma_digit_chars_step(s, 14);
    lemma_digit_chars_step(s, 15);
    lemma_digit_chars_step(s, 16);
    lemma_digit_chars_step(s, 17);
    assert(s.subrange(0, 18) =~= s);
    assert(digit_chars(s) =~= seq![
        s[0],
        s[1],
        s[3],
        s[4],
        s[5],
        s[7],
        s[8],
        s[9],
        s[11],
        s[12],
        s[13],
        s[14],
        s[16],
        s[17],
    ]);
}

/// What acceptance pins down: the accepted digit values are exactly the
/// digit-only projection of the input — sanitizing a canonical value gives
/// it back — their count is 11 for a CPF shape and 14 otherwise, and each
/// value is a decimal digit.
pub proof fn lemma_evaluation_ok(s: Seq<char>)
    requires
        evaluation(s) is Ok,
    ensures
        evaluation(s)->Ok_0 == digit_seq(s),
        is_cpf_shape(s) ==> digit_seq(s).len() == 11,
        !is_cpf_shape(s) ==> digit_seq(s).len() == 14,
        forall|i: int| 0 <= i < digit_seq(s).len() ==> #[trigger] digit_seq(s)[i] < 10,
{
    lemma_digit_chars_are_digits(s);
    if s.len() == 11 {
        lemma_digit_chars_identity(s);
    } else if s.len() == 14 {
        if cpf_mask_matches(s) {
            lemma_cpf_mask_digit_chars(s);
        } else {
            lemma_digit_chars_identity(s);
        }
    } else {
        lemma_cnpj_mask_digit_chars(s);
    }
}

/// Rendering the digit values of a projection restores its characters.
pub proof fn lemma_digit_chars_round_trip(s: Seq<char>)
    ensures
        digit_seq(s).map_values(|d: u32| crate::digits::digit_char(d)) == digit_chars(s),
{
    lemma_digit_chars_are_digits(s);
    let rendered = digit_seq(s).map_values(|d: u32| crate::digits::digit_char(d));
    assert forall|i: int| 0 <= i < rendered.len() implies rendered[i] == digit_chars(s)[i] by {
        let c = digit_chars(s)[i];
        assert(is_ascii_digit(c));
        assert(digit_seq(s)[i] == digit_value(c));
        vstd::utf8::char_u32_cast(c, c as u32);
        assert(crate::digits::digit_char(digit_value(c)) == c);
    }
    assert(rendered =~= digit_chars(s));
}

/// Every 11-digit string that is not uniform and satisfies the CPF
/// check-digit equations is accepted, classified as a CPF, and wrapped
/// exactly as it came: its digit projection is the string itself.
pub proof fn lemma_valid_cpf_accepted(s: Seq<char>)
    requires
        s.len() == 11,
        all_digits(s),
        !all_same(digit_seq(s)),
        cpf_checksum_ok(digit_seq(s)),
    ensures
        evaluation(s) == Ok::<Seq<u32>, ErrorKind>(digit_seq(s)),
        is_cpf_shape(s),
        digit_chars(s) == s,
{
    lemma_digit_chars_identity(s);
}

/// Every 14-digit string that is not uniform and satisfies the CNPJ
/// check-digit equations is accepted and classified as a CNPJ.
pub proof fn lemma_valid_cnpj_accepted(s: Seq<char>)
    requires
        s.len() == 14,
        all_digits(s),
        !all_same(digit_seq(s)),
        cnpj_checksum_ok(digit_seq(s)),
    ensures
        evaluation(s) == Ok::<Seq<u32>, ErrorKind>(digit_seq(s)),
        !is_cpf_shape(s),
        digit_chars(s) == s,
{
    assert(!is_ascii_digit('.'));
    assert(!cpf_mask_matches(s));
    lemma_digit_chars_identity(s);
}

/// A digit string of accepted length whose digits are all identical is
/// always rejected as an invalid document, whatever its check digits.
pub proof fn lemma_uniform_rejected(s: Seq<char>)
    requires
        s.len() == 11 || s.len() == 14,
        all_digits(s),
        all_same(digit_seq(s)),
    ensures
        evaluation(s) == Err::<Seq<u32>, ErrorKind>(ErrorKind::InvalidDocument),
{
    if s.len() == 14 {
        assert(!is_ascii_digit('.'));
        assert(!cpf_mask_matches(s));
    }
    lemma_digit_chars_identity(s);
}

/// An input whose length fits no document shape — sanitized or formatted,
/// CPF or CNPJ — is rejected before any character is inspected.
pub proof fn lemma_wrong_length_rejected(s: Seq<char>)
    requires
        s.len() != 11,
        s.len() != 14,
        s.len() != 18,
    ensures
        evaluation(s) == Err::<Seq<u32>, ErrorKind>(ErrorKind::InvalidInput),
{
}

/// An input of accepted length with a non-digit where the chosen shape
/// demands a digit — or with punctuation that fits no mask — is rejected
/// for its characters, before any checksum is computed.
pub proof fn lemma_invalid_characters_rejected(s: Seq<char>)
    requires
        (s.len() == 11 && !all_digits(s)) || (s.len() == 14 && !cpf_mask_matches(s) && !all_digits(
            s,
        )) || (s.len() == 18 && !cnpj_mask_matches(s)),
    ensures
        evaluation(s) == Err::<Seq<u32>, ErrorKind>(ErrorKind::InvalidCharacters),
{
}

/// Whether the character is an ASCII decimal digit.
fn char_is_digit(c: char) -> (r: bool)
    ensures
        r == is_ascii_digit(c),
{
    let u = c as u32;
    48 <= u && u <= 57
}

/// Whether a 14-character input carries the `###.###.###-##` punctuation.
fn matches_cpf_mask(input: &str) -> (r: bool)
    requires
        input@.len() == 14,
    ensures
        r == cpf_mask_matches(input@),
{
    char_is_digit(input.get_char(0)) && char_is_digit(input.get_char(1)) && char_is_digit(
        input.get_char(2),
    ) && input.get_char(3) == '.' && char_is_digit(input.get_char(4)) && char_is_digit(
        input.get_char(5),
    ) && char_is_digit(input.get_char(6)) && input.get_char(7) == '.' && char_is_digit(
        input.get_char(8),
    ) && char_is_digit(input.get_char(9)) && char_is_digit(input.get_char(10)) && input.get_char(11)
        == '-' && char_is_digit(input.get_char(12)) && char_is_digit(input.get_char(13))
}

/// Whether an 18-character input carries the `##.###.###/####-##`
/// punctuation.
fn matches_cnpj_mask(input: &str) -> (r: bool)
    requires
        input@.len() == 18,
    ensures
        r == cnpj_mask_matches(input@),
{
    char_is_digit(input.get_char(0)) && char_is_digit(input.get_char(1)) && input.get_char(2) == '.'
        && char_is_digit(input.get_char(3)) && char_is_digit(input.get_char(4)) && char_is_digit(
        input.get_char(5),
    ) && input.get_char(6) == '.' && char_is_digit(input.get_char(7)) && char_is_digit(
        input.get_char(8),
    ) && char_is_digit(input.get_char(9)) && input.get_char(10) == '/' && char_is_digit(
        input.get_char(11),
    ) && char_is_digit(input.get_char(12)) && char_is_digit(input.get_char(13)) && char_is_digit(
        input.get_char(14),
    ) && input.get_char(15) == '-' && char_is_digit(input.get_char(16)) && char_is_digit(
        input.get_char(17),
    )
}

impl DocumentNumber {
    /// Classifies and checks the input without building a value:
    /// `Ok(())` exactly when the pipeline accepts it, and otherwise the
    /// first error the pipeline finds.
    pub fn validate(input: &str) -> (r: Result<(), ErrorKind>)
        ensures
            r is Ok <==> evaluation(input@) is Ok,
            r is Err ==> r->Err_0 == evaluation(input@)->Err_0,
    {
        match Self::evaluate(input) {
            Ok(_) => Ok(()),
            Err(e) => Err(e),
        }
    }

    /// Classifies, sanitizes and checks the input, and wraps the canonical
    /// digit-only string in the document family the classifier chose.
    pub fn parse(input: String) -> (r: Result<DocumentNumber, ErrorKind>)
        ensures
            r is Ok <==> evaluation(input@) is Ok,
            r is Err ==> r->Err_0 == evaluation(input@)->Err_0,
            r is Ok ==> (r->Ok_0 is CPF <==> is_cpf_shape(input@)),
            r is Ok ==> r->Ok_0@ == digit_chars(input@),
            r is Ok ==> r->Ok_0@.map_values(|c: char| digit_value(c)) == evaluation(input@)->Ok_0,
            r is Ok ==> all_digits(r->Ok_0@),
    {
        let n = match Self::evaluate(input.as_str()) {
            Ok(n) => n,
            Err(e) => {
                return Err(e);
            },
        };
        proof {
            lemma_evaluation_ok(input@);
            lemma_digit_chars_round_trip(input@);
            lemma_digit_chars_are_digits(input@);
        }
        let text = numbers_to_string(&n);
        if n.len() == SANITIZED_CPF_SIZE {
            Ok(DocumentNumber::CPF(CPFDocument(text)))
        } else {
            Ok(DocumentNumber::CNPJ(CNPJDocument(text)))
        }
    }

    /// Renders the canonical digit-only string of the document.
    pub fn to_text(&self) -> (r: String)
        ensures
            r@ == self@,
    {
        match self {
            DocumentNumber::CPF(d) => d.0.clone(),
            DocumentNumber::CNPJ(d) => d.0.clone(),
        }
    }

    /// Runs the pipeline: length classification, sanitization in the mode
    /// the classifier chose, then uniformity and checksum; returns the
    /// accepted digit values or the first error.
    fn evaluate(input: &str) -> (r: Result<Vec<u32>, ErrorKind>)
        ensures
            r is Ok <==> evaluation(input@) is Ok,
            r is Ok ==> r->Ok_0@ == evaluation(input@)->Ok_0,
            r is Err ==> r->Err_0 == evaluation(input@)->Err_0,
    {
        let ghost s = input@;
        let len = input.unicode_len();
        if len == SANITIZED_CPF_SIZE {
            let n = to_integer_vector(input);
            if n.len() != SANITIZED_CPF_SIZE {
                return Err(ErrorKind::InvalidCharacters);
            }
            proof {
                lemma_strict_digits(s, n@);
            }
            if all_equal(&n) {
                Err(ErrorKind::InvalidDocument)
            } else {
                match validate_cpf(&n) {
                    Ok(_) => Ok(n),
                    Err(e) => Err(e),
                }
            }
        } else if len == FORMATTED_CPF_AND_SANITIZED_CNPJ_SIZE {
            if matches_cpf_mask(input) {
                let n = to_integer_vector_sanitizing(input);
                proof {
                    lemma_cpf_mask_digit_chars(s);
                    lemma_digit_chars_are_digits(s);
                    assert(forall|i: int|
                        0 <= i < n@.len() ==> #[trigger] n@[i] == digit_value(digit_chars(s)[i]));
                }
                if all_equal(&n) {
                    Err(ErrorKind::InvalidDocument)
                } else {
                    match validate_cpf(&n) {
                        Ok(_) => Ok(n),
                        Err(e) => Err(e),
                    }
                }
            } else {
                let n = to_integer_vector(input);
                if n.len() != FORMATTED_CPF_AND_SANITIZED_CNPJ_SIZE {
                    return Err(ErrorKind::InvalidCharacters);
                }
                proof {
                    lemma_strict_digits(s, n@);
                }
                if all_equal(&n) {
                    Err(ErrorKind::InvalidDocument)
                } else {
                    match validate_cnpj(&n) {
                        Ok(_) => Ok(n),
                        Err(e) => Err(e),
                    }
                }
            }
        } else if len == FORMATTED_CNPJ_SIZE {
            if matches_cnpj_mask(input) {
                let n = to_integer_vector_sanitizing(input);
                proof {
                    lemma_cnpj_mask_digit_chars(s);
                    lemma_digit_chars_are_digits(s);
                    assert(forall|i: int|
                        0 <= i < n@.len() ==> #[trigger] n@[i] == digit_value(digit_chars(s)[i]));
                }
                if all_equal(&n) {
                    Err(ErrorKind::InvalidDocument)
                } else {
                    match validate_cnpj(&n) {
                        Ok(_) => Ok(n),
                        Err(e) => Err(e),
                    }
                }
            } else {
                Err(ErrorKind::InvalidCharacters)
            }
        } else {
            Err(ErrorKind::InvalidInput)
        }
    }
}

} // verus!

