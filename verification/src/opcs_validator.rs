//! The OPCS coding-system grammar and its validator.
//!
//! A code is valid when its length (in bytes, as stored) lies within the
//! system's bounds of 3 to 5 and its shape follows the OPCS grammar: one
//! ASCII uppercase letter, two ASCII digits, then optionally either a dot
//! followed by one or two digits, or one to two further digits with no dot.
//! The length check comes first and its message takes precedence: a code
//! whose length is out of bounds is reported as `InvalidCodeLength` whatever
//! its shape, so the six-byte dot form never survives to the shape check.
//!
//! `validate_all_code` scans a whole list in stored order, collects one
//! `(code, reason)` pair per invalid entry without stopping at the first, and
//! reports either success or a single `InvalidCodelist` aggregate.

use vstd::prelude::*;
use vstd::string::*;
use vstd::utf8::encode_utf8;
use crate::codelist::CodeList;
use crate::codelist::list_codes;
use crate::validator_errors::CodeListValidatorError;
use crate::validator_errors::spec_render_contents;
use crate::validator_errors::spec_render_length;

verus! {

/// The fewest bytes an OPCS code may have.
pub const OPCS_MIN_LENGTH: usize = 3;

/// The most bytes an OPCS code may have.
pub const OPCS_MAX_LENGTH: usize = 5;

/// An ASCII uppercase letter, `A` to `Z`, as a byte.
pub open spec fn is_uppercase_letter_byte(b: u8) -> bool {
    65 <= b <= 90
}

/// An ASCII digit, `0` to `9`, as a byte.
pub open spec fn is_digit_byte(b: u8) -> bool {
    48 <= b <= 57
}

/// The ASCII dot, `.`, as a byte.
pub open spec fn is_dot_byte(b: u8) -> bool {
    b == 46
}

/// The OPCS structural grammar over a code's bytes: one uppercase letter, two
/// digits, then optionally one of a dot with one or two digits after it, or
/// one or two digits with no dot.
pub open spec fn opcs_format_ok(s: Seq<u8>) -> bool {
    &&& s.len() >= 3
    &&& is_uppercase_letter_byte(s[0])
    &&& is_digit_byte(s[1])
    &&& is_digit_byte(s[2])
    &&& {
        ||| s.len() == 3
        ||| s.len() == 4 && is_digit_byte(s[3])
        ||| s.len() == 5 && (is_digit_byte(s[3]) && is_digit_byte(s[4]) || is_dot_byte(s[3])
            && is_digit_byte(s[4]))
        ||| s.len() == 6 && is_dot_byte(s[3]) && is_digit_byte(s[4]) && is_digit_byte(s[5])
    }
}

/// A code's length lies within the OPCS bounds.
pub open spec fn opcs_length_ok(s: Seq<u8>) -> bool {
    OPCS_MIN_LENGTH <= s.len() <= OPCS_MAX_LENGTH
}

/// A fully valid OPCS code: length in bounds and shape within the grammar.
pub open spec fn opcs_code_valid(s: Seq<u8>) -> bool {
    opcs_length_ok(s) && opcs_format_ok(s)
}

/// The reason reported for a code above the length bound.
pub open spec fn opcs_too_long_reason(code: Seq<char>) -> Seq<char> {
    "OPCS code "@ + code + " is greater than 5 characters in length"@
}

/// The reason reported for a code below the length bound.
pub open spec fn opcs_too_short_reason(code: Seq<char>) -> Seq<char> {
    "OPCS code "@ + code + " is less than 3 characters in length"@
}

/// The reason reported for a code whose shape breaks the grammar.
pub open spec fn opcs_format_reason(code: Seq<char>) -> Seq<char> {
    "OPCS code "@ + code + " does not match the expected format"@
}

/// What `validate_code` returns for a code whose view is `code`: success
/// exactly on valid codes, a length failure (with the precise reason, length
/// taking precedence over shape) on codes out of bounds, and a contents
/// failure on in-bounds codes that break the grammar.
pub open spec fn opcs_validate_code_post(
    code: Seq<char>,
    r: Result<(), CodeListValidatorError>,
) -> bool {
    let bytes = encode_utf8(code);
    match r {
        Ok(u) => opcs_code_valid(bytes),
        Err(e) => match e {
            CodeListValidatorError::InvalidCodeLength { code: c, reason } => {
                &&& !opcs_length_ok(bytes)
                &&& c@ == code
                &&& reason@ == if bytes.len() > OPCS_MAX_LENGTH {
                    opcs_too_long_reason(code)
                } else {
                    opcs_too_short_reason(code)
                }
            },
            CodeListValidatorError::InvalidCodeContents { code: c, reason } => {
                &&& opcs_length_ok(bytes)
                &&& !opcs_format_ok(bytes)
                &&& c@ == code
                &&& reason@ == opcs_format_reason(code)
            },
            CodeListValidatorError::InvalidCodelist { .. } => false,
        },
    }
}

/// The rendered reason an invalid code contributes to an aggregate failure:
/// the rendering of the single-code error `validate_code` reports for it.
pub open spec fn opcs_failure_reason(code: Seq<char>) -> Seq<char> {
    let bytes = encode_utf8(code);
    if bytes.len() > OPCS_MAX_LENGTH {
        spec_render_length(code, opcs_too_long_reason(code))
    } else if bytes.len() < OPCS_MIN_LENGTH {
        spec_render_length(code, opcs_too_short_reason(code))
    } else {
        spec_render_contents(code, opcs_format_reason(code))
    }
}

/// The `(code, reason)` pairs a scan of `codes` collects: one pair per
/// invalid code, in scan order, duplicates kept.
pub open spec fn opcs_invalid_reasons(codes: Seq<Seq<char>>) -> Seq<(Seq<char>, Seq<char>)>
    decreases codes.len(),
{
    if codes.len() == 0 {
        Seq::<(Seq<char>, Seq<char>)>::empty()
    } else {
        opcs_invalid_reasons(codes.drop_last()) + if opcs_code_valid(encode_utf8(codes.last())) {
            Seq::<(Seq<char>, Seq<char>)>::empty()
        } else {
            seq![(codes.last(), opcs_failure_reason(codes.last()))]
        }
    }
}

/// The views of the `(code, reason)` pairs of an aggregate failure.
pub open spec fn reason_pair_views(reasons: Seq<(String, String)>) -> Seq<(Seq<char>, Seq<char>)> {
    reasons.map_values(|p: (String, String)| (p.0@, p.1@))
}

/// What `validate_all_code` returns for a list whose codes' views are
/// `codes`: success exactly when every code is valid, else one aggregate
/// failure carrying exactly the scan's `(code, reason)` pairs in scan order.
pub open spec fn opcs_validate_all_post(
    codes: Seq<Seq<char>>,
    r: Result<(), CodeListValidatorError>,
) -> bool {
    match r {
        Ok(u) => opcs_invalid_reasons(codes).len() == 0,
        Err(e) => {
            &&& opcs_invalid_reasons(codes).len() > 0
            &&& e matches CodeListValidatorError::InvalidCodelist { reasons } && reason_pair_views(
                reasons@,
            ) == opcs_invalid_reasons(codes)
        },
    }
}

/// The validator protocol for the OPCS coding system: validate one code, or
/// scan every code of the list and report all failures at once.
pub trait OPCSValidator {
    /// The codes this validator scans, in scan order.
    spec fn codes(&self) -> Seq<Seq<char>>;

    /// Validate the form of a single OPCS code.
    ///
    /// The length bounds are checked first and their message takes precedence;
    /// only a code of 3 to 5 bytes is held against the structural grammar.
    fn validate_code(&self, code: &str) -> (r: Result<(), CodeListValidatorError>)
        ensures
            opcs_validate_code_post(code@, r),
    ;

    /// Validate every code of the list, collecting one `(code, reason)` pair
    /// per invalid entry in scan order rather than stopping at the first.
    fn validate_all_code(&self) -> (r: Result<(), CodeListValidatorError>)
        ensures
            opcs_validate_all_post(self.codes(), r),
    ;
}

/// Two validation results agree: both report success, or both report a
/// failure of the same kind whose fields hold the same text, pair for
/// pair and in the same order.
pub open spec fn results_agree(
    r1: Result<(), CodeListValidatorError>,
    r2: Result<(), CodeListValidatorError>,
) -> bool {
    match (r1, r2) {
        (Ok(u1), Ok(u2)) => true,
        (Err(e1), Err(e2)) => errors_agree(e1, e2),
        _ => false,
    }
}

/// Two validation failures are of the same kind and hold the same text.
pub open spec fn errors_agree(e1: CodeListValidatorError, e2: CodeListValidatorError) -> bool {
    match (e1, e2) {
        (
            CodeListValidatorError::InvalidCodeLength { code: c1, reason: r1 },
            CodeListValidatorError::InvalidCodeLength { code: c2, reason: r2 },
        ) => c1@ == c2@ && r1@ == r2@,
        (
            CodeListValidatorError::InvalidCodeContents { code: c1, reason: r1 },
            CodeListValidatorError::InvalidCodeContents { code: c2, reason: r2 },
        ) => c1@ == c2@ && r1@ == r2@,
        (
            CodeListValidatorError::InvalidCodelist { reasons: a },
            CodeListValidatorError::InvalidCodelist { reasons: b },
        ) => reason_pair_views(a@) == reason_pair_views(b@),
        _ => false,
    }
}

/// Validating the same code twice yields identical results: the same variant
/// with the same fields, whichever run produced them.
pub proof fn lemma_validate_code_idempotent(
    code: Seq<char>,
    r1: Result<(), CodeListValidatorError>,
    r2: Result<(), CodeListValidatorError>,
)
    requires
        opcs_validate_code_post(code, r1),
        opcs_validate_code_post(code, r2),
    ensures
        results_agree(r1, r2),
{
}

/// Validating the same list twice yields identical results: the same
/// outcome with the same `(code, reason)` pairs in the same order.
pub proof fn lemma_validate_all_idempotent(
    codes: Seq<Seq<char>>,
    r1: Result<(), CodeListValidatorError>,
    r2: Result<(), CodeListValidatorError>,
)
    requires
        opcs_validate_all_post(codes, r1),
        opcs_validate_all_post(codes, r2),
    ensures
        results_agree(r1, r2),
{
}

/// For a code whose length is out of bounds the result is always a length
/// failure, never a contents failure, whatever the code's shape.
pub proof fn lemma_length_precedence(code: Seq<char>, r: Result<(), CodeListValidatorError>)
    requires
        !opcs_length_ok(encode_utf8(code)),
        opcs_validate_code_post(code, r),
    ensures
        r matches Err(e) && e is InvalidCodeLength,
{
}

/// The grammar decides validation: every code within the grammar and bounds
/// passes, and every other code fails with the variant that names the check
/// it broke — length when the length is out of bounds, contents when the
/// length is in bounds but the shape breaks the grammar.
pub proof fn lemma_grammar_decides(code: Seq<char>, r: Result<(), CodeListValidatorError>)
    requires
        opcs_validate_code_post(code, r),
    ensures
        r is Ok <==> opcs_code_valid(encode_utf8(code)),
        !opcs_length_ok(encode_utf8(code)) ==> (r matches Err(e) && e is InvalidCodeLength),
        opcs_length_ok(encode_utf8(code)) && !opcs_format_ok(encode_utf8(code)) ==> (r matches Err(
            e,
        ) && e is InvalidCodeContents),
{
}

/// The invalid codes of a scan, in scan order: the codes that fail
/// validation, duplicates kept.
pub open spec fn opcs_invalid_codes(codes: Seq<Seq<char>>) -> Seq<Seq<char>> {
    codes.filter(|c: Seq<char>| !opcs_code_valid(encode_utf8(c)))
}

/// A scan's collected pairs are exactly the invalid codes, in scan order,
/// each beside its failure reason.
pub proof fn lemma_invalid_reasons_structure(codes: Seq<Seq<char>>)
    ensures
        opcs_invalid_reasons(codes) == opcs_invalid_codes(codes).map_values(
            |c: Seq<char>| (c, opcs_failure_reason(c)),
        ),
    decreases codes.len(),
{
    reveal_with_fuel(Seq::filter, 2);
    let to_pair = |c: Seq<char>| (c, opcs_failure_reason(c));
    if codes.len() == 0 {
        assert(opcs_invalid_reasons(codes) =~= opcs_invalid_codes(codes).map_values(to_pair));
    } else {
        lemma_invalid_reasons_structure(codes.drop_last());
        if opcs_code_valid(encode_utf8(codes.last())) {
            assert(opcs_invalid_codes(codes) == opcs_invalid_codes(codes.drop_last()));
            assert(opcs_invalid_reasons(codes) =~= opcs_invalid_reasons(codes.drop_last()));
        } else {
            assert(opcs_invalid_codes(codes) == opcs_invalid_codes(codes.drop_last()).push(
                codes.last(),
            ));
            assert(opcs_invalid_codes(codes).map_values(to_pair) =~= opcs_invalid_codes(
                codes.drop_last(),
            ).map_values(to_pair).push(to_pair(codes.last())));
            assert(opcs_invalid_reasons(codes) =~= opcs_invalid_reasons(codes.drop_last()).push(
                to_pair(codes.last()),
            ));
        }
    }
}

/// A scan collects nothing exactly when every code is valid.
pub proof fn lemma_invalid_reasons_empty(codes: Seq<Seq<char>>)
    ensures
        opcs_invalid_reasons(codes).len() == 0 <==> (forall|i: int|
            0 <= i < codes.len() ==> opcs_code_valid(encode_utf8(codes[i]))),
    decreases codes.len(),
{
    if codes.len() > 0 {
        lemma_invalid_reasons_empty(codes.drop_last());
        assert(forall|i: int|
            0 <= i < codes.len() - 1 ==> codes.drop_last()[i] == codes[i]);
        assert(codes.last() == codes[codes.len() - 1]);
    }
}

/// For a list of codes with `k` invalid ones, validation succeeds exactly
/// when `k` is zero, and otherwise reports one aggregate failure with exactly
/// `k` pairs: each invalid code in scan order, beside its reason.
pub proof fn lemma_validate_all_totality(
    codes: Seq<Seq<char>>,
    r: Result<(), CodeListValidatorError>,
)
    requires
        opcs_validate_all_post(codes, r),
    ensures
        r is Ok <==> (forall|i: int|
            0 <= i < codes.len() ==> opcs_code_valid(encode_utf8(codes[i]))),
        r matches Err(e) ==> e matches CodeListValidatorError::InvalidCodelist { reasons }
            && reason_pair_views(reasons@) == opcs_invalid_codes(codes).map_values(
            |c: Seq<char>| (c, opcs_failure_reason(c)),
        ) && reasons@.len() == opcs_invalid_codes(codes).len(),
{
    lemma_invalid_reasons_empty(codes);
    lemma_invalid_reasons_structure(codes);
}

fn byte_is_uppercase_letter(b: u8) -> (r: bool)
    ensures
        r == is_uppercase_letter_byte(b),
{
    65 <= b && b <= 90
}

fn byte_is_digit(b: u8) -> (r: bool)
    ensures
        r == is_digit_byte(b),
{
    48 <= b && b <= 57
}

fn byte_is_dot(b: u8) -> (r: bool)
    ensures
        r == is_dot_byte(b),
{
    b == 46
}

impl OPCSValidator for CodeList {
    open spec fn codes(&self) -> Seq<Seq<char>> {
        list_codes(self)
    }

    fn validate_code(&self, code: &str) -> (r: Result<(), CodeListValidatorError>) {
        let bytes = code.as_bytes();
        let n = bytes.len();
        if n > OPCS_MAX_LENGTH {
            let mut reason = String::from_str("OPCS code ");
            reason.append(code);
            reason.append(" is greater than 5 characters in length");
            return Err(CodeListValidatorError::invalid_code_length(code, reason));
        }
        if n < OPCS_MIN_LENGTH {
            let mut reason = String::from_str("OPCS code ");
            reason.append(code);
            reason.append(" is less than 3 characters in length");
            return Err(CodeListValidatorError::invalid_code_length(code, reason));
        }
        let format_ok = byte_is_uppercase_letter(bytes[0]) && byte_is_digit(bytes[1])
            && byte_is_digit(bytes[2]) && (n == 3 || (n == 4 && byte_is_digit(bytes[3])) || (n == 5
            && ((byte_is_digit(bytes[3]) && byte_is_digit(bytes[4])) || (byte_is_dot(bytes[3])
            && byte_is_digit(bytes[4])))));
        if !format_ok {
            let mut reason = String::from_str("OPCS code ");
            reason.append(code);
            reason.append(" does not match the expected format");
            return Err(CodeListValidatorError::invalid_code_contents(code, reason));
        }
        Ok(())
    }

    fn validate_all_code(&self) -> (r: Result<(), CodeListValidatorError>) {
        let mut invalid_codes: Vec<(String, String)> = Vec::new();
        let mut i: usize = 0;
        while i < self.entries.len()
            invariant
                i <= self.entries@.len(),
                reason_pair_views(invalid_codes@) == opcs_invalid_reasons(
                    self.codes().take(i as int),
                ),
            decreases self.entries@.len() - i,
        {
            let ghost scanned = self.codes().take(i as int + 1);
            proof {
                assert(scanned.drop_last() =~= self.codes().take(i as int));
                assert(scanned.last() == self.entries@[i as int].code@);
            }
            let code = &self.entries[i].code;
            match self.validate_code(code.as_str()) {
                Ok(()) => {
                    proof {
                        assert(reason_pair_views(invalid_codes@) =~= opcs_invalid_reasons(scanned));
                    }
                },
                Err(err) => {
                    let reason = err.render();
                    proof {
                        assert(reason@ == opcs_failure_reason(code@));
                    }
                    invalid_codes.push((code.clone(), reason));
                    proof {
                        assert(reason_pair_views(invalid_codes@) =~= opcs_invalid_reasons(scanned));
                    }
                },
            }
            i = i + 1;
        }
        proof {
            assert(self.codes().take(self.entries@.len() as int) =~= self.codes());
        }
        if invalid_codes.len() == 0 {
            Ok(())
        } else {
            Err(CodeListValidatorError::invalid_codelist(invalid_codes))
        }
    }
}

} // verus!
