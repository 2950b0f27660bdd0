use vstd::prelude::*;

verus! {

/// `chrono::NaiveDateTime`, carried through as an opaque timestamp.
#[verifier::external_type_specification]
#[verifier::external_body]
pub struct ExNaiveDateTime(chrono::NaiveDateTime);

/// `bigdecimal::BigDecimal`, carried through as an opaque coin amount.
#[verifier::external_type_specification]
#[verifier::external_body]
pub struct ExBigDecimal(bigdecimal::BigDecimal);

/// `<bigdecimal::BigDecimal as Clone>::clone`. Its source derives `Clone`, which
/// copies the integer value and the scale; the contract says the copy is the
/// same value.
pub assume_specification[ <bigdecimal::BigDecimal as core::clone::Clone>::clone ](
    b: &bigdecimal::BigDecimal,
) -> (r: bigdecimal::BigDecimal)
    ensures
        r == *b,
;

} // verus!
