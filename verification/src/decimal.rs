//! Reading coefficient text as an exact decimal.

use std::str::FromStr;
use vstd::prelude::*;

verus! {

/// Whether `bigdecimal` reads `text` as a decimal number. The reader is exact:
/// it keeps every digit and never goes through floating point.
pub uninterp spec fn decimal_parses(text: Seq<char>) -> bool;

/// Calls `bigdecimal::BigDecimal::from_str` and tells whether it returned a
/// number. The answer depends on the characters of `text` alone, which is all
/// that this contract claims of it.
#[verifier::external_body]
pub(crate) fn parses_as_decimal(text: &str) -> (ok: bool)
    ensures
        ok == decimal_parses(text@),
{
    bigdecimal::BigDecimal::from_str(text).is_ok()
}

} // verus!
