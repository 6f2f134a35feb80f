//! Values that events carry without looking into them.
use vstd::prelude::*;

verus! {

/// A JSON document (`serde_json::Value`), carried through unchanged.
#[verifier::external_type_specification]
#[verifier::external_body]
pub struct ExJsonValue(serde_json::Value);

/// `Clone` of `serde_json::Value`, which serde_json derives: the copy is the
/// same document.
pub assume_specification[ <serde_json::Value as Clone>::clone ](v: &serde_json::Value) -> (r:
    serde_json::Value)
    ensures
        r == *v,
;

/// A binary64 floating-point quantity (a price, an amount, a ratio), held as
/// its IEEE-754 bit pattern. Events carry such quantities and never compute
/// with them, so the bits keep the value exactly.
#[derive(Clone, Copy, Debug, PartialEq, Eq, Structural)]
pub struct FloatBits(pub u64);

} // verus!
