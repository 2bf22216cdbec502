//! Identifier case conversion, delegated to the `convert_case` crate.
//!
//! The generator needs two conversions: group names are title-cased into
//! variant names (Pascal case), and variant names are snake-cased to build
//! mutator method names. What a conversion returns on given characters is a
//! pure function of those characters, so each result is given an
//! uninterpreted name that the callers' contracts speak of exactly.

use vstd::prelude::*;
use convert_case::{Case, Casing};

verus! {

/// The Pascal-case rendering of `s`, as `convert_case` computes it.
pub uninterp spec fn pascal_of(s: Seq<char>) -> Seq<char>;

/// The snake-case rendering of `s`, as `convert_case` computes it.
pub uninterp spec fn snake_of(s: Seq<char>) -> Seq<char>;

/// Relies on `convert_case::Casing::to_case` with `Case::Pascal`: the result
/// depends on the input characters alone.
#[verifier::external_body]
pub(crate) fn to_pascal_case(s: &String) -> (r: String)
    ensures
        r@ == pascal_of(s@),
{
    s.as_str().to_case(Case::Pascal)
}

/// Relies on `convert_case::Casing::to_case` with `Case::Snake`: the result
/// depends on the input characters alone.
#[verifier::external_body]
pub(crate) fn to_snake_case(s: &String) -> (r: String)
    ensures
        r@ == snake_of(s@),
{
    s.as_str().to_case(Case::Snake)
}

} // verus!
