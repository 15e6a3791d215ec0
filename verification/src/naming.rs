//! Names derived from a command's name: the key under which its record is
//! kept, and the identifiers that generation gives it.

use convert_case::Casing;
use vstd::prelude::*;
use vstd::string::StringExecFns;

verus! {

/// The ways in which a command's name is written.
#[derive(Clone, Copy, Debug, PartialEq, Eq)]
pub enum NameCase {
    /// Lower case, words joined by `_`: the key of a record.
    Snake,
    /// Every word capitalised, nothing between them: a variant.
    UpperCamel,
    /// Upper case, words joined by `_`: a constant.
    UpperSnake,
}

/// `name` as `convert_case` writes it in the given case.
pub uninterp spec fn cased(name: Seq<char>, case: NameCase) -> Seq<char>;

/// `convert_case::Casing::to_case`: the contract names what comes out.
#[verifier::external_body]
pub(crate) fn to_case(name: &str, case: NameCase) -> (r: String)
    ensures
        r@ == cased(name@, case),
{
    name.to_case(
        match case {
            NameCase::Snake => convert_case::Case::Snake,
            NameCase::UpperCamel => convert_case::Case::UpperCamel,
            NameCase::UpperSnake => convert_case::Case::UpperSnake,
        },
    )
}

/// The key under which the record of the command `name` is kept.
pub open spec fn command_key(name: Seq<char>) -> Seq<char> {
    cased(name, NameCase::Snake) + ".json"@
}

/// The variant that stands for the command `name` in the dispatch type.
pub open spec fn variant_name(name: Seq<char>) -> Seq<char> {
    cased(name, NameCase::UpperCamel)
}

/// The constant that holds the code of the command `name`.
pub open spec fn constant_name(name: Seq<char>) -> Seq<char> {
    cased(variant_name(name), NameCase::UpperSnake)
}

/// Derives the key of a command's record from its name: the same key for the
/// same name, however often it is registered.
pub fn make_command_key(name: &str) -> (key: String)
    ensures
        key@ == command_key(name@),
{
    let mut key = to_case(name, NameCase::Snake);
    key.append(".json");
    key
}

/// Derives the variant of a command from its name.
pub fn make_variant_name(name: &str) -> (variant: String)
    ensures
        variant@ == variant_name(name@),
{
    to_case(name, NameCase::UpperCamel)
}

/// Derives the constant of a command from its name.
pub fn make_constant_name(name: &str) -> (constant: String)
    ensures
        constant@ == constant_name(name@),
{
    let variant = to_case(name, NameCase::UpperCamel);
    to_case(variant.as_str(), NameCase::UpperSnake)
}

} // verus!
