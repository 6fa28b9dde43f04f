//! The parsed command line, as far as the chain reads it.

use vstd::prelude::*;

verus! {

/// `clap::ArgMatches`, the parsed command line: held by reference and read
/// through `argument` alone.
#[verifier::external_type_specification]
#[verifier::external_body]
pub struct ExArgMatches(clap::ArgMatches);

/// The string values that a parsed command line holds, by argument name:
/// `name` maps to `v` exactly where `ArgMatches::try_get_one::<String>(name)`
/// answers `Ok(Some(v))`. Names are unique, as in any map.
pub uninterp spec fn argument_values(args: clap::ArgMatches) -> Map<Seq<char>, Seq<char>>;

/// The value that `values` holds for `name`, if any.
pub open spec fn value_of(values: Map<Seq<char>, Seq<char>>, name: Seq<char>) -> Option<Seq<char>> {
    if values.contains_key(name) {
        Some(values[name])
    } else {
        None
    }
}

/// Looks `name` up with `ArgMatches::try_get_one::<String>`.
///
/// Trusted: the answer is the first string value that the matches hold for
/// `name`, and it depends on `args` and `name` alone. An argument without a
/// value, one that the command does not define and one whose values are not
/// strings all answer `None`; the call never panics.
#[verifier::external_body]
pub(crate) fn argument(args: &clap::ArgMatches, name: &str) -> (value: Option<String>)
    ensures
        value.deep_view() == value_of(argument_values(*args), name@),
{
    match args.try_get_one::<String>(name) {
        Ok(Some(value)) => Some(value.clone()),
        _ => None,
    }
}

} // verus!
