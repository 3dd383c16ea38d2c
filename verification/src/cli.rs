//! What was found on the command line, as far as this library reads it.

use vstd::prelude::*;

verus! {

/// The options that `getopts` found on a command line. Nothing of what is
/// inside is seen here; `matched` names it.
#[verifier::external_type_specification]
#[verifier::external_body]
pub struct ExMatches(getopts::Matches);

/// What `matches` holds: for each name under which an option was defined,
/// short or long, the occurrences of that option on the command line in
/// their order, each with the value it came with, if it came with one.
pub uninterp spec fn matched(matches: getopts::Matches) -> Map<Seq<char>, Seq<Option<Seq<char>>>>;

/// `getopts::Matches::opt_defined` tells whether an option was defined
/// under `name`. It looks the name up among the options and their aliases,
/// and does not panic.
pub assume_specification[ getopts::Matches::opt_defined ](
    matches: &getopts::Matches,
    name: &str,
) -> (defined: bool)
    ensures
        defined == matched(*matches).contains_key(name@),
;

/// `getopts::Matches::opt_present` tells whether the option `name`
/// occurred at all. It panics where no option was defined under `name`.
pub assume_specification[ getopts::Matches::opt_present ](
    matches: &getopts::Matches,
    name: &str,
) -> (present: bool)
    requires
        matched(*matches).contains_key(name@),
    ensures
        present == (matched(*matches)[name@].len() > 0),
;

/// `getopts::Matches::opt_str` gives the value of the first occurrence of
/// the option `name`, where the option occurred and that occurrence came
/// with a value. It panics where no option was defined under `name`.
pub assume_specification[ getopts::Matches::opt_str ](
    matches: &getopts::Matches,
    name: &str,
) -> (value: Option<String>)
    requires
        matched(*matches).contains_key(name@),
    ensures
        text_of(value) == option_value(matched(*matches), name@),
;

/// `getopts::Matches::opt_strs` gives the values of all occurrences of the
/// option `name` that came with one, in their order. It panics where no
/// option was defined under `name`.
pub assume_specification[ getopts::Matches::opt_strs ](
    matches: &getopts::Matches,
    name: &str,
) -> (values: Vec<String>)
    requires
        matched(*matches).contains_key(name@),
    ensures
        values.deep_view() == option_values(matched(*matches), name@),
;

/// The text of a string that may be missing.
pub open spec fn text_of(value: Option<String>) -> Option<Seq<char>> {
    match value {
        Some(text) => Some(text@),
        None => None,
    }
}

/// Whether the option `name` is defined and occurs on the command line.
pub open spec fn option_present(
    options: Map<Seq<char>, Seq<Option<Seq<char>>>>,
    name: Seq<char>,
) -> bool {
    options.contains_key(name) && options[name].len() > 0
}

/// The value that the command line gives to the option `name`: that of
/// its first occurrence, where the option is defined, occurs, and comes
/// with a value there.
pub open spec fn option_value(
    options: Map<Seq<char>, Seq<Option<Seq<char>>>>,
    name: Seq<char>,
) -> Option<Seq<char>> {
    if options.contains_key(name) && options[name].len() > 0 {
        options[name][0]
    } else {
        None
    }
}

/// The values that the command line gives to the option `name`, one for
/// each occurrence that comes with a value, in their order; none where the
/// option is not defined.
pub open spec fn option_values(
    options: Map<Seq<char>, Seq<Option<Seq<char>>>>,
    name: Seq<char>,
) -> Seq<Seq<char>> {
    if options.contains_key(name) {
        options[name].filter(|occurrence: Option<Seq<char>>| occurrence is Some).map_values(
            |occurrence: Option<Seq<char>>| occurrence->0,
        )
    } else {
        Seq::empty()
    }
}

/// Tells whether the option `name` occurs, where such an option is defined.
pub fn is_given(params: &getopts::Matches, name: &str) -> (present: bool)
    ensures
        present == option_present(matched(*params), name@),
{
    params.opt_defined(name) && params.opt_present(name)
}

/// The value of the option `name`, where such an option is defined.
pub fn given_value(params: &getopts::Matches, name: &str) -> (value: Option<String>)
    ensures
        text_of(value) == option_value(matched(*params), name@),
{
    if params.opt_defined(name) {
        params.opt_str(name)
    } else {
        None
    }
}

/// The values of the option `name`, where such an option is defined.
pub fn given_values(params: &getopts::Matches, name: &str) -> (values: Vec<String>)
    ensures
        values.deep_view() == option_values(matched(*params), name@),
{
    if params.opt_defined(name) {
        params.opt_strs(name)
    } else {
        let none: Vec<String> = Vec::new();
        assert(none.deep_view() =~= Seq::<Seq<char>>::empty());
        none
    }
}

} // verus!
