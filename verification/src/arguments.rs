//! The arguments of a command, as serenity's `Args` splits them.
//!
//! The splitting itself is serenity's: it knows about quoted arguments and
//! about delimiters that do not occur in the message. This module only names
//! what serenity hands back, so that the rest of the crate can speak of it.

use serenity::framework::standard::Args;
use serenity::framework::standard::Delimiter;
use vstd::prelude::*;

verus! {

/// serenity's `Args`: a message split into arguments, with a cursor on the
/// next one. Nothing inside it is visible here.
#[verifier::external_type_specification]
#[verifier::external_body]
pub struct ExArgs(Args);

/// The arguments that `Args::new` recognises in `message` when `delimiter`
/// is the only delimiter, in the order in which they occur.
pub uninterp spec fn split_arguments(message: Seq<char>, delimiter: char) -> Seq<Seq<char>>;

/// The arguments that `args` has not handed out yet, next one first, each as
/// `Args::current` would show it.
pub uninterp spec fn pending_arguments(args: Args) -> Seq<Seq<char>>;

/// The delimiter between the arguments of a command.
pub open spec fn argument_delimiter() -> char {
    ' '
}

/// The first argument of `raw_args`, if there is one.
pub open spec fn first_argument_of(raw_args: Seq<char>) -> Option<Seq<char>> {
    let arguments = split_arguments(raw_args, argument_delimiter());
    if arguments.len() > 0 {
        Some(arguments[0])
    } else {
        None
    }
}

/// Calls `Args::new` with the single delimiter `Delimiter::Single(delimiter)`.
///
/// Trusted: nothing has been handed out of the fresh `Args`, so what is
/// pending is everything that serenity recognised in `message`.
#[verifier::external_body]
fn parse_arguments(message: &str, delimiter: char) -> (args: Args)
    ensures
        pending_arguments(args) == split_arguments(message@, delimiter),
{
    Args::new(message, &[Delimiter::Single(delimiter)])
}

/// Calls `Args::single::<String>`.
///
/// Trusted: with nothing pending serenity reports the end of the arguments
/// and leaves `args` alone; otherwise it returns the current argument as a
/// `String` (which cannot fail to parse) and moves on by one.
#[verifier::external_body]
fn take_argument(args: &mut Args) -> (taken: Option<String>)
    ensures
        pending_arguments(*old(args)).len() == 0 ==> taken is None && pending_arguments(
            *final(args),
        ) == pending_arguments(*old(args)),
        pending_arguments(*old(args)).len() > 0 ==> taken is Some && taken->0@
            == pending_arguments(*old(args))[0] && pending_arguments(*final(args))
            == pending_arguments(*old(args)).skip(1),
{
    match args.single::<String>() {
        Ok(argument) => Some(argument),
        Err(_) => None,
    }
}

/// Splits `raw_args` at spaces, as serenity does, and returns the first
/// argument. Later arguments are neither looked at nor checked.
pub fn first_argument(raw_args: &str) -> (first: Option<String>)
    ensures
        first is Some == first_argument_of(raw_args@) is Some,
        first is Some ==> first->0@ == first_argument_of(raw_args@)->0,
{
    let mut args = parse_arguments(raw_args, ' ');
    take_argument(&mut args)
}

} // verus!
