//! From the name the program was started under and its arguments to the
//! command to run and the arguments to hand it.
use crate::text::{drop_last_char, from_index, strings_from, without_last};
use vstd::prelude::*;

verus! {

/// The name the program has when it is not started through an alias.
pub const NOMINAL_BINARY_NAME: &'static str = "bw";

/// The characters of [`NOMINAL_BINARY_NAME`].
pub open spec fn nominal_name() -> Seq<char> {
    seq!['b', 'w']
}

/// The command and its arguments that an invocation stands for.
///
/// Under the nominal name the first argument after the program name is the
/// command and the rest are its arguments; without such an argument there is
/// no command. Under any other name the command is that name without its last
/// character, and every argument after the program name is handed on.
pub open spec fn resolve(invoked_name: Seq<char>, args: Seq<Seq<char>>) -> Option<
    (Seq<char>, Seq<Seq<char>>),
> {
    if invoked_name == nominal_name() {
        if args.len() < 2 {
            None
        } else {
            Some((args[1], from_index(args, 2)))
        }
    } else {
        Some((without_last(invoked_name), from_index(args, 1)))
    }
}

/// Whether `invoked_name` is the nominal name.
pub fn is_nominal(invoked_name: &String) -> (nominal: bool)
    ensures
        nominal == (invoked_name@ == nominal_name()),
{
    proof {
        reveal_strlit("bw");
        assert(NOMINAL_BINARY_NAME@ =~= nominal_name());
    }
    let expected = NOMINAL_BINARY_NAME.to_owned();
    *invoked_name == expected
}

/// Works out the command and its arguments from the name the program was
/// started under and the arguments it was given, `args[0]` being the program
/// name. `None` means that there is nothing to run.
pub fn extract_command_and_args(invoked_name: String, args: Vec<String>) -> (resolved: Option<
    (String, Vec<String>),
>)
    ensures
        resolved.deep_view() == resolve(invoked_name@, args.deep_view()),
{
    let command: String;
    let start_index: usize;
    if is_nominal(&invoked_name) {
        if args.len() < 2 {
            return None;
        }
        command = args[1].clone();
        start_index = 2;
    } else {
        command = drop_last_char(invoked_name.as_str());
        start_index = 1;
    }
    let remaining = strings_from(&args, start_index);
    Some((command, remaining))
}

} // verus!
