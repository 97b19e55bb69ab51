//! The names of the built-in commands, which no alias can shadow.

use crate::text::str_eq;
use vstd::prelude::*;

verus! {

/// `name` is the name of a built-in command.
pub open spec fn is_builtin(name: Seq<char>) -> bool {
    ||| name == "alias"@
    ||| name == "completion"@
    ||| name == "config"@
    ||| name == "generate"@
    ||| name == "organization"@
}

/// Whether `name` is the name of a built-in command.
pub fn valid_command(name: &str) -> (b: bool)
    ensures
        b == is_builtin(name@),
{
    str_eq(name, "alias") || str_eq(name, "completion") || str_eq(name, "config") || str_eq(
        name,
        "generate",
    ) || str_eq(name, "organization")
}

} // verus!
