//! Toolchain-environment decisions: the build tool's name with its
//! override, the two toolchain home directories with their defaults, and
//! the exclusion pattern built from them.  The driver reads the variables
//! themselves and hands their values in.

use vstd::prelude::*;

verus! {

/// The build tool to invoke: the overriding variable's value when set, the
/// plain name otherwise.
pub fn cargo(var: Option<String>) -> (r: String)
    ensures
        var matches Some(s) ==> r@ == s@,
        var is None ==> r@ == "cargo"@,
{
    match var {
        Some(s) => s,
        None => "cargo".to_owned(),
    }
}

/// The build tool's home directory: the variable's value when set, empty
/// otherwise.
pub fn cargo_home(var: Option<String>) -> (r: String)
    ensures
        var matches Some(s) ==> r@ == s@,
        var is None ==> r@ == Seq::<char>::empty(),
{
    match var {
        Some(s) => s,
        None => String::new(),
    }
}

/// The toolchain manager's home directory: the variable's value when set,
/// empty otherwise.
pub fn rustup_home(var: Option<String>) -> (r: String)
    ensures
        var matches Some(s) ==> r@ == s@,
        var is None ==> r@ == Seq::<char>::empty(),
{
    match var {
        Some(s) => s,
        None => String::new(),
    }
}

/// The report step's exclusion pattern: the two toolchain home directories
/// joined as alternatives, suppressing coverage noise from toolchain
/// internals and the dependency cache.
pub fn ignore_pattern(cargo_home: &str, rustup_home: &str) -> (r: String)
    ensures
        r@ == cargo_home@ + "|"@ + rustup_home@,
{
    let mut r = cargo_home.to_owned();
    r.append("|");
    r.append(rustup_home);
    r
}

} // verus!
