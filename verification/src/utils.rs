//! Small general helpers.

use vstd::prelude::*;

verus! {

/// The option's value when present, else what the default closure yields.
pub fn get_default<T, F: FnOnce() -> T>(option: Option<T>, default_fn: F) -> (r: T)
    requires
        option is None ==> call_requires(default_fn, ()),
    ensures
        option matches Some(v) ==> r == v,
        option is None ==> call_ensures(default_fn, (), r),
{
    match option {
        Some(v) => v,
        None => default_fn(),
    }
}

} // verus!
