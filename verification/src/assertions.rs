//! Turning an absent value into an error.

use vstd::prelude::*;
use vstd::string::StringExecFns;

verus! {

/// The value inside `value`, or `error_message` as the error where there is none.
pub fn assert_present<T>(value: Option<T>, error_message: &str) -> (result: Result<T, String>)
    ensures
        value is Some ==> result == Ok::<T, String>(value->Some_0),
        value is None ==> result is Err && result->Err_0@ == error_message@,
{
    match value {
        Some(inner) => Ok(inner),
        None => Err(String::from_str(error_message)),
    }
}

/// The value inside `value`, which must be there.
pub fn assert_unwrap<T>(value: Option<T>, error_message: &str) -> (inner: T)
    requires
        value is Some,
    ensures
        Some(inner) == value,
{
    value.unwrap()
}

} // verus!
