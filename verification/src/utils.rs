//! Reading settings out of values that came from the process environment.
//! The environment itself is read by the caller.

use vstd::prelude::*;
use crate::text::same_text;

verus! {

/// What a switch in the environment says: on only where it is set to
/// exactly `true`.
pub open spec fn flag_on(value: Option<Seq<char>>) -> bool {
    value == Some("true"@)
}

/// Reads a switch: an unset variable, and any text but `true`, is off.
pub fn env_flag(value: Option<&str>) -> (r: bool)
    ensures
        r == flag_on(
            match value {
                Some(v) => Some(v@),
                None => None,
            },
        ),
{
    match value {
        Some(v) => same_text(v, "true"),
        None => false,
    }
}

/// A required setting: the value that is set.
pub fn load_env_panic(value: Option<String>) -> (r: String)
    requires
        value is Some,
    ensures
        Some(r) == value,
{
    value.unwrap()
}

/// An optional setting: the value, if one is set.
pub fn load_env_optional(value: Option<String>) -> (r: Option<String>)
    ensures
        r == value,
{
    value
}

/// A setting with a fallback: the value, once `transform` has read it, or
/// the default where the variable is unset.
pub fn _load_env<T, F: FnOnce(String) -> T>(value: Option<String>, transform: F, default_value: Option<T>) -> (r: T)
    requires
        value is Some || default_value is Some,
        value is Some ==> transform.requires((value->0,)),
    ensures
        match value {
            Some(v) => transform.ensures((v,), r),
            None => default_value == Some(r),
        },
{
    match value {
        Some(v) => transform(v),
        None => default_value.unwrap(),
    }
}

} // verus!
