use vstd::prelude::*;
use vstd::string::*;

verus! {

/// The value of a setting: the one found in the environment, else the default.
pub fn setting_or_default(found: Option<String>, default: &str) -> (r: String)
    ensures
        found matches Some(v) ==> r == v,
        found is None ==> r@ == default@,
{
    match found {
        Some(v) => v,
        None => String::from_str(default),
    }
}

} // verus!
