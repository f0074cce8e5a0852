//! The decisions of the interactive setup: reading a yes/no answer and
//! keeping or dropping a newly entered key.

use vstd::prelude::*;
use crate::models::Config;
use crate::text::{lowercase_of, str_eq, to_lowercase};

verus! {

/// An answer means yes: `y` or `yes`, in any case.
pub open spec fn is_yes(answer: Seq<char>) -> bool {
    lowercase_of(answer) == "y"@ || lowercase_of(answer) == "yes"@
}

/// Whether an answer to a yes/no question means yes (`y` or `yes`, in any case).
pub fn confirm(answer: &str) -> (r: bool)
    ensures
        r == is_yes(answer@),
{
    let lower = to_lowercase(answer);
    str_eq(lower.as_str(), "y") || str_eq(lower.as_str(), "yes")
}

/// Keeps a newly entered key when it was validated or the user chose to
/// save it anyway; an empty entry keeps the existing key.
pub fn apply_entered_key(config: &mut Config, key: String, validated: bool, save_anyway: bool) -> (kept: bool)
    ensures
        kept == (key@.len() > 0 && (validated || save_anyway)),
        kept ==> (final(config).track17_api_key matches Some(k) && k@ == key@),
        !kept ==> final(config).track17_api_key == old(config).track17_api_key,
        final(config).waybar_selected == old(config).waybar_selected,
{
    if key.as_str().is_empty() {
        return false;
    }
    if validated || save_anyway {
        config.track17_api_key = Some(key);
        true
    } else {
        false
    }
}

} // verus!
