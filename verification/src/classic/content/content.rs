//! The earliest content registry, with the Fill and Ramp content only.

use vstd::prelude::*;

use crate::content::string_views;

verus! {

/// The names of the earliest content registry: Fill and Ramp.
pub open spec fn earliest_content_names() -> Seq<Seq<char>> {
    seq!["Fill"@, "Ramp"@]
}

/// The names of all content of the earliest registry, in selection order.
pub fn get_all_content_names() -> (names: Vec<String>)
    ensures
        string_views(names@) == earliest_content_names(),
{
    let mut names: Vec<String> = Vec::new();
    names.push("Fill".to_owned());
    names.push("Ramp".to_owned());
    proof {
        assert(string_views(names@) =~= earliest_content_names());
    }
    names
}

} // verus!
