//! The content of the first-generation controller.

pub mod content;

use vstd::prelude::*;

use crate::content::string_views;

verus! {

/// The names of the first-generation content: Fill, Ramp and Simplex.
pub open spec fn classic_content_names() -> Seq<Seq<char>> {
    seq!["Fill"@, "Ramp"@, "Simplex"@]
}

/// The names of all first-generation content, in selection order.
pub fn get_all_content_names() -> (names: Vec<String>)
    ensures
        string_views(names@) == classic_content_names(),
{
    let mut names: Vec<String> = Vec::new();
    names.push("Fill".to_owned());
    names.push("Ramp".to_owned());
    names.push("Simplex".to_owned());
    proof {
        assert(string_views(names@) =~= classic_content_names());
    }
    names
}

/// The content that fills every voxel with one color.
pub struct Fill {}

impl Fill {
    /// The fill content.
    pub fn new() -> (fill: Self) {
        Fill {}
    }

    /// Its name, `Fill`.
    pub fn name(&self) -> (name: String)
        ensures
            name@ == "Fill"@,
    {
        "Fill".to_owned()
    }
}

} // verus!
