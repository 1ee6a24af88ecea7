//! The content families the renderer can show, by name, in the order the web
//! client lists and selects them.

use vstd::prelude::*;

verus! {

/// The names of the content families: Field, Layers, Threads and Cloud.
pub open spec fn content_names() -> Seq<Seq<char>> {
    seq!["Field"@, "Layers"@, "Threads"@, "Cloud"@]
}

/// The views of a list of strings.
pub open spec fn string_views(strings: Seq<String>) -> Seq<Seq<char>> {
    strings.map_values(|s: String| s@)
}

/// The names of all content families, in selection order.
pub fn get_all_content_names() -> (names: Vec<String>)
    ensures
        string_views(names@) == content_names(),
        names@.len() == 4,
{
    let mut names: Vec<String> = Vec::new();
    names.push("Field".to_owned());
    names.push("Layers".to_owned());
    names.push("Threads".to_owned());
    names.push("Cloud".to_owned());
    proof {
        assert(string_views(names@) =~= content_names());
    }
    names
}

/// The content family the renderer shows for a requested index: the request,
/// limited to the last family.
pub open spec fn shown_content(requested: usize, count: usize) -> usize {
    if requested < count {
        requested
    } else {
        (count - 1) as usize
    }
}

/// Which content family the renderer shows; a change of family restarts its
/// animation.
#[derive(Debug, Clone, Copy, PartialEq, Eq)]
pub struct ContentSelector {
    /// The family shown, or `usize::MAX` before the first frame.
    pub selected: usize,
}

impl ContentSelector {
    /// No family shown yet.
    pub fn new() -> (selector: Self)
        ensures
            selector.selected == usize::MAX,
    {
        ContentSelector { selected: usize::MAX }
    }

    /// Shows the requested family (limited to the last of `count` families);
    /// returns whether the family changed, in which case the animation resets.
    pub fn select(&mut self, requested: usize, count: usize) -> (changed: bool)
        requires
            count > 0,
        ensures
            final(self).selected == shown_content(requested, count),
            changed == (shown_content(requested, count) != old(self).selected),
    {
        let shown = if requested < count { requested } else { count - 1 };
        let changed = shown != self.selected;
        self.selected = shown;
        changed
    }

    /// The first-generation selection: the requested family is shown if it
    /// exists and differs from the one shown (which restarts its animation);
    /// otherwise nothing changes. Returns whether the family changed.
    pub fn select_if_available(&mut self, requested: usize, count: usize) -> (changed: bool)
        ensures
            changed == (requested != old(self).selected && requested < count),
            changed ==> final(self).selected == requested,
            !changed ==> final(self).selected == old(self).selected,
    {
        if requested != self.selected && requested < count {
            self.selected = requested;
            true
        } else {
            false
        }
    }
}

} // verus!
