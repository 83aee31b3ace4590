use vstd::prelude::*;

verus! {

/// One working-copy file candidate for a selective commit: its path relative
/// to the repository root and whether it is currently included.
///
/// The inclusion flag defaults to whatever the backend supplied when the
/// batch was created and is only ever flipped by a direct user toggle in the
/// selection list.
#[derive(Debug, PartialEq, Eq)]
pub struct Entry {
    pub path: String,
    pub included: bool,
}

/// The mathematical model of an [`Entry`]: the path as a sequence of
/// characters, plus the inclusion flag.
#[verifier::ext_equal]
pub struct EntryModel {
    pub path: Seq<char>,
    pub included: bool,
}

impl View for Entry {
    type V = EntryModel;

    open spec fn view(&self) -> EntryModel {
        EntryModel { path: self.path@, included: self.included }
    }
}

impl Entry {
    /// Builds an entry from a path and an initial inclusion flag.
    pub fn new(path: String, included: bool) -> (r: Entry)
        ensures
            r@ == (EntryModel { path: path@, included }),
    {
        Entry { path, included }
    }
}

/// The models of a batch of entries, in listing order.
pub open spec fn entries_view(v: Seq<Entry>) -> Seq<EntryModel> {
    v.map_values(|e: Entry| e@)
}

/// The paths of the entries whose inclusion flag is set, in listing order:
/// the files a selective commit is about.
pub open spec fn included_paths(s: Seq<EntryModel>) -> Seq<Seq<char>> {
    s.filter(|e: EntryModel| e.included).map_values(|e: EntryModel| e.path)
}

} // verus!
