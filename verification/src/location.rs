//! Places in the file system, as the driver search names them.
//!
//! A [`Location`] is a starting point and the components joined to it, in order. What separates
//! the components is left to whoever turns it into a path of the running system.
use std::path::PathBuf;
use vstd::prelude::*;

verus! {

/// `std::path::PathBuf`, carried through unread: nothing is claimed of what a value holds.
#[verifier::external_type_specification]
#[verifier::external_body]
pub struct ExPathBuf(PathBuf);

/// Where a location starts.
#[derive(Debug)]
pub enum Root {
    /// A path given as text: an environment variable, the output of a program, a fixed path.
    Text(String),
    /// A directory that the host named.
    Directory(PathBuf),
}

/// The mathematical counterpart of [`Root`].
pub enum RootView {
    Text(Seq<char>),
    Directory(PathBuf),
}

impl View for Root {
    type V = RootView;

    open spec fn view(&self) -> RootView {
        match self {
            Root::Text(text) => RootView::Text(text@),
            Root::Directory(directory) => RootView::Directory(*directory),
        }
    }
}

/// A starting point and the components joined to it, first to last.
#[derive(Debug)]
pub struct Location {
    pub root: Root,
    pub joined: Vec<String>,
}

/// The mathematical counterpart of [`Location`].
pub struct LocationView {
    pub root: RootView,
    pub joined: Seq<Seq<char>>,
}

/// The texts of a sequence of strings.
pub open spec fn texts(strings: Seq<String>) -> Seq<Seq<char>> {
    strings.map_values(|s: String| s@)
}

/// The texts as strings of their own, in order.
pub fn to_strings(list: &[&str]) -> (strings: Vec<String>)
    ensures
        texts(strings@) == list@.map_values(|s: &str| s@),
        strings@.len() == list@.len(),
        forall|i: int| 0 <= i < list@.len() ==> (#[trigger] strings@[i])@ == list@[i]@,
{
    let mut strings: Vec<String> = Vec::new();
    let mut i: usize = 0;
    while i < list.len()
        invariant
            i <= list@.len(),
            strings@.len() == i,
            forall|j: int| 0 <= j < i ==> (#[trigger] strings@[j])@ == list@[j]@,
        decreases list.len() - i,
    {
        strings.push(list[i].to_owned());
        i = i + 1;
    }
    assert(texts(strings@) =~= list@.map_values(|s: &str| s@));
    strings
}

impl View for Location {
    type V = LocationView;

    open spec fn view(&self) -> LocationView {
        LocationView { root: self.root@, joined: texts(self.joined@) }
    }
}

impl LocationView {
    /// The path `path`, with nothing joined to it.
    pub open spec fn text(path: Seq<char>) -> LocationView {
        LocationView { root: RootView::Text(path), joined: Seq::empty() }
    }

    /// The directory `path`, with nothing joined to it.
    pub open spec fn directory(path: PathBuf) -> LocationView {
        LocationView { root: RootView::Directory(path), joined: Seq::empty() }
    }

    /// The entry named `component` under this location.
    pub open spec fn join(self, component: Seq<char>) -> LocationView {
        LocationView { root: self.root, joined: self.joined.push(component) }
    }
}

impl Location {
    /// The path `path`, with nothing joined to it.
    pub fn text(path: String) -> (location: Location)
        ensures
            location@ == LocationView::text(path@),
            location.root == Root::Text(path),
            location.joined@.len() == 0,
    {
        let location = Location { root: Root::Text(path), joined: Vec::new() };
        assert(location@.joined =~= Seq::empty());
        location
    }

    /// The directory `path`, with nothing joined to it.
    pub fn directory(path: PathBuf) -> (location: Location)
        ensures
            location@ == LocationView::directory(path),
            location.root == Root::Directory(path),
            location.joined@.len() == 0,
    {
        let location = Location { root: Root::Directory(path), joined: Vec::new() };
        assert(location@.joined =~= Seq::empty());
        location
    }

    /// The entry named `component` under this location.
    pub fn join(self, component: &str) -> (location: Location)
        ensures
            location@ == self@.join(component@),
            location.root == self.root,
            location.joined@.len() == self.joined@.len() + 1,
            location.joined@.drop_last() == self.joined@,
            location.joined@.last()@ == component@,
    {
        let mut joined = self.joined;
        let ghost before = joined@;
        joined.push(component.to_owned());
        assert(texts(joined@) =~= texts(before).push(component@));
        assert(joined@.drop_last() =~= before);
        Location { root: self.root, joined }
    }
}

} // verus!
