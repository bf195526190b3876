//! Directory paths as sequences of components.

use vstd::prelude::*;

verus! {

/// Whether `path` has a final component and that component is `name`.
pub open spec fn ends_with_segment(path: Seq<Seq<char>>, name: Seq<char>) -> bool {
    path.len() > 0 && path.last() == name
}

/// The parent of `path`: everything but its final component. A path
/// without components has no parent.
pub open spec fn parent_of(path: Seq<Seq<char>>) -> Option<Seq<Seq<char>>> {
    if path.len() == 0 {
        None
    } else {
        Some(path.drop_last())
    }
}

/// A directory path, held as its components from the outermost inwards.
///
/// The components are read as text and all alike: a root or a drive prefix,
/// where the path has one, is nothing but its first component.
#[derive(Debug, PartialEq, Eq)]
pub struct DirPath {
    segments: Vec<String>,
}

impl View for DirPath {
    type V = Seq<Seq<char>>;

    closed spec fn view(&self) -> Seq<Seq<char>> {
        self.segments.deep_view()
    }
}

impl DirPath {
    /// The path made of `segments`, in their order.
    pub fn new(segments: Vec<String>) -> (path: DirPath)
        ensures
            path@ == segments.deep_view(),
    {
        DirPath { segments }
    }

    /// The components of the path.
    pub fn segments(&self) -> (segments: &Vec<String>)
        ensures
            segments.deep_view() == self@,
    {
        &self.segments
    }

    /// Gives up the path for its components.
    pub fn into_segments(self) -> (segments: Vec<String>)
        ensures
            segments.deep_view() == self@,
    {
        self.segments
    }

    /// Whether the final component of the path is `name`.
    pub fn ends_with(&self, name: &str) -> (found: bool)
        ensures
            found == ends_with_segment(self@, name@),
    {
        let count: usize = self.segments.len();
        if count == 0 {
            return false;
        }
        let wanted: String = name.to_owned();
        self.segments[count - 1] == wanted
    }

    /// The parent directory: the path without its final component, or
    /// `None` where the path has no component to leave out.
    pub fn parent(&self) -> (parent: Option<DirPath>)
        ensures
            match parent {
                Some(directory) => parent_of(self@) == Some(directory@),
                None => parent_of(self@) is None,
            },
    {
        let mut segments: Vec<String> = self.segments.clone();
        match segments.pop() {
            Some(_) => Some(DirPath { segments }),
            None => None,
        }
    }

    /// The path one level below this one, through the component `name`.
    pub fn child(&self, name: &str) -> (child: DirPath)
        ensures
            child@ == self@.push(name@),
    {
        let mut segments: Vec<String> = self.segments.clone();
        segments.push(name.to_owned());
        DirPath { segments }
    }
}

impl Clone for DirPath {
    fn clone(&self) -> (copy: DirPath)
        ensures
            copy@ == self@,
    {
        let segments: Vec<String> = self.segments.clone();
        DirPath { segments }
    }
}

} // verus!
