//! Directories, kept as a base directory and the relative directories joined
//! onto it. The library never touches the file system, so it never needs the
//! joined form: whoever opens a directory folds the parts with the platform's
//! own path join, in order.

use vstd::prelude::*;
use crate::text::{Text, texts, copy_strings};

verus! {

/// A directory: `base`, then each of `joined` resolved against what precedes.
#[derive(Debug, PartialEq, Eq)]
pub struct DirPath {
    pub base: String,
    pub joined: Vec<String>,
}

/// The mathematical value of a [`DirPath`].
pub struct PathModel {
    pub base: Text,
    pub joined: Seq<Text>,
}

impl PathModel {
    /// The directory `part` names when resolved against `self`.
    pub open spec fn join(self, part: Text) -> PathModel {
        PathModel { base: self.base, joined: self.joined.push(part) }
    }
}

impl View for DirPath {
    type V = PathModel;

    open spec fn view(&self) -> PathModel {
        PathModel { base: self.base@, joined: texts(self.joined@) }
    }
}

impl DirPath {
    /// The directory `base` itself.
    pub fn new(base: &str) -> (dir: DirPath)
        ensures
            dir@ == (PathModel { base: base@, joined: Seq::empty() }),
    {
        let dir = DirPath { base: base.to_owned(), joined: Vec::new() };
        assert(texts(dir.joined@) =~= Seq::empty());
        dir
    }

    /// `part` resolved against this directory.
    pub fn join(&self, part: &str) -> (dir: DirPath)
        ensures
            dir@ == self@.join(part@),
    {
        let mut joined = copy_strings(&self.joined);
        let ghost before = joined@;
        joined.push(part.to_owned());
        assert(texts(joined@) =~= texts(before).push(part@));
        DirPath { base: self.base.clone(), joined }
    }
}

impl Clone for DirPath {
    fn clone(&self) -> (copy: DirPath)
        ensures
            copy@ == self@,
    {
        DirPath { base: self.base.clone(), joined: copy_strings(&self.joined) }
    }
}

} // verus!
