//! Paths that are tried one after the other.

use vstd::prelude::*;

use crate::text;

verus! {

/// The first of several paths that leads to a file.
pub open spec fn first_existing(
    paths: Seq<Seq<char>>,
    there: spec_fn(Seq<char>) -> bool,
) -> Option<Seq<char>>
    decreases paths.len(),
{
    if paths.len() == 0 {
        None
    } else if there(paths[0]) {
        Some(paths[0])
    } else {
        first_existing(paths.skip(1), there)
    }
}

/// The first existing path is one of those that were tried, and none before it leads to a file.
pub proof fn lemma_first_existing(paths: Seq<Seq<char>>, there: spec_fn(Seq<char>) -> bool)
    ensures
        match first_existing(paths, there) {
            Some(p) => there(p) && exists|i: int|
                0 <= i < paths.len() && #[trigger] paths[i] == p && forall|j: int|
                    0 <= j < i ==> !there(#[trigger] paths[j]),
            None => forall|j: int| 0 <= j < paths.len() ==> !there(#[trigger] paths[j]),
        },
    decreases paths.len(),
{
    if paths.len() > 0 {
        let rest = paths.skip(1);
        lemma_first_existing(rest, there);
        if there(paths[0]) {
            assert(paths[0] == first_existing(paths, there)->0);
        } else {
            match first_existing(rest, there) {
                Some(p) => {
                    let i = choose|i: int|
                        0 <= i < rest.len() && #[trigger] rest[i] == p && forall|j: int|
                            0 <= j < i ==> !there(#[trigger] rest[j]);
                    assert(paths[i + 1] == p);
                    assert forall|j: int| 0 <= j < i + 1 implies !there(#[trigger] paths[j]) by {
                        if j > 0 {
                            assert(rest[j - 1] == paths[j]);
                        }
                    }
                },
                None => {
                    assert forall|j: int| 0 <= j < paths.len() implies !there(
                        #[trigger] paths[j],
                    ) by {
                        if j > 0 {
                            assert(rest[j - 1] == paths[j]);
                        }
                    }
                },
            }
        }
    }
}

/// Paths of which some may have been tried.
#[derive(Debug)]
pub struct PathQueue {
    paths: Vec<String>,
    at: usize,
}

impl View for PathQueue {
    type V = Seq<Seq<char>>;

    /// The paths that are left.
    closed spec fn view(&self) -> Seq<Seq<char>> {
        if self.at <= self.paths@.len() {
            text::string_views(self.paths@).skip(self.at as int)
        } else {
            Seq::empty()
        }
    }
}

impl PathQueue {
    /// All of several paths are left.
    pub fn new(paths: Vec<String>) -> (r: PathQueue)
        ensures
            r@ == text::string_views(paths@),
    {
        let r = PathQueue { paths, at: 0 };
        assert(r@ =~= text::string_views(paths@));
        r
    }

    /// The path to try next.
    pub fn front(&self) -> (r: Option<String>)
        ensures
            match r {
                Some(p) => self@.len() > 0 && p@ == self@[0],
                None => self@.len() == 0,
            },
    {
        if self.at < self.paths.len() {
            Some(self.paths[self.at].clone())
        } else {
            None
        }
    }

    /// Leaves out the path that was tried.
    pub fn drop_front(&mut self)
        ensures
            final(self)@ == if old(self)@.len() > 0 {
                old(self)@.skip(1)
            } else {
                old(self)@
            },
    {
        let ghost before = self@;
        if self.at < self.paths.len() {
            self.at = self.at + 1;
            assert(self@ =~= before.skip(1));
        }
    }
}

} // verus!
