//! Owned output locations. A path is a list of name segments; joining returns
//! a new value, so no worker ever mutates a path another worker can see.

use crate::models::spotify::clone_strings;
use crate::text::spec_join;
use crate::text::join_strings;
use vstd::prelude::*;

verus! {

/// An owned output location, one name per segment, outermost first.
#[derive(Debug)]
pub struct OutputPath {
    pub segments: Vec<String>,
}

impl View for OutputPath {
    type V = Seq<Seq<char>>;

    open spec fn view(&self) -> Seq<Seq<char>> {
        self.segments.deep_view()
    }
}

impl Clone for OutputPath {
    /// A deep copy; each worker clones its own cursor before mutating it.
    fn clone(&self) -> (res: Self)
        ensures
            res@ == self@,
    {
        let res = OutputPath { segments: clone_strings(&self.segments) };
        proof {
            assert(res@ =~= self@);
        }
        res
    }
}

impl OutputPath {
    /// The location with no segments at all.
    pub fn empty() -> (r: OutputPath)
        ensures
            r@ == Seq::<Seq<char>>::empty(),
    {
        let r = OutputPath { segments: Vec::new() };
        proof {
            assert(r@ =~= Seq::<Seq<char>>::empty());
        }
        r
    }

    /// The location of a single root segment.
    pub fn from_root(root: String) -> (r: OutputPath)
        ensures
            r@ == seq![root@],
    {
        let mut segments: Vec<String> = Vec::new();
        segments.push(root);
        let r = OutputPath { segments };
        proof {
            assert(r@ =~= seq![r.segments@[0]@]);
        }
        r
    }

    /// A new location with `name` appended; `self` is left untouched.
    pub fn child(&self, name: String) -> (r: OutputPath)
        ensures
            r@ == self@.push(name@),
    {
        let mut segments = clone_strings(&self.segments);
        segments.push(name);
        let r = OutputPath { segments };
        proof {
            assert(r@ =~= self@.push(r.segments@.last()@));
        }
        r
    }

    /// The location one segment up, or `None` at the top.
    pub fn parent(&self) -> (r: Option<OutputPath>)
        ensures
            self@.len() == 0 ==> r is None,
            self@.len() > 0 ==> r is Some && r->0@ == self@.drop_last(),
    {
        if self.segments.len() == 0 {
            None
        } else {
            let mut segments = clone_strings(&self.segments);
            segments.pop();
            let r = OutputPath { segments };
            proof {
                assert(r@ =~= self@.drop_last());
            }
            Some(r)
        }
    }

    /// Whether the location has a parent to create files under.
    pub fn has_parent(&self) -> (r: bool)
        ensures
            r == (self@.len() > 0),
    {
        self.segments.len() > 0
    }

    /// The number of segments.
    pub fn depth(&self) -> (r: usize)
        ensures
            r == self@.len(),
    {
        self.segments.len()
    }

    /// The segments joined with `/`, for messages and for the platform layer.
    pub fn render(&self) -> (r: String)
        ensures
            r@ == spec_join(self@, "/"@),
    {
        join_strings(&self.segments, "/")
    }
}

} // verus!
