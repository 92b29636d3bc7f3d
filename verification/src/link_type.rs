//! Links between targets.

use vstd::prelude::*;
use crate::unique::{lemma_merge_unique_step, merge_unique};

verus! {

/// A library that a target links against, named by its kind and by its
/// place in the target graph. Two links are the same exactly when they
/// name the same place: libraries that merely look alike are different.
#[derive(Clone, Copy, Debug, PartialEq, Eq, Structural, Hash)]
pub enum LinkPtr {
    Static(usize),
    Object(usize),
    Interface(usize),
}

impl LinkPtr {
    /// The place in the graph that the link names.
    pub open spec fn spec_index(self) -> int {
        match self {
            LinkPtr::Static(i) => i as int,
            LinkPtr::Object(i) => i as int,
            LinkPtr::Interface(i) => i as int,
        }
    }

    /// The place in the graph that the link names, as a machine number.
    pub open spec fn spec_key(self) -> usize {
        match self {
            LinkPtr::Static(i) => i,
            LinkPtr::Object(i) => i,
            LinkPtr::Interface(i) => i,
        }
    }

    /// The place in the graph that the link names.
    pub fn index(&self) -> (r: usize)
        ensures
            r == self.spec_index(),
            r == self.spec_key(),
    {
        match self {
            LinkPtr::Static(i) => *i,
            LinkPtr::Object(i) => *i,
            LinkPtr::Interface(i) => *i,
        }
    }
}

/// A list of build settings that a library hands on to what links it.
#[derive(Clone, Copy, Debug, PartialEq, Eq, Structural)]
pub enum Property {
    /// Directories searched for headers.
    Includes,
    /// Preprocessor definitions.
    Defines,
    /// Flags for the linker.
    LinkFlags,
}


/// Whether `v` holds the link `x`.
pub fn contains_link(v: &Vec<LinkPtr>, x: LinkPtr) -> (r: bool)
    ensures
        r == v@.contains(x),
{
    let mut i: usize = 0;
    while i < v.len()
        invariant
            i <= v@.len(),
            forall|k: int| 0 <= k < i ==> v@[k] != x,
        decreases v@.len() - i,
    {
        if v[i] == x {
            return true;
        }
        i += 1;
    }
    false
}

/// Appends to `acc` the links of `items` that it does not hold yet.
pub fn merge_links(acc: &mut Vec<LinkPtr>, items: &Vec<LinkPtr>)
    ensures
        final(acc)@ == merge_unique(old(acc)@, items@),
{
    let mut i: usize = 0;
    while i < items.len()
        invariant
            i <= items@.len(),
            acc@ == merge_unique(old(acc)@, items@.take(i as int)),
        decreases items@.len() - i,
    {
        proof {
            lemma_merge_unique_step(old(acc)@, items@, i as int);
        }
        if !contains_link(acc, items[i]) {
            acc.push(items[i]);
        }
        i += 1;
    }
    assert(items@.take(items@.len() as int) =~= items@);
}

/// A copy of `items`.
pub fn clone_links(items: &Vec<LinkPtr>) -> (r: Vec<LinkPtr>)
    ensures
        r@ == items@,
{
    let mut out: Vec<LinkPtr> = Vec::new();
    let mut i: usize = 0;
    while i < items.len()
        invariant
            i <= items@.len(),
            out@ == items@.take(i as int),
        decreases items@.len() - i,
    {
        out.push(items[i]);
        i += 1;
        assert(out@ =~= items@.take(i as int));
    }
    assert(items@.take(items@.len() as int) =~= items@);
    out
}


/// The three kinds of libraries.
#[derive(Clone, Copy, Debug, PartialEq, Eq, Structural)]
pub enum LinkKind {
    Static,
    Object,
    Interface,
}

impl LinkKind {
    /// Whether `ptr` names a library of this kind.
    pub open spec fn spec_holds(self, ptr: LinkPtr) -> bool {
        match self {
            LinkKind::Static => ptr is Static,
            LinkKind::Object => ptr is Object,
            LinkKind::Interface => ptr is Interface,
        }
    }

    /// How the kind is called in a message.
    pub open spec fn spec_noun(self) -> Seq<char> {
        match self {
            LinkKind::Static => "a static library"@,
            LinkKind::Object => "an object library"@,
            LinkKind::Interface => "an interface library"@,
        }
    }

    /// Whether `ptr` names a library of this kind.
    pub fn holds(&self, ptr: LinkPtr) -> (r: bool)
        ensures
            r == self.spec_holds(ptr),
    {
        match self {
            LinkKind::Static => match ptr {
                LinkPtr::Static(_) => true,
                _ => false,
            },
            LinkKind::Object => match ptr {
                LinkPtr::Object(_) => true,
                _ => false,
            },
            LinkKind::Interface => match ptr {
                LinkPtr::Interface(_) => true,
                _ => false,
            },
        }
    }

    /// How the kind is called in a message.
    pub fn noun(&self) -> (r: &'static str)
        ensures
            r@ == self.spec_noun(),
    {
        match self {
            LinkKind::Static => "a static library",
            LinkKind::Object => "an object library",
            LinkKind::Interface => "an interface library",
        }
    }
}

} // verus!
