//! What every target can be asked.

use vstd::prelude::*;
use crate::graph::{collected, link_closure, TargetGraph};
use crate::link_type::{LinkPtr, Property};
use crate::project::{ProjectInfo, ProjectInfoView};
use crate::text::texts;

verus! {

/// A named unit that is built or linked.
pub trait Target {
    /// The name the target was declared under.
    spec fn spec_name(&self) -> Seq<char>;

    /// The name of what is built from the target.
    spec fn spec_output_name(&self) -> Seq<char>;

    /// The project that owns the target.
    spec fn spec_project(&self) -> ProjectInfoView;

    /// The name the target was declared under.
    fn name(&self) -> (r: &str)
        ensures
            r@ == self.spec_name(),
    ;

    /// The name of what is built from the target: the declared name
    /// unless another was asked for.
    fn output_name(&self) -> (r: &str)
        ensures
            r@ == self.spec_output_name(),
    ;

    /// The project that owns the target.
    fn project(&self) -> (r: &ProjectInfo)
        ensures
            r@ == self.spec_project(),
    ;
}


/// A target that others can link against. It hands three kinds of
/// settings on to whoever links it, and names the libraries that have to
/// be linked along with it.
pub trait LinkTarget: Target {
    /// The target's own public settings of one kind.
    spec fn spec_public(&self, what: Property) -> Seq<Seq<char>>;

    /// The links whose public settings the target hands on.
    spec fn spec_public_links(&self) -> Seq<LinkPtr>;

    /// The links that the target keeps to itself.
    spec fn spec_private_links(&self) -> Seq<LinkPtr>;

    /// The target's own public header directories.
    fn public_includes(&self) -> (r: Vec<String>)
        ensures
            texts(r@) == self.spec_public(Property::Includes),
    ;

    /// The header directories that the target hands on: those of its
    /// public links, then its own, each once.
    fn public_includes_recursive(&self, graph: &TargetGraph) -> (r: Vec<String>)
        ensures
            texts(r@) == collected(
                graph@,
                self.spec_public_links(),
                self.spec_public(Property::Includes),
                Property::Includes,
            ),
            texts(r@).no_duplicates(),
    ;

    /// The target's own public definitions.
    fn public_defines(&self) -> (r: Vec<String>)
        ensures
            texts(r@) == self.spec_public(Property::Defines),
    ;

    /// The definitions that the target hands on: those of its public
    /// links, then its own, each once.
    fn public_defines_recursive(&self, graph: &TargetGraph) -> (r: Vec<String>)
        ensures
            texts(r@) == collected(
                graph@,
                self.spec_public_links(),
                self.spec_public(Property::Defines),
                Property::Defines,
            ),
            texts(r@).no_duplicates(),
    ;

    /// The target's own public linker flags.
    fn public_link_flags(&self) -> (r: Vec<String>)
        ensures
            texts(r@) == self.spec_public(Property::LinkFlags),
    ;

    /// The linker flags that the target hands on: those of its public
    /// links, then its own, each once.
    fn public_link_flags_recursive(&self, graph: &TargetGraph) -> (r: Vec<String>)
        ensures
            texts(r@) == collected(
                graph@,
                self.spec_public_links(),
                self.spec_public(Property::LinkFlags),
                Property::LinkFlags,
            ),
            texts(r@).no_duplicates(),
    ;

    /// The links whose public settings the target hands on.
    fn public_links(&self) -> (r: Vec<LinkPtr>)
        ensures
            r@ == self.spec_public_links(),
    ;

    /// Everything that has to be linked along with the target: its private
    /// links, its public links, then what each of them needs, each once.
    fn public_links_recursive(&self, graph: &TargetGraph) -> (r: Vec<LinkPtr>)
        ensures
            r@ == link_closure(
                graph@,
                self.spec_private_links() + self.spec_public_links(),
                graph@.len() as int,
            ),
            r@.no_duplicates(),
    ;
}

} // verus!
