//! Libraries that only hand things on.

use vstd::prelude::*;
use crate::graph::TargetGraph;
use crate::link_type::{clone_links, LinkPtr, Property};
use crate::misc::{full_path_list, full_paths, path_views, SourcePath};
use crate::project::{ProjectInfo, ProjectInfoView};
use crate::target::{LinkTarget, Target};
use crate::text::texts;
use crate::unique::clone_strings;

verus! {

/// A library without sources: it gathers links, header directories,
/// definitions and linker flags and hands them on to what links it.
#[derive(Debug)]
pub struct InterfaceLibrary {
    pub project: ProjectInfo,
    pub name: String,
    pub links: Vec<LinkPtr>,
    pub include_dirs: Vec<SourcePath>,
    pub defines: Vec<String>,
    pub link_flags: Vec<String>,
}

impl InterfaceLibrary {
    /// The library's own settings of one kind.
    pub open spec fn own_public(&self, what: Property) -> Seq<Seq<char>> {
        match what {
            Property::Includes => full_paths(path_views(self.include_dirs@)),
            Property::Defines => texts(self.defines@),
            Property::LinkFlags => texts(self.link_flags@),
        }
    }

    /// Records the project that owns the library.
    pub fn set_parent(&mut self, parent: ProjectInfo)
        ensures
            final(self).project == parent,
            final(self).name == old(self).name,
            final(self).links == old(self).links,
            final(self).include_dirs == old(self).include_dirs,
            final(self).defines == old(self).defines,
            final(self).link_flags == old(self).link_flags,
    {
        self.project = parent;
    }
}

impl Target for InterfaceLibrary {
    open spec fn spec_name(&self) -> Seq<char> {
        self.name@
    }

    open spec fn spec_output_name(&self) -> Seq<char> {
        self.name@
    }

    open spec fn spec_project(&self) -> ProjectInfoView {
        self.project@
    }

    fn name(&self) -> (r: &str) {
        self.name.as_str()
    }

    fn output_name(&self) -> (r: &str) {
        self.name.as_str()
    }

    fn project(&self) -> (r: &ProjectInfo) {
        &self.project
    }
}


impl LinkTarget for InterfaceLibrary {
    open spec fn spec_public(&self, what: Property) -> Seq<Seq<char>> {
        self.own_public(what)
    }

    open spec fn spec_public_links(&self) -> Seq<LinkPtr> {
        self.links@
    }

    open spec fn spec_private_links(&self) -> Seq<LinkPtr> {
        Seq::empty()
    }

    fn public_includes(&self) -> (r: Vec<String>) {
        full_path_list(&self.include_dirs)
    }

    fn public_includes_recursive(&self, graph: &TargetGraph) -> (r: Vec<String>) {
        let own = self.public_includes();
        graph.collect(&self.links, &own, Property::Includes)
    }

    fn public_defines(&self) -> (r: Vec<String>) {
        clone_strings(&self.defines)
    }

    fn public_defines_recursive(&self, graph: &TargetGraph) -> (r: Vec<String>) {
        let own = self.public_defines();
        graph.collect(&self.links, &own, Property::Defines)
    }

    fn public_link_flags(&self) -> (r: Vec<String>) {
        clone_strings(&self.link_flags)
    }

    fn public_link_flags_recursive(&self, graph: &TargetGraph) -> (r: Vec<String>) {
        let own = self.public_link_flags();
        graph.collect(&self.links, &own, Property::LinkFlags)
    }

    fn public_links(&self) -> (r: Vec<LinkPtr>) {
        clone_links(&self.links)
    }

    fn public_links_recursive(&self, graph: &TargetGraph) -> (r: Vec<LinkPtr>) {
        assert(Seq::<LinkPtr>::empty() + self.links@ =~= self.links@);
        graph.closure(&self.links, graph.len())
    }
}

} // verus!
