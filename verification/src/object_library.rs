//! Libraries that are compiled and never archived.

use vstd::prelude::*;
use crate::generator_vars::GeneratorVars;
use crate::graph::TargetGraph;
use crate::link_type::{clone_links, LinkPtr, Property};
use crate::misc::{full_path_list, full_paths, path_views, SourcePath, Sources};
use crate::project::{ProjectInfo, ProjectInfoView};
use crate::target::{LinkTarget, Target};
use crate::text::texts;
use crate::unique::clone_strings;

verus! {

/// A library whose sources are compiled to object files that whoever links
/// it takes up directly.
#[derive(Debug)]
pub struct ObjectLibrary {
    pub project: ProjectInfo,
    pub name: String,
    pub sources: Sources,
    pub link_private: Vec<LinkPtr>,
    pub link_public: Vec<LinkPtr>,
    pub include_dirs_public: Vec<SourcePath>,
    pub include_dirs_private: Vec<SourcePath>,
    pub defines_private: Vec<String>,
    pub defines_public: Vec<String>,
    pub link_flags_public: Vec<String>,
    pub generator_vars: Option<GeneratorVars>,
    pub output_name: Option<String>,
}

impl ObjectLibrary {
    /// The library's own public settings of one kind.
    pub open spec fn own_public(&self, what: Property) -> Seq<Seq<char>> {
        match what {
            Property::Includes => full_paths(path_views(self.include_dirs_public@)),
            Property::Defines => texts(self.defines_public@),
            Property::LinkFlags => texts(self.link_flags_public@),
        }
    }

    /// The name of what is built: the override where there is one.
    pub open spec fn built_name(&self) -> Seq<char> {
        match self.output_name {
            Some(n) => n@,
            None => self.name@,
        }
    }

    /// The header directories that only the library itself sees.
    pub open spec fn spec_private_includes(&self) -> Seq<Seq<char>> {
        full_paths(path_views(self.include_dirs_private@))
    }

    /// The definitions that only the library itself sees.
    pub open spec fn spec_private_defines(&self) -> Seq<Seq<char>> {
        texts(self.defines_private@)
    }

    /// The header directories that only the library itself sees.
    pub fn private_includes(&self) -> (r: Vec<String>)
        ensures
            texts(r@) == self.spec_private_includes(),
    {
        full_path_list(&self.include_dirs_private)
    }

    /// The definitions that only the library itself sees.
    pub fn private_defines(&self) -> (r: Vec<String>)
        ensures
            texts(r@) == self.spec_private_defines(),
    {
        clone_strings(&self.defines_private)
    }

    /// Records the project that owns the library.
    pub fn set_parent(&mut self, parent: ProjectInfo)
        ensures
            final(self).project == parent,
            final(self).name == old(self).name,
            final(self).sources == old(self).sources,
            final(self).link_private == old(self).link_private,
            final(self).link_public == old(self).link_public,
            final(self).include_dirs_public == old(self).include_dirs_public,
            final(self).include_dirs_private == old(self).include_dirs_private,
            final(self).defines_private == old(self).defines_private,
            final(self).defines_public == old(self).defines_public,
            final(self).link_flags_public == old(self).link_flags_public,
            final(self).generator_vars == old(self).generator_vars,
            final(self).output_name == old(self).output_name,
    {
        self.project = parent;
    }
}

impl Target for ObjectLibrary {
    open spec fn spec_name(&self) -> Seq<char> {
        self.name@
    }

    open spec fn spec_output_name(&self) -> Seq<char> {
        self.built_name()
    }

    open spec fn spec_project(&self) -> ProjectInfoView {
        self.project@
    }

    fn name(&self) -> (r: &str) {
        self.name.as_str()
    }

    fn output_name(&self) -> (r: &str) {
        match &self.output_name {
            Some(output_name) => output_name.as_str(),
            None => self.name.as_str(),
        }
    }

    fn project(&self) -> (r: &ProjectInfo) {
        &self.project
    }
}


impl LinkTarget for ObjectLibrary {
    open spec fn spec_public(&self, what: Property) -> Seq<Seq<char>> {
        self.own_public(what)
    }

    open spec fn spec_public_links(&self) -> Seq<LinkPtr> {
        self.link_public@
    }

    open spec fn spec_private_links(&self) -> Seq<LinkPtr> {
        self.link_private@
    }

    fn public_includes(&self) -> (r: Vec<String>) {
        full_path_list(&self.include_dirs_public)
    }

    fn public_includes_recursive(&self, graph: &TargetGraph) -> (r: Vec<String>) {
        let own = self.public_includes();
        graph.collect(&self.link_public, &own, Property::Includes)
    }

    fn public_defines(&self) -> (r: Vec<String>) {
        clone_strings(&self.defines_public)
    }

    fn public_defines_recursive(&self, graph: &TargetGraph) -> (r: Vec<String>) {
        let own = self.public_defines();
        graph.collect(&self.link_public, &own, Property::Defines)
    }

    fn public_link_flags(&self) -> (r: Vec<String>) {
        clone_strings(&self.link_flags_public)
    }

    fn public_link_flags_recursive(&self, graph: &TargetGraph) -> (r: Vec<String>) {
        let own = self.public_link_flags();
        graph.collect(&self.link_public, &own, Property::LinkFlags)
    }

    fn public_links(&self) -> (r: Vec<LinkPtr>) {
        clone_links(&self.link_public)
    }

    fn public_links_recursive(&self, graph: &TargetGraph) -> (r: Vec<LinkPtr>) {
        let mut links = clone_links(&self.link_private);
        let mut rest = clone_links(&self.link_public);
        links.append(&mut rest);
        graph.closure(&links, graph.len())
    }
}

} // verus!
