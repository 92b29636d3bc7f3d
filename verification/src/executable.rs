//! Programs.

use vstd::prelude::*;
use crate::generator_vars::GeneratorVars;
use crate::graph::{collected, names, LinkNode, TargetGraph};
use crate::link_type::{LinkPtr, Property};
use crate::misc::{
    full_path_list, full_paths, path_views, SourcePath, SourcePathView, Sources,
};
use crate::project::{ProjectInfo, ProjectInfoView};
use crate::target::Target;
use crate::text::{append_prefixed, join, join_strings, prefixed_all, texts};
use crate::unique::extend_strings;

verus! {

/// A program: it is compiled and linked, and nothing links against it.
#[derive(Debug)]
pub struct Executable {
    pub project: ProjectInfo,
    pub name: String,
    pub sources: Sources,
    pub links: Vec<LinkPtr>,
    pub include_dirs: Vec<SourcePath>,
    pub defines: Vec<String>,
    pub link_flags: Vec<String>,
    pub generator_vars: Option<GeneratorVars>,
    pub output_name: Option<String>,
}

impl Executable {
    /// The program's own settings of one kind.
    pub open spec fn own(&self, what: Property) -> Seq<Seq<char>> {
        match what {
            Property::Includes => full_paths(path_views(self.include_dirs@)),
            Property::Defines => texts(self.defines@),
            Property::LinkFlags => texts(self.link_flags@),
        }
    }

    /// The name of what is built: the override where there is one.
    pub open spec fn built_name(&self) -> Seq<char> {
        match self.output_name {
            Some(n) => n@,
            None => self.name@,
        }
    }

    /// Records the project that owns the program.
    pub fn set_parent(&mut self, parent: ProjectInfo)
        ensures
            final(self).project == parent,
            final(self).name == old(self).name,
            final(self).sources == old(self).sources,
            final(self).links == old(self).links,
            final(self).include_dirs == old(self).include_dirs,
            final(self).defines == old(self).defines,
            final(self).link_flags == old(self).link_flags,
            final(self).generator_vars == old(self).generator_vars,
            final(self).output_name == old(self).output_name,
    {
        self.project = parent;
    }
}

impl Target for Executable {
    open spec fn spec_name(&self) -> Seq<char> {
        self.name@
    }

    open spec fn spec_output_name(&self) -> Seq<char> {
        self.built_name()
    }

    open spec fn spec_project(&self) -> ProjectInfoView {
        self.project@
    }

    fn name(&self) -> (r: &str) {
        self.name.as_str()
    }

    fn output_name(&self) -> (r: &str) {
        match &self.output_name {
            Some(output_name) => output_name.as_str(),
            None => self.name.as_str(),
        }
    }

    fn project(&self) -> (r: &ProjectInfo) {
        &self.project
    }
}

impl Executable {
    /// The header directories that the program is compiled with: those
    /// that its links hand on, then its own, each once.
    pub fn public_includes_recursive(&self, graph: &TargetGraph) -> (r: Vec<String>)
        ensures
            texts(r@) == collected(
                graph@,
                self.links@,
                self.own(Property::Includes),
                Property::Includes,
            ),
            texts(r@).no_duplicates(),
    {
        let own = full_path_list(&self.include_dirs);
        graph.collect(&self.links, &own, Property::Includes)
    }

    /// The definitions that the program is compiled with: those that its
    /// links hand on, then its own, each once.
    pub fn public_defines_recursive(&self, graph: &TargetGraph) -> (r: Vec<String>)
        ensures
            texts(r@) == collected(
                graph@,
                self.links@,
                self.own(Property::Defines),
                Property::Defines,
            ),
            texts(r@).no_duplicates(),
    {
        graph.collect(&self.links, &self.defines, Property::Defines)
    }

    /// The flags that the program is linked with: those that its links
    /// hand on, then its own, each once.
    pub fn link_flags_recursive(&self, graph: &TargetGraph) -> (r: Vec<String>)
        ensures
            texts(r@) == collected(
                graph@,
                self.links@,
                self.own(Property::LinkFlags),
                Property::LinkFlags,
            ),
            texts(r@).no_duplicates(),
    {
        graph.collect(&self.links, &self.link_flags, Property::LinkFlags)
    }
}

/// The name each file of a list was declared under.
pub open spec fn declared_names(v: Seq<SourcePathView>) -> Seq<Seq<char>> {
    Seq::new(v.len(), |i: int| v[i].name)
}

/// The name each file of `items` was declared under.
pub fn name_list(items: &Vec<SourcePath>) -> (r: Vec<String>)
    ensures
        texts(r@) == declared_names(path_views(items@)),
{
    let mut out: Vec<String> = Vec::new();
    let mut i: usize = 0;
    while i < items.len()
        invariant
            i <= items@.len(),
            texts(out@) == declared_names(path_views(items@)).take(i as int),
        decreases items@.len() - i,
    {
        let ghost before = out@;
        out.push(items[i].name.clone());
        i += 1;
        proof {
            let all = declared_names(path_views(items@));
            assert(texts(out@) =~= texts(before).push(all[i - 1]));
            assert(all.take(i as int) =~= all.take(i - 1).push(all[i - 1]));
        }
    }
    assert(declared_names(path_views(items@)).take(items@.len() as int) =~= declared_names(
        path_views(items@),
    ));
    out
}

/// The names of the libraries that `links` name, in turn. A link that
/// names no library of `nodes` has no name.
pub open spec fn link_names(nodes: Seq<LinkNode>, links: Seq<LinkPtr>) -> Seq<Seq<char>>
    decreases links.len(),
{
    if links.len() == 0 {
        Seq::empty()
    } else {
        let head = link_names(nodes, links.drop_last());
        if names(nodes, links.last()) {
            head.push(nodes[links.last().spec_index()].spec_name())
        } else {
            head
        }
    }
}

impl Executable {
    /// The program as it is shown: its name, the names of its sources,
    /// links and header directories, its definitions and linker flags,
    /// and the name of what is built.
    pub open spec fn spec_describe(&self, nodes: Seq<LinkNode>) -> Seq<char> {
        "Executable{\n   name: "@ + self.name@ + ",\n   sources: ["@ + prefixed_all(
            declared_names(self.sources@.c) + declared_names(self.sources@.cpp) + declared_names(
                self.sources@.nasm,
            ),
            ", "@,
        ) + "],\n   links: ["@ + join(link_names(nodes, self.links@), ", "@)
            + "],\n   include_dirs: ["@ + prefixed_all(
            declared_names(path_views(self.include_dirs@)),
            ", "@,
        ) + "],\n   defines: ["@ + join(texts(self.defines@), ", "@) + "],\n   link_flags: ["@
            + join(texts(self.link_flags@), ", "@) + "],\n   output_name: "@ + (
        match self.output_name {
            Some(n) => n@,
            None => "None"@,
        }) + ",\n}"@
    }

    /// The program as it is shown.
    pub fn describe(&self, graph: &TargetGraph) -> (r: String)
        ensures
            r@ == self.spec_describe(graph@),
    {
        let mut sources = name_list(&self.sources.c);
        extend_strings(&mut sources, &name_list(&self.sources.cpp));
        extend_strings(&mut sources, &name_list(&self.sources.nasm));
        let mut links: Vec<String> = Vec::new();
        let mut i: usize = 0;
        assert(self.links@.take(0) =~= Seq::empty());
        while i < self.links.len()
            invariant
                i <= self.links@.len(),
                texts(links@) == link_names(graph@, self.links@.take(i as int)),
            decreases self.links@.len() - i,
        {
            let ghost before = links@;
            assert(self.links@.take(i + 1).drop_last() =~= self.links@.take(i as int));
            assert(self.links@.take(i + 1).last() == self.links@[i as int]);
            match graph.get(self.links[i]) {
                Some(node) => {
                    links.push(node.name().to_owned());
                    assert(texts(links@) =~= texts(before).push(
                        graph@[self.links@[i as int].spec_index()].spec_name(),
                    ));
                },
                None => {},
            }
            i += 1;
        }
        assert(self.links@.take(self.links@.len() as int) =~= self.links@);
        let mut out: String = "Executable{\n   name: ".to_owned();
        out.append(self.name.as_str());
        out.append(",\n   sources: [");
        append_prefixed(&mut out, &sources, ", ");
        out.append("],\n   links: [");
        out.append(join_strings(&links, ", ").as_str());
        out.append("],\n   include_dirs: [");
        append_prefixed(&mut out, &name_list(&self.include_dirs), ", ");
        out.append("],\n   defines: [");
        out.append(join_strings(&self.defines, ", ").as_str());
        out.append("],\n   link_flags: [");
        out.append(join_strings(&self.link_flags, ", ").as_str());
        out.append("],\n   output_name: ");
        match &self.output_name {
            Some(n) => out.append(n.as_str()),
            None => out.append("None"),
        }
        out.append(",\n}");
        out
    }
}

} // verus!
