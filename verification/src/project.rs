//! Projects: named groups of targets, each with the projects it depends on.

use vstd::prelude::*;
use crate::executable::Executable;
use crate::graph::{all_named, names, LinkNode, TargetGraph};
use crate::link_type::{LinkKind, LinkPtr};

verus! {

/// What a target has to know of the project that owns it.
#[derive(Clone, Debug)]
pub struct ProjectInfo {
    pub name: String,
    pub path: String,
}

/// The mathematical value of [`ProjectInfo`].
pub struct ProjectInfoView {
    pub name: Seq<char>,
    pub path: Seq<char>,
}

impl View for ProjectInfo {
    type V = ProjectInfoView;

    open spec fn view(&self) -> ProjectInfoView {
        ProjectInfoView { name: self.name@, path: self.path@ }
    }
}

impl ProjectInfo {
    /// A copy with the same value.
    pub fn duplicate(&self) -> (r: Self)
        ensures
            r@ == self@,
    {
        ProjectInfo { name: self.name.clone(), path: self.path.clone() }
    }
}

/// A project: its own targets and, fully declared before it, the projects
/// it depends on. Libraries are named by their place in the target graph,
/// so a library that several projects mention is one library.
#[derive(Debug)]
pub struct Project {
    pub info: ProjectInfo,
    pub dependencies: Vec<Project>,
    pub executables: Vec<Executable>,
    pub static_libraries: Vec<LinkPtr>,
    pub object_libraries: Vec<LinkPtr>,
    pub interface_libraries: Vec<LinkPtr>,
}

/// Whether a project and the projects it depends on speak of libraries of
/// `nodes` only, each of the kind under which it is listed.
pub open spec fn project_fits(nodes: Seq<LinkNode>, project: Project) -> bool
    decreases project,
{
    &&& forall|i: int|
        0 <= i < project.static_libraries@.len() ==> names(
            nodes,
            #[trigger] project.static_libraries@[i],
        ) && project.static_libraries@[i] is Static
    &&& forall|i: int|
        0 <= i < project.object_libraries@.len() ==> names(
            nodes,
            #[trigger] project.object_libraries@[i],
        ) && project.object_libraries@[i] is Object
    &&& forall|i: int|
        0 <= i < project.interface_libraries@.len() ==> names(
            nodes,
            #[trigger] project.interface_libraries@[i],
        ) && project.interface_libraries@[i] is Interface
    &&& forall|i: int|
        0 <= i < project.executables@.len() ==> all_named(
            nodes,
            (#[trigger] project.executables@[i]).links@,
        )
    &&& forall|i: int|
        0 <= i < project.dependencies@.len() ==> project_fits(
            nodes,
            #[trigger] project.dependencies@[i],
        )
}

/// Whether every link of `ptrs` names a library of the graph, of the kind
/// `kind`.
fn all_of_kind(graph: &TargetGraph, ptrs: &Vec<LinkPtr>, kind: LinkKind) -> (r: bool)
    ensures
        r == forall|i: int|
            0 <= i < ptrs@.len() ==> names(graph@, #[trigger] ptrs@[i]) && kind.spec_holds(
                ptrs@[i],
            ),
{
    let mut i: usize = 0;
    while i < ptrs.len()
        invariant
            i <= ptrs@.len(),
            forall|k: int|
                0 <= k < i ==> names(graph@, #[trigger] ptrs@[k]) && kind.spec_holds(ptrs@[k]),
        decreases ptrs@.len() - i,
    {
        let ptr = ptrs[i];
        if !graph.contains(ptr) || !kind.holds(ptr) {
            return false;
        }
        i += 1;
    }
    true
}

impl Project {
    /// Whether the project and the projects it depends on speak of
    /// libraries of `graph` only, each of the kind under which it is
    /// listed. The generators ask for this.
    pub fn fits(&self, graph: &TargetGraph) -> (r: bool)
        ensures
            r == project_fits(graph@, *self),
        decreases self,
    {
        if !all_of_kind(graph, &self.static_libraries, LinkKind::Static) {
            return false;
        }
        if !all_of_kind(graph, &self.object_libraries, LinkKind::Object) {
            return false;
        }
        if !all_of_kind(graph, &self.interface_libraries, LinkKind::Interface) {
            return false;
        }
        let mut i: usize = 0;
        while i < self.executables.len()
            invariant
                i <= self.executables@.len(),
                forall|k: int|
                    0 <= k < i ==> all_named(graph@, (#[trigger] self.executables@[k]).links@),
            decreases self.executables@.len() - i,
        {
            if !graph.contains_all(&self.executables[i].links) {
                proof {
                    let links = self.executables@[i as int].links@;
                    if all_named(graph@, links) {
                        assert forall|k: int| 0 <= k < links.len() implies names(
                            graph@,
                            #[trigger] links[k],
                        ) && links[k].spec_index() < graph@.len() by {}
                    }
                }
                return false;
            }
            i += 1;
        }
        let mut d: usize = 0;
        while d < self.dependencies.len()
            invariant
                d <= self.dependencies@.len(),
                forall|k: int|
                    0 <= k < d ==> project_fits(graph@, #[trigger] self.dependencies@[k]),
            decreases self.dependencies@.len() - d,
        {
            if !self.dependencies[d].fits(graph) {
                return false;
            }
            d += 1;
        }
        true
    }
}

} // verus!
