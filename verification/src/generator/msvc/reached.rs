//! How far a run gets that fails. The project files that were noted
//! before the failure stay in the state; these functions say which.

use vstd::prelude::*;
use super::solution::{
    exe_target, guid_at, lib_added, lib_target, made, references, MsvcStateView, References,
};
use super::vcxproj::{vcxproj_head, TargetDataView, VcxprojOptsView};
use super::walk::{exe_added, exes_added, libs_added, subprojects_added};
use crate::executable::Executable;
use crate::graph::LinkNode;
use crate::link_type::LinkPtr;
use crate::misc::SourcesView;
use crate::project::{Project, ProjectInfoView};
use crate::target::Target;

verus! {

/// How far making the project of a target gets. A target that mixes C
/// and C++, or whose settings cannot be written, leaves everything as it
/// was; where a reference fails, the projects that were made for the
/// references before it stay, and no file is noted for the target itself.
pub open spec fn made_reached(
    nodes: Seq<LinkNode>,
    opts: VcxprojOptsView,
    guids: Seq<Seq<char>>,
    configuration_type: Seq<char>,
    project: ProjectInfoView,
    target: TargetDataView,
    sources: SourcesView,
    links: Seq<LinkPtr>,
    bound: int,
    guid: Seq<char>,
    st: MsvcStateView,
) -> MsvcStateView
    decreases bound, 0int, links.len() + 2,
{
    match made(
        nodes,
        opts,
        guids,
        configuration_type,
        project,
        target,
        sources,
        links,
        bound,
        guid,
        st,
    ) {
        Ok((_, s)) => s,
        Err(_) => if sources.c.len() != 0 && sources.cpp.len() != 0 {
            st
        } else if vcxproj_head(opts, configuration_type, project.path, target, sources, guid)
            is Err {
            st
        } else if links.len() != 0 {
            references_reached(nodes, opts, guids, links, bound, st)
        } else {
            st
        },
    }
}

/// How far making the references to the projects of `links` gets.
pub open spec fn references_reached(
    nodes: Seq<LinkNode>,
    opts: VcxprojOptsView,
    guids: Seq<Seq<char>>,
    links: Seq<LinkPtr>,
    bound: int,
    st: MsvcStateView,
) -> MsvcStateView
    decreases bound, 0int, links.len() + 1,
{
    if links.len() == 0 {
        st
    } else {
        match references(nodes, opts, guids, links.drop_last(), bound, st) {
            Err(_) => references_reached(nodes, opts, guids, links.drop_last(), bound, st),
            Ok(head) => next_reference_reached(nodes, opts, guids, links.last(), bound, head),
        }
    }
}

/// How far making one more reference gets.
pub open spec fn next_reference_reached(
    nodes: Seq<LinkNode>,
    opts: VcxprojOptsView,
    guids: Seq<Seq<char>>,
    link: LinkPtr,
    bound: int,
    head: References,
) -> MsvcStateView
    decreases bound, 0int, 0int,
{
    let at = link.spec_index();
    if !(0 <= at < bound && at < nodes.len()) {
        head.st
    } else {
        match nodes[at] {
            LinkNode::Interface(x) => references_reached(
                nodes,
                opts,
                guids,
                x.links@,
                at,
                head.st,
            ),
            _ => if head.st.map.get(link.spec_key()) is Some {
                head.st
            } else {
                lib_reached(nodes, opts, guids, at, head.st)
            },
        }
    }
}

/// How far making the project of the library at `at` gets: without a
/// GUID for it nothing happens.
pub open spec fn lib_reached(
    nodes: Seq<LinkNode>,
    opts: VcxprojOptsView,
    guids: Seq<Seq<char>>,
    at: int,
    st: MsvcStateView,
) -> MsvcStateView
    decreases at, 1int, 0int,
{
    match lib_added(nodes, opts, guids, at, st) {
        Ok(s) => s,
        Err(_) => match guid_at(guids, at) {
            Err(_) => st,
            Ok(guid) => made_reached(
                nodes,
                opts,
                guids,
                "StaticLibrary"@,
                nodes[at].spec_project(),
                lib_target(nodes, at),
                nodes[at].spec_sources(),
                nodes[at].direct_links(),
                at,
                guid,
                st,
            ),
        },
    }
}

/// How far making the project of a program gets.
pub open spec fn exe_reached(
    nodes: Seq<LinkNode>,
    opts: VcxprojOptsView,
    guids: Seq<Seq<char>>,
    exe: &Executable,
    st: MsvcStateView,
) -> MsvcStateView {
    match exe_added(nodes, opts, guids, exe, st) {
        Ok(s) => s,
        Err(_) => match guid_at(guids, nodes.len() + st.exes_seen) {
            Err(_) => st,
            Ok(guid) => made_reached(
                nodes,
                opts,
                guids,
                "Application"@,
                exe.project@,
                exe_target(nodes, exe),
                exe.sources@,
                exe.links@,
                nodes.len() as int,
                guid,
                st,
            ),
        },
    }
}

/// How far giving the libraries `ptrs` their projects gets.
pub open spec fn libs_reached(
    nodes: Seq<LinkNode>,
    opts: VcxprojOptsView,
    guids: Seq<Seq<char>>,
    ptrs: Seq<LinkPtr>,
    st: MsvcStateView,
) -> MsvcStateView
    decreases ptrs.len(),
{
    if ptrs.len() == 0 {
        st
    } else {
        match libs_added(nodes, opts, guids, ptrs.drop_last(), st) {
            Err(_) => libs_reached(nodes, opts, guids, ptrs.drop_last(), st),
            Ok(s) => if s.map.index.contains_key(ptrs.last().spec_key()) {
                s
            } else {
                lib_reached(nodes, opts, guids, ptrs.last().spec_index(), s)
            },
        }
    }
}

/// How far making the projects of the programs `exes` gets.
pub open spec fn exes_reached(
    nodes: Seq<LinkNode>,
    opts: VcxprojOptsView,
    guids: Seq<Seq<char>>,
    exes: Seq<Executable>,
    st: MsvcStateView,
) -> MsvcStateView
    decreases exes.len(),
{
    if exes.len() == 0 {
        st
    } else {
        match exes_added(nodes, opts, guids, exes.drop_last(), st) {
            Err(_) => exes_reached(nodes, opts, guids, exes.drop_last(), st),
            Ok(s) => exe_reached(nodes, opts, guids, &exes.last(), s),
        }
    }
}

/// How far the walk over the first `n` projects that `project` depends
/// on gets.
pub open spec fn subprojects_reached(
    nodes: Seq<LinkNode>,
    opts: VcxprojOptsView,
    guids: Seq<Seq<char>>,
    project: Project,
    n: int,
    st: MsvcStateView,
) -> MsvcStateView
    decreases project, n,
{
    if n <= 0 || n > project.dependencies@.len() {
        st
    } else {
        match subprojects_added(nodes, opts, guids, project, n - 1, st) {
            Err(_) => subprojects_reached(nodes, opts, guids, project, n - 1, st),
            Ok(s) => project_reached(nodes, opts, guids, project.dependencies@[n - 1], s),
        }
    }
}

/// How far the walk over a project gets: to its end where nothing fails,
/// else as far as the part that fails got.
pub open spec fn project_reached(
    nodes: Seq<LinkNode>,
    opts: VcxprojOptsView,
    guids: Seq<Seq<char>>,
    project: Project,
    st: MsvcStateView,
) -> MsvcStateView
    decreases project,
{
    let deps = project.dependencies@.len() as int;
    match subprojects_added(nodes, opts, guids, project, deps, st) {
        Err(_) => subprojects_reached(nodes, opts, guids, project, deps, st),
        Ok(s0) => match libs_added(nodes, opts, guids, project.static_libraries@, s0) {
            Err(_) => libs_reached(nodes, opts, guids, project.static_libraries@, s0),
            Ok(s1) => match libs_added(nodes, opts, guids, project.object_libraries@, s1) {
                Err(_) => libs_reached(nodes, opts, guids, project.object_libraries@, s1),
                Ok(s2) => exes_reached(nodes, opts, guids, project.executables@, s2),
            },
        },
    }
}

/// Where one of the first `n` references fails, the references get as far
/// as they get among those.
pub proof fn lemma_references_stop(
    nodes: Seq<LinkNode>,
    opts: VcxprojOptsView,
    guids: Seq<Seq<char>>,
    links: Seq<LinkPtr>,
    bound: int,
    st: MsvcStateView,
    n: int,
)
    requires
        0 <= n <= links.len(),
        references(nodes, opts, guids, links.take(n), bound, st) is Err,
    ensures
        references_reached(nodes, opts, guids, links, bound, st) == references_reached(
            nodes,
            opts,
            guids,
            links.take(n),
            bound,
            st,
        ),
    decreases links.len() - n,
{
    if n < links.len() {
        assert(links.take(n + 1).drop_last() =~= links.take(n));
        lemma_references_stop(nodes, opts, guids, links, bound, st, n + 1);
    } else {
        assert(links.take(n) =~= links);
    }
}

/// The same of libraries.
pub proof fn lemma_libs_stop(
    nodes: Seq<LinkNode>,
    opts: VcxprojOptsView,
    guids: Seq<Seq<char>>,
    ptrs: Seq<LinkPtr>,
    st: MsvcStateView,
    n: int,
)
    requires
        0 <= n <= ptrs.len(),
        libs_added(nodes, opts, guids, ptrs.take(n), st) is Err,
    ensures
        libs_reached(nodes, opts, guids, ptrs, st) == libs_reached(
            nodes,
            opts,
            guids,
            ptrs.take(n),
            st,
        ),
    decreases ptrs.len() - n,
{
    if n < ptrs.len() {
        assert(ptrs.take(n + 1).drop_last() =~= ptrs.take(n));
        lemma_libs_stop(nodes, opts, guids, ptrs, st, n + 1);
    } else {
        assert(ptrs.take(n) =~= ptrs);
    }
}

/// The same of programs.
pub proof fn lemma_exes_stop(
    nodes: Seq<LinkNode>,
    opts: VcxprojOptsView,
    guids: Seq<Seq<char>>,
    exes: Seq<Executable>,
    st: MsvcStateView,
    n: int,
)
    requires
        0 <= n <= exes.len(),
        exes_added(nodes, opts, guids, exes.take(n), st) is Err,
    ensures
        exes_reached(nodes, opts, guids, exes, st) == exes_reached(
            nodes,
            opts,
            guids,
            exes.take(n),
            st,
        ),
    decreases exes.len() - n,
{
    if n < exes.len() {
        assert(exes.take(n + 1).drop_last() =~= exes.take(n));
        lemma_exes_stop(nodes, opts, guids, exes, st, n + 1);
    } else {
        assert(exes.take(n) =~= exes);
    }
}

/// The same of the projects that a project depends on.
pub proof fn lemma_subprojects_stop(
    nodes: Seq<LinkNode>,
    opts: VcxprojOptsView,
    guids: Seq<Seq<char>>,
    project: Project,
    st: MsvcStateView,
    n: int,
)
    requires
        0 <= n <= project.dependencies@.len(),
        subprojects_added(nodes, opts, guids, project, n, st) is Err,
    ensures
        subprojects_reached(nodes, opts, guids, project, project.dependencies@.len() as int, st)
            == subprojects_reached(nodes, opts, guids, project, n, st),
    decreases project.dependencies@.len() - n,
{
    if n < project.dependencies@.len() {
        lemma_subprojects_stop(nodes, opts, guids, project, st, n + 1);
    }
}

} // verus!
