//! The walk over the projects and the solution file.

use vstd::prelude::*;
use super::solution::{
    add_object_lib, add_static_lib, exe_target, guid_at, lib_added, made, make_vcxproj,
    strip_all, take_guid, MsvcState, MsvcStateView,
};
use super::reached::{
    exe_reached, exes_reached, lemma_exes_stop, lemma_libs_stop, lemma_subprojects_stop,
    libs_reached, project_reached,
};
use super::vcxproj::{TargetData, VcxprojOpts, VcxprojOptsView};
use crate::executable::Executable;
use crate::graph::{names, LinkNode, TargetGraph};
use crate::link_type::LinkPtr;
use crate::project::{project_fits, Project};
use crate::text::texts;

verus! {

/// The libraries `ptrs` in turn: each gets its project unless it has one.
pub open spec fn libs_added(
    nodes: Seq<LinkNode>,
    opts: VcxprojOptsView,
    guids: Seq<Seq<char>>,
    ptrs: Seq<LinkPtr>,
    st: MsvcStateView,
) -> Result<MsvcStateView, Seq<char>>
    decreases ptrs.len(),
{
    if ptrs.len() == 0 {
        Ok(st)
    } else {
        match libs_added(nodes, opts, guids, ptrs.drop_last(), st) {
            Err(e) => Err(e),
            Ok(s) => if s.map.index.contains_key(ptrs.last().spec_key()) {
                Ok(s)
            } else {
                lib_added(nodes, opts, guids, ptrs.last().spec_index(), s)
            },
        }
    }
}

/// The project of a program. Its GUID is the one that follows those of
/// the libraries and of the programs that were dealt with before.
pub open spec fn exe_added(
    nodes: Seq<LinkNode>,
    opts: VcxprojOptsView,
    guids: Seq<Seq<char>>,
    exe: &Executable,
    st: MsvcStateView,
) -> Result<MsvcStateView, Seq<char>> {
    match guid_at(guids, nodes.len() + st.exes_seen) {
        Err(e) => Err(e),
        Ok(guid) => match made(
            nodes,
            opts,
            guids,
            "Application"@,
            exe.project@,
            exe_target(nodes, exe),
            exe.sources@,
            exe.links@,
            nodes.len() as int,
            guid,
            st,
        ) {
            Err(e) => Err(e),
            Ok((vsproj, s)) => Ok(
                MsvcStateView { map: s.map.insert_exe(vsproj), exes_seen: st.exes_seen + 1, ..s },
            ),
        },
    }
}

/// The programs `exes` in turn.
pub open spec fn exes_added(
    nodes: Seq<LinkNode>,
    opts: VcxprojOptsView,
    guids: Seq<Seq<char>>,
    exes: Seq<Executable>,
    st: MsvcStateView,
) -> Result<MsvcStateView, Seq<char>>
    decreases exes.len(),
{
    if exes.len() == 0 {
        Ok(st)
    } else {
        match exes_added(nodes, opts, guids, exes.drop_last(), st) {
            Err(e) => Err(e),
            Ok(s) => exe_added(nodes, opts, guids, &exes.last(), s),
        }
    }
}

/// The first `n` projects that `project` depends on, in turn.
pub open spec fn subprojects_added(
    nodes: Seq<LinkNode>,
    opts: VcxprojOptsView,
    guids: Seq<Seq<char>>,
    project: Project,
    n: int,
    st: MsvcStateView,
) -> Result<MsvcStateView, Seq<char>>
    decreases project, n,
{
    if n <= 0 || n > project.dependencies@.len() {
        Ok(st)
    } else {
        match subprojects_added(nodes, opts, guids, project, n - 1, st) {
            Err(e) => Err(e),
            Ok(s) => project_added(nodes, opts, guids, project.dependencies@[n - 1], s),
        }
    }
}

/// A project: first the projects it depends on, then its static
/// libraries, its object libraries and its programs.
pub open spec fn project_added(
    nodes: Seq<LinkNode>,
    opts: VcxprojOptsView,
    guids: Seq<Seq<char>>,
    project: Project,
    st: MsvcStateView,
) -> Result<MsvcStateView, Seq<char>>
    decreases project,
{
    match subprojects_added(
        nodes,
        opts,
        guids,
        project,
        project.dependencies@.len() as int,
        st,
    ) {
        Err(e) => Err(e),
        Ok(s0) => match libs_added(nodes, opts, guids, project.static_libraries@, s0) {
            Err(e) => Err(e),
            Ok(s1) => match libs_added(nodes, opts, guids, project.object_libraries@, s1) {
                Err(e) => Err(e),
                Ok(s2) => exes_added(nodes, opts, guids, project.executables@, s2),
            },
        },
    }
}

/// A failure among the first `n` libraries is the failure of all.
pub proof fn lemma_libs_added_prefix(
    nodes: Seq<LinkNode>,
    opts: VcxprojOptsView,
    guids: Seq<Seq<char>>,
    ptrs: Seq<LinkPtr>,
    st: MsvcStateView,
    n: int,
)
    requires
        0 <= n <= ptrs.len(),
        libs_added(nodes, opts, guids, ptrs.take(n), st) is Err,
    ensures
        libs_added(nodes, opts, guids, ptrs, st) == libs_added(
            nodes,
            opts,
            guids,
            ptrs.take(n),
            st,
        ),
    decreases ptrs.len() - n,
{
    if n < ptrs.len() {
        assert(ptrs.take(n + 1).drop_last() =~= ptrs.take(n));
        lemma_libs_added_prefix(nodes, opts, guids, ptrs, st, n + 1);
    } else {
        assert(ptrs.take(n) =~= ptrs);
    }
}

/// A failure among the first `n` programs is the failure of all.
pub proof fn lemma_exes_added_prefix(
    nodes: Seq<LinkNode>,
    opts: VcxprojOptsView,
    guids: Seq<Seq<char>>,
    exes: Seq<Executable>,
    st: MsvcStateView,
    n: int,
)
    requires
        0 <= n <= exes.len(),
        exes_added(nodes, opts, guids, exes.take(n), st) is Err,
    ensures
        exes_added(nodes, opts, guids, exes, st) == exes_added(
            nodes,
            opts,
            guids,
            exes.take(n),
            st,
        ),
    decreases exes.len() - n,
{
    if n < exes.len() {
        assert(exes.take(n + 1).drop_last() =~= exes.take(n));
        lemma_exes_added_prefix(nodes, opts, guids, exes, st, n + 1);
    } else {
        assert(exes.take(n) =~= exes);
    }
}

/// A failure among the first `n` dependencies is the failure of all.
pub proof fn lemma_subprojects_added_prefix(
    nodes: Seq<LinkNode>,
    opts: VcxprojOptsView,
    guids: Seq<Seq<char>>,
    project: Project,
    st: MsvcStateView,
    n: int,
)
    requires
        0 <= n <= project.dependencies@.len(),
        subprojects_added(nodes, opts, guids, project, n, st) is Err,
    ensures
        subprojects_added(nodes, opts, guids, project, project.dependencies@.len() as int, st)
            == subprojects_added(nodes, opts, guids, project, n, st),
    decreases project.dependencies@.len() - n,
{
    if n < project.dependencies@.len() {
        lemma_subprojects_added_prefix(nodes, opts, guids, project, st, n + 1);
    }
}

/// The Visual Studio generator.
pub struct Msvc {}

impl Msvc {
    /// Gives every library of `ptrs` its project unless it has one.
    pub fn add_libs(
        ptrs: &Vec<LinkPtr>,
        graph: &TargetGraph,
        proj_opts: &VcxprojOpts,
        guids: &Vec<String>,
        state: &mut MsvcState,
    ) -> (r: Result<(), String>)
        requires
            forall|i: int|
                0 <= i < ptrs@.len() ==> names(graph@, #[trigger] ptrs@[i]) && !(
                ptrs@[i] is Interface),
        ensures
            match libs_added(graph@, proj_opts@, texts(guids@), ptrs@, old(state)@) {
                Ok(st) => r is Ok && final(state)@ == st,
                Err(e) => r matches Err(m) && m@ == e && final(state)@ == libs_reached(
                    graph@,
                    proj_opts@,
                    texts(guids@),
                    ptrs@,
                    old(state)@,
                ),
            },
    {
        let ghost s0 = state@;
        let mut i: usize = 0;
        while i < ptrs.len()
            invariant
                i <= ptrs@.len(),
                s0 == old(state)@,
                forall|i: int|
                    0 <= i < ptrs@.len() ==> names(graph@, #[trigger] ptrs@[i]) && !(
                    ptrs@[i] is Interface),
                libs_added(graph@, proj_opts@, texts(guids@), ptrs@.take(i as int), s0) == Ok::<
                    MsvcStateView,
                    Seq<char>,
                >(state@),
            decreases ptrs@.len() - i,
        {
            proof {
                assert(ptrs@.take(i + 1).drop_last() =~= ptrs@.take(i as int));
                assert(ptrs@.take(i + 1).last() == ptrs@[i as int]);
            }
            let ptr = ptrs[i];
            if !state.guid_map.contains_key(ptr.index()) {
                let made = match ptr {
                    LinkPtr::Static(_) => add_static_lib(graph, ptr, proj_opts, guids, state),
                    LinkPtr::Object(_) => add_object_lib(graph, ptr, proj_opts, guids, state),
                    LinkPtr::Interface(_) => vstd::pervasive::unreached(),
                };
                match made {
                    Ok(_) => {},
                    Err(e) => {
                        proof {
                            lemma_libs_added_prefix(
                                graph@,
                                proj_opts@,
                                texts(guids@),
                                ptrs@,
                                s0,
                                i + 1,
                            );
                            lemma_libs_stop(
                                graph@,
                                proj_opts@,
                                texts(guids@),
                                ptrs@,
                                s0,
                                i + 1,
                            );
                        }
                        return Err(e);
                    },
                }
            }
            i += 1;
        }
        assert(ptrs@.take(ptrs@.len() as int) =~= ptrs@);
        Ok(())
    }

    /// Makes the project of a program.
    pub fn add_exe(
        exe: &Executable,
        graph: &TargetGraph,
        proj_opts: &VcxprojOpts,
        guids: &Vec<String>,
        state: &mut MsvcState,
    ) -> (r: Result<(), String>)
        ensures
            match exe_added(graph@, proj_opts@, texts(guids@), exe, old(state)@) {
                Ok(st) => r is Ok && final(state)@ == st,
                Err(e) => r matches Err(m) && m@ == e && final(state)@ == exe_reached(
                    graph@,
                    proj_opts@,
                    texts(guids@),
                    exe,
                    old(state)@,
                ),
            },
    {
        let seen = state.exes_seen;
        let available = guids.len();
        let at = match graph.len().checked_add(seen) {
            Some(x) => x,
            None => {
                assert(graph@.len() + seen > available);
                return Err("Not enough GUIDs for the projects of the solution".to_owned());
            },
        };
        let guid = match take_guid(guids, at) {
            Ok(g) => g,
            Err(e) => {
                return Err(e);
            },
        };
        let includes = exe.public_includes_recursive(graph);
        let defines = exe.public_defines_recursive(graph);
        let target_data = TargetData {
            name: exe.name.clone(),
            includes: strip_all(&includes),
            defines,
        };
        assert(target_data@ == exe_target(graph@, exe));
        let vsproj = match make_vcxproj(
            graph,
            proj_opts,
            guids,
            "Application",
            &exe.project,
            &target_data,
            &exe.sources,
            &exe.links,
            graph.len(),
            guid,
            state,
        ) {
            Ok(x) => x,
            Err(e) => {
                return Err(e);
            },
        };
        state.guid_map.insert_exe(vsproj);
        state.exes_seen = seen + 1;
        Ok(())
    }

    /// Makes the projects of the programs `exes`, in turn.
    pub fn add_exes(
        exes: &Vec<Executable>,
        graph: &TargetGraph,
        proj_opts: &VcxprojOpts,
        guids: &Vec<String>,
        state: &mut MsvcState,
    ) -> (r: Result<(), String>)
        ensures
            match exes_added(graph@, proj_opts@, texts(guids@), exes@, old(state)@) {
                Ok(st) => r is Ok && final(state)@ == st,
                Err(e) => r matches Err(m) && m@ == e && final(state)@ == exes_reached(
                    graph@,
                    proj_opts@,
                    texts(guids@),
                    exes@,
                    old(state)@,
                ),
            },
    {
        let ghost s0 = state@;
        let mut n: usize = 0;
        while n < exes.len()
            invariant
                n <= exes@.len(),
                s0 == old(state)@,
                exes_added(graph@, proj_opts@, texts(guids@), exes@.take(n as int), s0) == Ok::<
                    MsvcStateView,
                    Seq<char>,
                >(state@),
            decreases exes@.len() - n,
        {
            proof {
                assert(exes@.take(n + 1).drop_last() =~= exes@.take(n as int));
                assert(exes@.take(n + 1).last() == exes@[n as int]);
            }
            match Msvc::add_exe(&exes[n], graph, proj_opts, guids, state) {
                Ok(()) => {},
                Err(e) => {
                    proof {
                        lemma_exes_added_prefix(
                            graph@,
                            proj_opts@,
                            texts(guids@),
                            exes@,
                            s0,
                            n + 1,
                        );
                        lemma_exes_stop(
                            graph@,
                            proj_opts@,
                            texts(guids@),
                            exes@,
                            s0,
                            n + 1,
                        );
                    }
                    return Err(e);
                },
            }
            n += 1;
        }
        assert(exes@.take(exes@.len() as int) =~= exes@);
        Ok(())
    }

    /// Walks a project: first the projects it depends on, then its static
    /// libraries, its object libraries and its programs. Where a target
    /// fails, the files that were noted before it stay, and none is noted
    /// for the target itself.
    pub fn generate_inner(
        project: &Project,
        graph: &TargetGraph,
        proj_opts: &VcxprojOpts,
        guids: &Vec<String>,
        state: &mut MsvcState,
    ) -> (r: Result<(), String>)
        requires
            project_fits(graph@, *project),
        ensures
            match project_added(graph@, proj_opts@, texts(guids@), *project, old(state)@) {
                Ok(st) => r is Ok && final(state)@ == st,
                Err(e) => r matches Err(m) && m@ == e && final(state)@ == project_reached(
                    graph@,
                    proj_opts@,
                    texts(guids@),
                    *project,
                    old(state)@,
                ),
            },
        decreases project,
    {
        let mut d: usize = 0;
        while d < project.dependencies.len()
            invariant
                d <= project.dependencies@.len(),
                project_fits(graph@, *project),
                subprojects_added(
                    graph@,
                    proj_opts@,
                    texts(guids@),
                    *project,
                    d as int,
                    old(state)@,
                ) == Ok::<MsvcStateView, Seq<char>>(state@),
            decreases project.dependencies@.len() - d,
        {
            match Msvc::generate_inner(&project.dependencies[d], graph, proj_opts, guids, state) {
                Ok(()) => {},
                Err(e) => {
                    proof {
                        lemma_subprojects_added_prefix(
                            graph@,
                            proj_opts@,
                            texts(guids@),
                            *project,
                            old(state)@,
                            d + 1,
                        );
                        lemma_subprojects_stop(
                            graph@,
                            proj_opts@,
                            texts(guids@),
                            *project,
                            old(state)@,
                            d + 1,
                        );
                    }
                    return Err(e);
                },
            }
            d += 1;
        }
        match Msvc::add_libs(&project.static_libraries, graph, proj_opts, guids, state) {
            Ok(()) => {},
            Err(e) => {
                return Err(e);
            },
        }
        match Msvc::add_libs(&project.object_libraries, graph, proj_opts, guids, state) {
            Ok(()) => {},
            Err(e) => {
                return Err(e);
            },
        }
        Msvc::add_exes(&project.executables, graph, proj_opts, guids, state)
    }
}

} // verus!
