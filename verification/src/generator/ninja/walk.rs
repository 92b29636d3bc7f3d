//! The walk over the projects.

use vstd::prelude::*;
use super::edge::{builds_text, render_builds};
use super::program::{add_executable_target, executable_step};
use super::reached::{
    executables_reached, lemma_dependencies_stop, lemma_executables_stop, lemma_object_libs_stop,
    lemma_static_libs_stop, object_libs_reached, project_reached, static_libs_reached,
};
use super::targets::{
    add_object_lib_target, add_static_lib_target, object_lib_step, static_lib_step, NinjaState,
    NinjaStateView,
};
use super::variables::{all_distinct, lemma_project_distinct};
use super::GeneratorOpts;
use crate::executable::Executable;
use crate::generator::{GeneratedFile, TargetPlatform};
use crate::graph::{all_named, names, LinkNode, TargetGraph};
use crate::link_type::LinkPtr;
use crate::misc::{join_path, spec_join_path};
use crate::project::{project_fits, Project};
use crate::toolchain::{Profile, Toolchain};
use crate::GlobalOptions;

verus! {

/// The static libraries `ptrs` in turn; one that was dealt with before is
/// passed over.
pub open spec fn static_libs_step(
    nodes: Seq<LinkNode>,
    ptrs: Seq<LinkPtr>,
    opts: &GeneratorOpts,
    st: NinjaStateView,
) -> Result<NinjaStateView, Seq<char>>
    decreases ptrs.len(),
{
    if ptrs.len() == 0 {
        Ok(st)
    } else {
        match static_libs_step(nodes, ptrs.drop_last(), opts, st) {
            Err(e) => Err(e),
            Ok(s) => if s.outputs.contains_key(ptrs.last().spec_key()) {
                Ok(s)
            } else {
                match static_lib_step(nodes, ptrs.last(), opts, s) {
                    Err(e) => Err(e),
                    Ok((s2, _)) => Ok(s2),
                }
            },
        }
    }
}

/// The object libraries `ptrs` in turn; one that was dealt with before is
/// passed over.
pub open spec fn object_libs_step(
    nodes: Seq<LinkNode>,
    ptrs: Seq<LinkPtr>,
    opts: &GeneratorOpts,
    st: NinjaStateView,
) -> Result<NinjaStateView, Seq<char>>
    decreases ptrs.len(),
{
    if ptrs.len() == 0 {
        Ok(st)
    } else {
        match object_libs_step(nodes, ptrs.drop_last(), opts, st) {
            Err(e) => Err(e),
            Ok(s) => if s.outputs.contains_key(ptrs.last().spec_key()) {
                Ok(s)
            } else {
                match object_lib_step(nodes, ptrs.last(), opts, s) {
                    Err(e) => Err(e),
                    Ok((s2, _)) => Ok(s2),
                }
            },
        }
    }
}

/// The interface libraries `ptrs` in turn: each is noted with no outputs
/// at all, so that it can be found and brings nothing to a link line.
pub open spec fn interface_libs_step(ptrs: Seq<LinkPtr>, st: NinjaStateView) -> NinjaStateView
    decreases ptrs.len(),
{
    if ptrs.len() == 0 {
        st
    } else {
        let s = interface_libs_step(ptrs.drop_last(), st);
        if s.outputs.contains_key(ptrs.last().spec_key()) {
            s
        } else {
            NinjaStateView {
                outputs: s.outputs.insert(ptrs.last().spec_key(), Seq::empty()),
                ..s
            }
        }
    }
}

/// The programs `exes` in turn.
pub open spec fn executables_step(
    nodes: Seq<LinkNode>,
    exes: Seq<Executable>,
    opts: &GeneratorOpts,
    st: NinjaStateView,
) -> Result<NinjaStateView, Seq<char>>
    decreases exes.len(),
{
    if exes.len() == 0 {
        Ok(st)
    } else {
        match executables_step(nodes, exes.drop_last(), opts, st) {
            Err(e) => Err(e),
            Ok(s) => executable_step(nodes, &exes.last(), opts, s),
        }
    }
}

/// The first `n` projects that `project` depends on, in turn.
pub open spec fn dependencies_step(
    nodes: Seq<LinkNode>,
    project: Project,
    n: int,
    opts: &GeneratorOpts,
    st: NinjaStateView,
) -> Result<NinjaStateView, Seq<char>>
    decreases project, n,
{
    if n <= 0 || n > project.dependencies@.len() {
        Ok(st)
    } else {
        match dependencies_step(nodes, project, n - 1, opts, st) {
            Err(e) => Err(e),
            Ok(s) => project_step(nodes, project.dependencies@[n - 1], opts, s),
        }
    }
}

/// A project: first the projects it depends on, then its static
/// libraries, its object libraries, its interface libraries and its
/// programs. The first failure ends the walk.
pub open spec fn project_step(
    nodes: Seq<LinkNode>,
    project: Project,
    opts: &GeneratorOpts,
    st: NinjaStateView,
) -> Result<NinjaStateView, Seq<char>>
    decreases project,
{
    match dependencies_step(nodes, project, project.dependencies@.len() as int, opts, st) {
        Err(e) => Err(e),
        Ok(s0) => match static_libs_step(nodes, project.static_libraries@, opts, s0) {
            Err(e) => Err(e),
            Ok(s1) => match object_libs_step(nodes, project.object_libraries@, opts, s1) {
                Err(e) => Err(e),
                Ok(s2) => executables_step(
                    nodes,
                    project.executables@,
                    opts,
                    interface_libs_step(project.interface_libraries@, s2),
                ),
            },
        },
    }
}

/// A failure among the first `n` static libraries is the failure of all.
pub proof fn lemma_static_libs_prefix(
    nodes: Seq<LinkNode>,
    ptrs: Seq<LinkPtr>,
    opts: &GeneratorOpts,
    st: NinjaStateView,
    n: int,
)
    requires
        0 <= n <= ptrs.len(),
        static_libs_step(nodes, ptrs.take(n), opts, st) is Err,
    ensures
        static_libs_step(nodes, ptrs, opts, st) == static_libs_step(nodes, ptrs.take(n), opts, st),
    decreases ptrs.len() - n,
{
    if n < ptrs.len() {
        assert(ptrs.take(n + 1).drop_last() =~= ptrs.take(n));
        lemma_static_libs_prefix(nodes, ptrs, opts, st, n + 1);
    } else {
        assert(ptrs.take(n) =~= ptrs);
    }
}

/// A failure among the first `n` object libraries is the failure of all.
pub proof fn lemma_object_libs_prefix(
    nodes: Seq<LinkNode>,
    ptrs: Seq<LinkPtr>,
    opts: &GeneratorOpts,
    st: NinjaStateView,
    n: int,
)
    requires
        0 <= n <= ptrs.len(),
        object_libs_step(nodes, ptrs.take(n), opts, st) is Err,
    ensures
        object_libs_step(nodes, ptrs, opts, st) == object_libs_step(nodes, ptrs.take(n), opts, st),
    decreases ptrs.len() - n,
{
    if n < ptrs.len() {
        assert(ptrs.take(n + 1).drop_last() =~= ptrs.take(n));
        lemma_object_libs_prefix(nodes, ptrs, opts, st, n + 1);
    } else {
        assert(ptrs.take(n) =~= ptrs);
    }
}

/// A failure among the first `n` programs is the failure of all.
pub proof fn lemma_executables_prefix(
    nodes: Seq<LinkNode>,
    exes: Seq<Executable>,
    opts: &GeneratorOpts,
    st: NinjaStateView,
    n: int,
)
    requires
        0 <= n <= exes.len(),
        executables_step(nodes, exes.take(n), opts, st) is Err,
    ensures
        executables_step(nodes, exes, opts, st) == executables_step(nodes, exes.take(n), opts, st),
    decreases exes.len() - n,
{
    if n < exes.len() {
        assert(exes.take(n + 1).drop_last() =~= exes.take(n));
        lemma_executables_prefix(nodes, exes, opts, st, n + 1);
    } else {
        assert(exes.take(n) =~= exes);
    }
}

/// A failure among the first `n` dependencies is the failure of all.
pub proof fn lemma_dependencies_prefix(
    nodes: Seq<LinkNode>,
    project: Project,
    opts: &GeneratorOpts,
    st: NinjaStateView,
    n: int,
)
    requires
        0 <= n <= project.dependencies@.len(),
        dependencies_step(nodes, project, n, opts, st) is Err,
    ensures
        dependencies_step(nodes, project, project.dependencies@.len() as int, opts, st)
            == dependencies_step(nodes, project, n, opts, st),
    decreases project.dependencies@.len() - n,
{
    if n < project.dependencies@.len() {
        lemma_dependencies_prefix(nodes, project, opts, st, n + 1);
    }
}

/// The Ninja generator.
pub struct Ninja {}

impl Ninja {
    /// Walks a project: first the projects it depends on, then its static
    /// libraries, its object libraries, its interface libraries and its
    /// programs, so that whatever is linked was dealt with before what
    /// links it. Where a target fails, what was written before it stays,
    /// and of the target itself only edges that compile its sources.
    pub fn generate_inner(
        project: &Project,
        graph: &TargetGraph,
        opts: &GeneratorOpts,
        state: &mut NinjaState,
    ) -> (r: Result<(), String>)
        requires
            project_fits(graph@, *project),
        ensures
            match project_step(graph@, *project, opts, old(state)@) {
                Ok(st) => r is Ok && final(state)@ == st,
                Err(e) => r matches Err(m) && m@ == e && final(state)@ == project_reached(
                    graph@,
                    *project,
                    opts,
                    old(state)@,
                ),
            },
            r is Ok && all_distinct(old(state)@.lines) ==> all_distinct(final(state)@.lines),
        decreases project,
    {
        proof {
            if all_distinct(old(state)@.lines) {
                lemma_project_distinct(graph@, *project, opts, old(state)@);
            }
        }
        let mut d: usize = 0;
        while d < project.dependencies.len()
            invariant
                d <= project.dependencies@.len(),
                project_fits(graph@, *project),
                dependencies_step(graph@, *project, d as int, opts, old(state)@) == Ok::<
                    NinjaStateView,
                    Seq<char>,
                >(state@),
            decreases project.dependencies@.len() - d,
        {
            match Ninja::generate_inner(&project.dependencies[d], graph, opts, state) {
                Ok(()) => {},
                Err(e) => {
                    proof {
                        lemma_dependencies_prefix(graph@, *project, opts, old(state)@, d + 1);
                        lemma_dependencies_stop(graph@, *project, opts, old(state)@, d + 1);
                    }
                    return Err(e);
                },
            }
            d += 1;
        }
        match Ninja::add_static_libs(&project.static_libraries, graph, opts, state) {
            Ok(()) => {},
            Err(e) => {
                return Err(e);
            },
        }
        match Ninja::add_object_libs(&project.object_libraries, graph, opts, state) {
            Ok(()) => {},
            Err(e) => {
                return Err(e);
            },
        }
        Ninja::note_interface_libs(&project.interface_libraries, state);
        Ninja::add_executables(&project.executables, graph, opts, state)
    }

    /// Deals with the static libraries `ptrs` in turn; one that was dealt
    /// with before is passed over.
    pub fn add_static_libs(
        ptrs: &Vec<LinkPtr>,
        graph: &TargetGraph,
        opts: &GeneratorOpts,
        state: &mut NinjaState,
    ) -> (r: Result<(), String>)
        requires
            forall|i: int|
                0 <= i < ptrs@.len() ==> names(graph@, #[trigger] ptrs@[i]) && ptrs@[i] is Static,
        ensures
            match static_libs_step(graph@, ptrs@, opts, old(state)@) {
                Ok(st) => r is Ok && final(state)@ == st,
                Err(e) => r matches Err(m) && m@ == e && final(state)@ == static_libs_reached(
                    graph@,
                    ptrs@,
                    opts,
                    old(state)@,
                ),
            },
    {
        let ghost s0 = state@;
        let mut i: usize = 0;
        while i < ptrs.len()
            invariant
                i <= ptrs@.len(),
                s0 == old(state)@,
                forall|i: int|
                    0 <= i < ptrs@.len() ==> names(graph@, #[trigger] ptrs@[i]) && ptrs@[i] is Static,
                static_libs_step(graph@, ptrs@.take(i as int), opts, s0) == Ok::<
                    NinjaStateView,
                    Seq<char>,
                >(state@),
            decreases ptrs@.len() - i,
        {
            let ptr = ptrs[i];
            proof {
                assert(ptrs@.take(i + 1).drop_last() =~= ptrs@.take(i as int));
                assert(ptrs@.take(i + 1).last() == ptrs@[i as int]);
            }
            if !state.is_recorded(ptr.index()) {
                match add_static_lib_target(graph, ptr, opts, state) {
                    Ok(_) => {},
                    Err(e) => {
                        proof {
                            lemma_static_libs_prefix(graph@, ptrs@, opts, s0, i + 1);
                            lemma_static_libs_stop(graph@, ptrs@, opts, s0, i + 1);
                        }
                        return Err(e);
                    },
                }
            }
            i += 1;
        }
        assert(ptrs@.take(ptrs@.len() as int) =~= ptrs@);
        Ok(())
    }

    /// Deals with the object libraries `ptrs` in turn; one that was dealt
    /// with before is passed over.
    pub fn add_object_libs(
        ptrs: &Vec<LinkPtr>,
        graph: &TargetGraph,
        opts: &GeneratorOpts,
        state: &mut NinjaState,
    ) -> (r: Result<(), String>)
        requires
            forall|i: int|
                0 <= i < ptrs@.len() ==> names(graph@, #[trigger] ptrs@[i]) && ptrs@[i] is Object,
        ensures
            match object_libs_step(graph@, ptrs@, opts, old(state)@) {
                Ok(st) => r is Ok && final(state)@ == st,
                Err(e) => r matches Err(m) && m@ == e && final(state)@ == object_libs_reached(
                    graph@,
                    ptrs@,
                    opts,
                    old(state)@,
                ),
            },
    {
        let ghost s0 = state@;
        let mut i: usize = 0;
        while i < ptrs.len()
            invariant
                i <= ptrs@.len(),
                s0 == old(state)@,
                forall|i: int|
                    0 <= i < ptrs@.len() ==> names(graph@, #[trigger] ptrs@[i]) && ptrs@[i] is Object,
                object_libs_step(graph@, ptrs@.take(i as int), opts, s0) == Ok::<
                    NinjaStateView,
                    Seq<char>,
                >(state@),
            decreases ptrs@.len() - i,
        {
            let ptr = ptrs[i];
            proof {
                assert(ptrs@.take(i + 1).drop_last() =~= ptrs@.take(i as int));
                assert(ptrs@.take(i + 1).last() == ptrs@[i as int]);
            }
            if !state.is_recorded(ptr.index()) {
                match add_object_lib_target(graph, ptr, opts, state) {
                    Ok(_) => {},
                    Err(e) => {
                        proof {
                            lemma_object_libs_prefix(graph@, ptrs@, opts, s0, i + 1);
                            lemma_object_libs_stop(graph@, ptrs@, opts, s0, i + 1);
                        }
                        return Err(e);
                    },
                }
            }
            i += 1;
        }
        assert(ptrs@.take(ptrs@.len() as int) =~= ptrs@);
        Ok(())
    }

    /// Notes the interface libraries `ptrs` with no outputs at all, so
    /// that they can be found and bring nothing to a link line.
    pub fn note_interface_libs(ptrs: &Vec<LinkPtr>, state: &mut NinjaState)
        ensures
            final(state)@ == interface_libs_step(ptrs@, old(state)@),
    {
        let ghost s0 = state@;
        let mut k: usize = 0;
        while k < ptrs.len()
            invariant
                k <= ptrs@.len(),
                interface_libs_step(ptrs@.take(k as int), s0) == state@,
            decreases ptrs@.len() - k,
        {
            let ptr = ptrs[k];
            proof {
                assert(ptrs@.take(k + 1).drop_last() =~= ptrs@.take(k as int));
                assert(ptrs@.take(k + 1).last() == ptrs@[k as int]);
            }
            if !state.is_recorded(ptr.index()) {
                let nothing: Vec<String> = Vec::new();
                assert(crate::text::texts(nothing@) =~= Seq::<Seq<char>>::empty());
                state.record(ptr.index(), nothing);
            }
            k += 1;
        }
        assert(ptrs@.take(ptrs@.len() as int) =~= ptrs@);
    }

    /// Deals with the programs `exes` in turn.
    pub fn add_executables(
        exes: &Vec<Executable>,
        graph: &TargetGraph,
        opts: &GeneratorOpts,
        state: &mut NinjaState,
    ) -> (r: Result<(), String>)
        requires
            forall|i: int| 0 <= i < exes@.len() ==> all_named(graph@, (#[trigger] exes@[i]).links@),
        ensures
            match executables_step(graph@, exes@, opts, old(state)@) {
                Ok(st) => r is Ok && final(state)@ == st,
                Err(e) => r matches Err(m) && m@ == e && final(state)@ == executables_reached(
                    graph@,
                    exes@,
                    opts,
                    old(state)@,
                ),
            },
    {
        let ghost s0 = state@;
        let mut n: usize = 0;
        while n < exes.len()
            invariant
                n <= exes@.len(),
                s0 == old(state)@,
                forall|i: int|
                    0 <= i < exes@.len() ==> all_named(graph@, (#[trigger] exes@[i]).links@),
                executables_step(graph@, exes@.take(n as int), opts, s0) == Ok::<
                    NinjaStateView,
                    Seq<char>,
                >(state@),
            decreases exes@.len() - n,
        {
            proof {
                assert(exes@.take(n + 1).drop_last() =~= exes@.take(n as int));
                assert(exes@.take(n + 1).last() == exes@[n as int]);
            }
            match add_executable_target(graph, &exes[n], opts, state) {
                Ok(()) => {},
                Err(e) => {
                    proof {
                        lemma_executables_prefix(graph@, exes@, opts, s0, n + 1);
                        lemma_executables_stop(graph@, exes@, opts, s0, n + 1);
                    }
                    return Err(e);
                },
            }
            n += 1;
        }
        assert(exes@.take(exes@.len() as int) =~= exes@);
        Ok(())
    }

    /// The Ninja file for a project: the rules that were needed, then the
    /// edges, in the order of the walk. It is to be written to
    /// `build.ninja` in the build directory.
    pub fn generate(
        project: &Project,
        graph: &TargetGraph,
        build_dir: String,
        toolchain: Toolchain,
        profile: Profile,
        global_opts: GlobalOptions,
        target_platform: TargetPlatform,
    ) -> (r: Result<GeneratedFile, String>)
        requires
            project_fits(graph@, *project),
        ensures
            match project_step(
                graph@,
                *project,
                &(GeneratorOpts { build_dir, toolchain, profile, global_opts, target_platform }),
                NinjaStateView::empty(),
            ) {
                Ok(st) => r matches Ok(f) && f.path@ == spec_join_path(
                    build_dir@,
                    "build.ninja"@,
                ) && f.content@ == st.rules.as_string() + builds_text(st.lines),
                Err(e) => r matches Err(m) && m@ == e,
            },
    {
        let opts = GeneratorOpts { build_dir, toolchain, profile, global_opts, target_platform };
        let mut state = NinjaState::new();
        match Ninja::generate_inner(project, graph, &opts, &mut state) {
            Ok(()) => {},
            Err(e) => {
                return Err(e);
            },
        }
        let mut content = state.rules.as_string();
        let lines = render_builds(&state.build_lines);
        content.append(lines.as_str());
        Ok(
            GeneratedFile {
                path: join_path(opts.build_dir.as_str(), "build.ninja"),
                content,
            },
        )
    }
}

} // verus!
