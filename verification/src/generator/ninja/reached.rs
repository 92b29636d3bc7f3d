//! How far a walk gets that fails. What was written before the failure
//! stays in the state; these functions say what that is.

use vstd::prelude::*;
use super::program::{executable_reached, executable_step};
use super::targets::{library_reached, object_lib_step, static_lib_step, NinjaStateView};
use super::walk::{
    dependencies_step, executables_step, interface_libs_step, object_libs_step, static_libs_step,
};
use super::GeneratorOpts;
use crate::executable::Executable;
use crate::graph::LinkNode;
use crate::link_type::LinkPtr;
use crate::project::Project;

verus! {

/// How far dealing with the static libraries `ptrs` gets: all of them
/// where none fails, else those before the first that fails and of that
/// one the edges that compile its sources, as far as compiling got.
pub open spec fn static_libs_reached(
    nodes: Seq<LinkNode>,
    ptrs: Seq<LinkPtr>,
    opts: &GeneratorOpts,
    st: NinjaStateView,
) -> NinjaStateView
    decreases ptrs.len(),
{
    if ptrs.len() == 0 {
        st
    } else {
        match static_libs_step(nodes, ptrs.drop_last(), opts, st) {
            Err(_) => static_libs_reached(nodes, ptrs.drop_last(), opts, st),
            Ok(s) => if s.outputs.contains_key(ptrs.last().spec_key()) {
                s
            } else {
                match static_lib_step(nodes, ptrs.last(), opts, s) {
                    Ok((s2, _)) => s2,
                    Err(_) => library_reached(nodes, ptrs.last().spec_index(), opts, s),
                }
            },
        }
    }
}

/// The same of the object libraries `ptrs`.
pub open spec fn object_libs_reached(
    nodes: Seq<LinkNode>,
    ptrs: Seq<LinkPtr>,
    opts: &GeneratorOpts,
    st: NinjaStateView,
) -> NinjaStateView
    decreases ptrs.len(),
{
    if ptrs.len() == 0 {
        st
    } else {
        match object_libs_step(nodes, ptrs.drop_last(), opts, st) {
            Err(_) => object_libs_reached(nodes, ptrs.drop_last(), opts, st),
            Ok(s) => if s.outputs.contains_key(ptrs.last().spec_key()) {
                s
            } else {
                match object_lib_step(nodes, ptrs.last(), opts, s) {
                    Ok((s2, _)) => s2,
                    Err(_) => library_reached(nodes, ptrs.last().spec_index(), opts, s),
                }
            },
        }
    }
}

/// The same of the programs `exes`.
pub open spec fn executables_reached(
    nodes: Seq<LinkNode>,
    exes: Seq<Executable>,
    opts: &GeneratorOpts,
    st: NinjaStateView,
) -> NinjaStateView
    decreases exes.len(),
{
    if exes.len() == 0 {
        st
    } else {
        match executables_step(nodes, exes.drop_last(), opts, st) {
            Err(_) => executables_reached(nodes, exes.drop_last(), opts, st),
            Ok(s) => match executable_step(nodes, &exes.last(), opts, s) {
                Ok(s2) => s2,
                Err(_) => executable_reached(nodes, &exes.last(), opts, s),
            },
        }
    }
}

/// How far the walk over the first `n` projects that `project` depends
/// on gets.
pub open spec fn dependencies_reached(
    nodes: Seq<LinkNode>,
    project: Project,
    n: int,
    opts: &GeneratorOpts,
    st: NinjaStateView,
) -> NinjaStateView
    decreases project, n,
{
    if n <= 0 || n > project.dependencies@.len() {
        st
    } else {
        match dependencies_step(nodes, project, n - 1, opts, st) {
            Err(_) => dependencies_reached(nodes, project, n - 1, opts, st),
            Ok(s) => project_reached(nodes, project.dependencies@[n - 1], opts, s),
        }
    }
}

/// How far the walk over a project gets: to its end where nothing fails,
/// else as far as the part that fails got.
pub open spec fn project_reached(
    nodes: Seq<LinkNode>,
    project: Project,
    opts: &GeneratorOpts,
    st: NinjaStateView,
) -> NinjaStateView
    decreases project,
{
    let deps = project.dependencies@.len() as int;
    match dependencies_step(nodes, project, deps, opts, st) {
        Err(_) => dependencies_reached(nodes, project, deps, opts, st),
        Ok(s0) => match static_libs_step(nodes, project.static_libraries@, opts, s0) {
            Err(_) => static_libs_reached(nodes, project.static_libraries@, opts, s0),
            Ok(s1) => match object_libs_step(nodes, project.object_libraries@, opts, s1) {
                Err(_) => object_libs_reached(nodes, project.object_libraries@, opts, s1),
                Ok(s2) => executables_reached(
                    nodes,
                    project.executables@,
                    opts,
                    interface_libs_step(project.interface_libraries@, s2),
                ),
            },
        },
    }
}

/// Where one of the first `n` static libraries fails, the walk gets as
/// far as it gets among those.
pub proof fn lemma_static_libs_stop(
    nodes: Seq<LinkNode>,
    ptrs: Seq<LinkPtr>,
    opts: &GeneratorOpts,
    st: NinjaStateView,
    n: int,
)
    requires
        0 <= n <= ptrs.len(),
        static_libs_step(nodes, ptrs.take(n), opts, st) is Err,
    ensures
        static_libs_reached(nodes, ptrs, opts, st) == static_libs_reached(
            nodes,
            ptrs.take(n),
            opts,
            st,
        ),
    decreases ptrs.len() - n,
{
    if n < ptrs.len() {
        assert(ptrs.take(n + 1).drop_last() =~= ptrs.take(n));
        super::walk::lemma_static_libs_prefix(nodes, ptrs.take(n + 1), opts, st, n);
        assert(ptrs.take(n + 1).take(n) =~= ptrs.take(n));
        lemma_static_libs_stop(nodes, ptrs, opts, st, n + 1);
    } else {
        assert(ptrs.take(n) =~= ptrs);
    }
}

/// The same of object libraries.
pub proof fn lemma_object_libs_stop(
    nodes: Seq<LinkNode>,
    ptrs: Seq<LinkPtr>,
    opts: &GeneratorOpts,
    st: NinjaStateView,
    n: int,
)
    requires
        0 <= n <= ptrs.len(),
        object_libs_step(nodes, ptrs.take(n), opts, st) is Err,
    ensures
        object_libs_reached(nodes, ptrs, opts, st) == object_libs_reached(
            nodes,
            ptrs.take(n),
            opts,
            st,
        ),
    decreases ptrs.len() - n,
{
    if n < ptrs.len() {
        assert(ptrs.take(n + 1).drop_last() =~= ptrs.take(n));
        super::walk::lemma_object_libs_prefix(nodes, ptrs.take(n + 1), opts, st, n);
        assert(ptrs.take(n + 1).take(n) =~= ptrs.take(n));
        lemma_object_libs_stop(nodes, ptrs, opts, st, n + 1);
    } else {
        assert(ptrs.take(n) =~= ptrs);
    }
}

/// The same of programs.
pub proof fn lemma_executables_stop(
    nodes: Seq<LinkNode>,
    exes: Seq<Executable>,
    opts: &GeneratorOpts,
    st: NinjaStateView,
    n: int,
)
    requires
        0 <= n <= exes.len(),
        executables_step(nodes, exes.take(n), opts, st) is Err,
    ensures
        executables_reached(nodes, exes, opts, st) == executables_reached(
            nodes,
            exes.take(n),
            opts,
            st,
        ),
    decreases exes.len() - n,
{
    if n < exes.len() {
        assert(exes.take(n + 1).drop_last() =~= exes.take(n));
        super::walk::lemma_executables_prefix(nodes, exes.take(n + 1), opts, st, n);
        assert(exes.take(n + 1).take(n) =~= exes.take(n));
        lemma_executables_stop(nodes, exes, opts, st, n + 1);
    } else {
        assert(exes.take(n) =~= exes);
    }
}

/// The same of the projects that a project depends on.
pub proof fn lemma_dependencies_stop(
    nodes: Seq<LinkNode>,
    project: Project,
    opts: &GeneratorOpts,
    st: NinjaStateView,
    n: int,
)
    requires
        0 <= n <= project.dependencies@.len(),
        dependencies_step(nodes, project, n, opts, st) is Err,
    ensures
        dependencies_reached(nodes, project, project.dependencies@.len() as int, opts, st)
            == dependencies_reached(nodes, project, n, opts, st),
    decreases project.dependencies@.len() - n,
{
    if n < project.dependencies@.len() {
        lemma_dependencies_stop(nodes, project, opts, st, n + 1);
    }
}

} // verus!
