//! The variables of an edge are kept in a list, in the order in which
//! they are written out. What a map would give stands here as a law: no
//! name stands twice among the variables of an edge that the generator
//! writes.

use vstd::prelude::*;
use super::edge::{compile_edge, NinjaBuildView, SourceDataView};
use super::program::executable_step;
use super::sources::{group_step, obj_sources_step, StepState};
use super::targets::{
    archive_edge, library_compile_step, object_lib_step, phony_edge, program_edge,
    static_lib_step, NinjaStateView,
};
use super::walk::{
    dependencies_step, executables_step, interface_libs_step, object_libs_step, project_step,
    static_libs_step,
};
use super::GeneratorOpts;
use crate::executable::Executable;
use crate::graph::LinkNode;
use crate::link_type::LinkPtr;
use crate::misc::{SourceKind, SourcePathView, SourcesView};
use crate::project::{Project, ProjectInfoView};

verus! {

/// Whether no name stands twice among the variables `kvs`.
pub open spec fn distinct_names(kvs: Seq<(Seq<char>, Seq<Seq<char>>)>) -> bool {
    forall|i: int, j: int|
        #![trigger kvs[i], kvs[j]]
        0 <= i < j < kvs.len() ==> kvs[i].0 != kvs[j].0
}

/// Whether no edge of `lines` has a variable twice.
pub open spec fn all_distinct(lines: Seq<NinjaBuildView>) -> bool {
    forall|i: int| 0 <= i < lines.len() ==> distinct_names((#[trigger] lines[i]).keyval_set)
}

/// An edge that compiles has no variable twice.
pub proof fn lemma_compile_edge_distinct(
    input: Seq<char>,
    data: SourceDataView,
    out_tgt: Seq<char>,
    rule_name: Seq<char>,
    compile_options: Seq<Seq<char>>,
)
    ensures
        distinct_names(compile_edge(input, data, out_tgt, rule_name, compile_options).keyval_set),
{
    reveal_strlit("DEFINES");
    reveal_strlit("FLAGS");
    reveal_strlit("INCLUDES");
    reveal_strlit("DEP_FILE");
    assert("DEFINES"@.len() == 7);
    assert("FLAGS"@.len() == 5);
    assert("INCLUDES"@.len() == 8);
    assert("DEP_FILE"@.len() == 8);
    assert("INCLUDES"@[0] != "DEP_FILE"@[0]);
}

/// An edge that links has no variable twice, and an edge that lets a
/// name stand for a file has no variable at all.
pub proof fn lemma_link_edges_distinct(
    inputs: Seq<Seq<char>>,
    out_name: Seq<char>,
    rule_name: Seq<char>,
    link_flags: Seq<Seq<char>>,
    name: Seq<char>,
)
    ensures
        distinct_names(archive_edge(inputs, out_name, rule_name).keyval_set),
        distinct_names(program_edge(inputs, out_name, rule_name, link_flags).keyval_set),
        distinct_names(phony_edge(out_name, name).keyval_set),
{
    reveal_strlit("TARGET_FILE");
    reveal_strlit("LINK_FLAGS");
    assert("TARGET_FILE"@[0] != "LINK_FLAGS"@[0]);
}

/// Edges without a twofold variable, followed by such edges, are such
/// edges.
pub proof fn lemma_all_distinct_joined(a: Seq<NinjaBuildView>, b: Seq<NinjaBuildView>)
    requires
        all_distinct(a),
        all_distinct(b),
    ensures
        all_distinct(a + b),
{
    assert forall|i: int| 0 <= i < (a + b).len() implies distinct_names(
        (#[trigger] (a + b)[i]).keyval_set,
    ) by {
        if i < a.len() {
            assert((a + b)[i] == a[i]);
        } else {
            assert((a + b)[i] == b[i - a.len()]);
        }
    }
}

/// Compiling the sources of one language writes no edge with a variable
/// twice.
pub proof fn lemma_group_step_distinct(
    opts: &GeneratorOpts,
    kind: SourceKind,
    srcs: Seq<SourcePathView>,
    name: Seq<char>,
    project: ProjectInfoView,
    data: SourceDataView,
    executable: bool,
    st: StepState,
)
    requires
        all_distinct(st.lines),
    ensures
        group_step(opts, kind, srcs, name, project, data, executable, st) matches Ok(s)
            ==> all_distinct(s.lines),
{
    match group_step(opts, kind, srcs, name, project, data, executable, st) {
        Ok(s) => {
            if srcs.len() != 0 {
                let extra = s.lines.skip(st.lines.len() as int);
                assert(s.lines =~= st.lines + extra);
                assert forall|i: int| 0 <= i < extra.len() implies distinct_names(
                    (#[trigger] extra[i]).keyval_set,
                ) by {
                    let e = extra[i];
                    lemma_compile_edge_distinct(
                        e.inputs[0],
                        data,
                        e.output_targets[0],
                        e.rule_name,
                        e.keyval_set[1].1,
                    );
                    assert(e.keyval_set =~= compile_edge(
                        e.inputs[0],
                        data,
                        e.output_targets[0],
                        e.rule_name,
                        e.keyval_set[1].1,
                    ).keyval_set);
                }
                lemma_all_distinct_joined(st.lines, extra);
            }
        },
        Err(_) => {},
    }
}

/// Compiling all sources of a target writes no edge with a variable
/// twice.
pub proof fn lemma_obj_sources_distinct(
    opts: &GeneratorOpts,
    sources: SourcesView,
    name: Seq<char>,
    project: ProjectInfoView,
    data: SourceDataView,
    executable: bool,
    st: StepState,
)
    requires
        all_distinct(st.lines),
    ensures
        obj_sources_step(opts, sources, name, project, data, executable, st) matches Ok(s)
            ==> all_distinct(s.lines),
{
    lemma_group_step_distinct(opts, SourceKind::C, sources.c, name, project, data, executable, st);
    match group_step(opts, SourceKind::C, sources.c, name, project, data, executable, st) {
        Ok(s1) => {
            lemma_group_step_distinct(
                opts,
                SourceKind::Cpp,
                sources.cpp,
                name,
                project,
                data,
                executable,
                s1,
            );
            match group_step(
                opts,
                SourceKind::Cpp,
                sources.cpp,
                name,
                project,
                data,
                executable,
                s1,
            ) {
                Ok(s2) => {
                    lemma_group_step_distinct(
                        opts,
                        SourceKind::Nasm,
                        sources.nasm,
                        name,
                        project,
                        data,
                        executable,
                        s2,
                    );
                },
                Err(_) => {},
            }
        },
        Err(_) => {},
    }
}

/// The edges of a static library, of an object library and of a program
/// have no variable twice.
proof fn lemma_target_steps_distinct(
    nodes: Seq<LinkNode>,
    ptr: LinkPtr,
    exe: &Executable,
    opts: &GeneratorOpts,
    st: NinjaStateView,
)
    requires
        all_distinct(st.lines),
    ensures
        static_lib_step(nodes, ptr, opts, st) matches Ok((s, _)) ==> all_distinct(s.lines),
        object_lib_step(nodes, ptr, opts, st) matches Ok((s, _)) ==> all_distinct(s.lines),
        executable_step(nodes, exe, opts, st) matches Ok(s) ==> all_distinct(s.lines),
{
    reveal(static_lib_step);
    reveal(object_lib_step);
    reveal(executable_step);
    let start = StepState { rules: st.rules, lines: st.lines, inputs: Seq::empty() };
    let at = ptr.spec_index();
    match crate::generator::ninja::targets::prepared(
        nodes[at].spec_sources(),
        crate::graph::surface(nodes, at, crate::link_type::Property::Includes)
            + nodes[at].spec_private_includes(),
        crate::graph::surface(nodes, at, crate::link_type::Property::Defines)
            + nodes[at].spec_private_defines(),
        nodes[at].spec_vars(),
    ) {
        Ok((sources, data)) => {
            lemma_obj_sources_distinct(
                opts,
                sources,
                crate::target::Target::spec_name(&nodes[at]),
                crate::target::Target::spec_project(&nodes[at]),
                data,
                false,
                start,
            );
        },
        Err(_) => {},
    }
    match static_lib_step(nodes, ptr, opts, st) {
        Ok((s, _)) => {
            let s1 = library_compile_step(nodes, at, opts, st)->Ok_0;
            let extra = s.lines.skip(s1.lines.len() as int);
            assert(s.lines =~= s1.lines + extra);
            lemma_link_edges_distinct(
                extra[0].inputs,
                extra[0].output_targets[0],
                extra[0].rule_name,
                Seq::empty(),
                extra[1].output_targets[0],
            );
            assert(extra[0].keyval_set =~= archive_edge(
                extra[0].inputs,
                extra[0].output_targets[0],
                extra[0].rule_name,
            ).keyval_set);
            lemma_all_distinct_joined(s1.lines, extra);
        },
        Err(_) => {},
    }
    match crate::generator::ninja::targets::prepared(
        exe.sources@,
        crate::graph::collected(
            nodes,
            exe.links@,
            exe.own(crate::link_type::Property::Includes),
            crate::link_type::Property::Includes,
        ),
        crate::graph::collected(
            nodes,
            exe.links@,
            exe.own(crate::link_type::Property::Defines),
            crate::link_type::Property::Defines,
        ),
        crate::generator_vars::vars_or_empty(exe.generator_vars),
    ) {
        Ok((sources, data)) => {
            lemma_obj_sources_distinct(opts, sources, exe.name@, exe.project@, data, true, start);
            match obj_sources_step(opts, sources, exe.name@, exe.project@, data, true, start) {
                Ok(s1) => match executable_step(nodes, exe, opts, st) {
                    Ok(s) => {
                        let extra = s.lines.skip(s1.lines.len() as int);
                        assert(s.lines =~= s1.lines + extra);
                        lemma_link_edges_distinct(
                            extra[0].inputs,
                            extra[0].output_targets[0],
                            extra[0].rule_name,
                            extra[0].keyval_set[1].1,
                            extra[1].output_targets[0],
                        );
                        assert(extra[0].keyval_set =~= program_edge(
                            extra[0].inputs,
                            extra[0].output_targets[0],
                            extra[0].rule_name,
                            extra[0].keyval_set[1].1,
                        ).keyval_set);
                        lemma_all_distinct_joined(s1.lines, extra);
                    },
                    Err(_) => {},
                },
                Err(_) => {},
            }
        },
        Err(_) => {},
    }
}

/// The edges of a library have no variable twice.
pub proof fn lemma_library_distinct(
    nodes: Seq<LinkNode>,
    ptr: LinkPtr,
    opts: &GeneratorOpts,
    st: NinjaStateView,
)
    requires
        all_distinct(st.lines),
    ensures
        static_lib_step(nodes, ptr, opts, st) matches Ok((s, _)) ==> all_distinct(s.lines),
        object_lib_step(nodes, ptr, opts, st) matches Ok((s, _)) ==> all_distinct(s.lines),
{
    let exe: &Executable = arbitrary();
    lemma_target_steps_distinct(nodes, ptr, exe, opts, st);
}

/// The edges of a program have no variable twice.
pub proof fn lemma_executable_distinct(
    nodes: Seq<LinkNode>,
    exe: &Executable,
    opts: &GeneratorOpts,
    st: NinjaStateView,
)
    requires
        all_distinct(st.lines),
    ensures
        executable_step(nodes, exe, opts, st) matches Ok(s) ==> all_distinct(s.lines),
{
    lemma_target_steps_distinct(nodes, LinkPtr::Static(0), exe, opts, st);
}

/// The same of the static libraries, the object libraries and the
/// programs of a list.
pub proof fn lemma_lists_distinct(
    nodes: Seq<LinkNode>,
    ptrs: Seq<LinkPtr>,
    exes: Seq<Executable>,
    opts: &GeneratorOpts,
    st: NinjaStateView,
)
    requires
        all_distinct(st.lines),
    ensures
        static_libs_step(nodes, ptrs, opts, st) matches Ok(s) ==> all_distinct(s.lines),
        object_libs_step(nodes, ptrs, opts, st) matches Ok(s) ==> all_distinct(s.lines),
        executables_step(nodes, exes, opts, st) matches Ok(s) ==> all_distinct(s.lines),
        interface_libs_step(ptrs, st).lines == st.lines,
    decreases ptrs.len() + exes.len(),
{
    if ptrs.len() != 0 {
        lemma_lists_distinct(nodes, ptrs.drop_last(), Seq::empty(), opts, st);
        match static_libs_step(nodes, ptrs.drop_last(), opts, st) {
            Ok(s) => {
                lemma_library_distinct(nodes, ptrs.last(), opts, s);
            },
            Err(_) => {},
        }
        match object_libs_step(nodes, ptrs.drop_last(), opts, st) {
            Ok(s) => {
                lemma_library_distinct(nodes, ptrs.last(), opts, s);
            },
            Err(_) => {},
        }
    }
    if exes.len() != 0 {
        lemma_lists_distinct(nodes, Seq::empty(), exes.drop_last(), opts, st);
        match executables_step(nodes, exes.drop_last(), opts, st) {
            Ok(s) => {
                lemma_executable_distinct(nodes, &exes.last(), opts, s);
            },
            Err(_) => {},
        }
    }
}

/// The walk over the first `n` projects that a project depends on writes
/// no edge with a variable twice.
pub proof fn lemma_dependencies_distinct(
    nodes: Seq<LinkNode>,
    project: Project,
    n: int,
    opts: &GeneratorOpts,
    st: NinjaStateView,
)
    requires
        all_distinct(st.lines),
    ensures
        dependencies_step(nodes, project, n, opts, st) matches Ok(s) ==> all_distinct(s.lines),
    decreases project, n,
{
    if !(n <= 0 || n > project.dependencies@.len()) {
        lemma_dependencies_distinct(nodes, project, n - 1, opts, st);
        match dependencies_step(nodes, project, n - 1, opts, st) {
            Ok(s) => {
                lemma_project_distinct(nodes, project.dependencies@[n - 1], opts, s);
            },
            Err(_) => {},
        }
    }
}

/// No edge that the walk over a project writes has a variable twice.
pub proof fn lemma_project_distinct(
    nodes: Seq<LinkNode>,
    project: Project,
    opts: &GeneratorOpts,
    st: NinjaStateView,
)
    requires
        all_distinct(st.lines),
    ensures
        project_step(nodes, project, opts, st) matches Ok(s) ==> all_distinct(s.lines),
    decreases project,
{
    let none: Seq<Executable> = Seq::empty();
    lemma_dependencies_distinct(nodes, project, project.dependencies@.len() as int, opts, st);
    match dependencies_step(nodes, project, project.dependencies@.len() as int, opts, st) {
        Ok(s0) => {
            lemma_lists_distinct(nodes, project.static_libraries@, none, opts, s0);
            match static_libs_step(nodes, project.static_libraries@, opts, s0) {
                Ok(s1) => {
                    lemma_lists_distinct(nodes, project.object_libraries@, none, opts, s1);
                    match object_libs_step(nodes, project.object_libraries@, opts, s1) {
                        Ok(s2) => {
                            lemma_lists_distinct(
                                nodes,
                                project.interface_libraries@,
                                none,
                                opts,
                                s2,
                            );
                            lemma_lists_distinct(
                                nodes,
                                Seq::empty(),
                                project.executables@,
                                opts,
                                interface_libs_step(project.interface_libraries@, s2),
                            );
                        },
                        Err(_) => {},
                    }
                },
                Err(_) => {},
            }
        },
        Err(_) => {},
    }
}

} // verus!
