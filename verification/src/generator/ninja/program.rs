//! The edges of a program.

use vstd::prelude::*;
use super::edge::{build_views, single, NinjaBuild};
use super::paths::{output_path, spec_output_path};
use super::rule::{link_exe, spec_link_exe, NinjaRulesView};
use super::sources::{add_obj_sources, obj_sources_step, pic_part, StepState};
use super::targets::{
    compile_reached, no_exe_linker_message, phony_edge, prepare, prepared, program_edge,
    NinjaState, NinjaStateView,
};
use super::GeneratorOpts;
use crate::executable::Executable;
use crate::generator_vars::vars_or_empty;
use crate::graph::{all_named, collected, links_recursive, names, LinkNode, TargetGraph};
use crate::link_type::{LinkPtr, Property};
use crate::target::Target;
use crate::text::texts;
use crate::unique::{dedup, deduplicate, extend_strings};

verus! {

/// The message for a link of a program that was not dealt with before
/// the program.
pub open spec fn missing_output_message(name: Seq<char>) -> Seq<char> {
    "Output target not found: "@ + name
}

/// The message for a library that has to be linked along with a link of a
/// program and was not dealt with before the program.
pub open spec fn missing_transitive_output_message(name: Seq<char>) -> Seq<char> {
    "Transitive output target not found: "@ + name
}

/// The outputs of the libraries `links`, one after the other. The first
/// library without noted outputs is refused by name.
pub open spec fn transitive_outputs(
    nodes: Seq<LinkNode>,
    links: Seq<LinkPtr>,
    outputs: Map<usize, Seq<Seq<char>>>,
) -> Result<Seq<Seq<char>>, Seq<char>>
    decreases links.len(),
{
    if links.len() == 0 {
        Ok(Seq::empty())
    } else {
        match transitive_outputs(nodes, links.drop_last(), outputs) {
            Err(e) => Err(e),
            Ok(head) => {
                let link = links.last();
                if outputs.contains_key(link.spec_key()) {
                    Ok(head + outputs[link.spec_key()])
                } else {
                    Err(
                        missing_transitive_output_message(
                            nodes[link.spec_index()].spec_name(),
                        ),
                    )
                }
            },
        }
    }
}

/// What linking against `links` brings to the link line: for each link in
/// turn its outputs, then the outputs of everything that has to be linked
/// along with it. The first library without noted outputs is refused by
/// name.
pub open spec fn link_outputs(
    nodes: Seq<LinkNode>,
    links: Seq<LinkPtr>,
    outputs: Map<usize, Seq<Seq<char>>>,
) -> Result<Seq<Seq<char>>, Seq<char>>
    decreases links.len(),
{
    if links.len() == 0 {
        Ok(Seq::empty())
    } else {
        match link_outputs(nodes, links.drop_last(), outputs) {
            Err(e) => Err(e),
            Ok(head) => {
                let link = links.last();
                if outputs.contains_key(link.spec_key()) {
                    match transitive_outputs(
                        nodes,
                        links_recursive(nodes, link.spec_index()),
                        outputs,
                    ) {
                        Err(e) => Err(e),
                        Ok(more) => Ok(head + outputs[link.spec_key()] + more),
                    }
                } else {
                    Err(missing_output_message(nodes[link.spec_index()].spec_name()))
                }
            },
        }
    }
}

/// A failure among the first `n` libraries is the failure of the whole
/// list.
pub proof fn lemma_transitive_outputs_prefix(
    nodes: Seq<LinkNode>,
    links: Seq<LinkPtr>,
    outputs: Map<usize, Seq<Seq<char>>>,
    n: int,
)
    requires
        0 <= n <= links.len(),
        transitive_outputs(nodes, links.take(n), outputs) is Err,
    ensures
        transitive_outputs(nodes, links, outputs) == transitive_outputs(
            nodes,
            links.take(n),
            outputs,
        ),
    decreases links.len() - n,
{
    if n < links.len() {
        assert(links.take(n + 1).drop_last() =~= links.take(n));
        lemma_transitive_outputs_prefix(nodes, links, outputs, n + 1);
    } else {
        assert(links.take(n) =~= links);
    }
}

/// A failure among the first `n` links is the failure of the whole list.
pub proof fn lemma_link_outputs_prefix(
    nodes: Seq<LinkNode>,
    links: Seq<LinkPtr>,
    outputs: Map<usize, Seq<Seq<char>>>,
    n: int,
)
    requires
        0 <= n <= links.len(),
        link_outputs(nodes, links.take(n), outputs) is Err,
    ensures
        link_outputs(nodes, links, outputs) == link_outputs(nodes, links.take(n), outputs),
    decreases links.len() - n,
{
    if n < links.len() {
        assert(links.take(n + 1).drop_last() =~= links.take(n));
        lemma_link_outputs_prefix(nodes, links, outputs, n + 1);
    } else {
        assert(links.take(n) =~= links);
    }
}

/// The edges of a program: one for each source, one that links the
/// object files with what the program's links bring, every file once, and
/// one that lets the program's name stand for the program.
#[verifier::opaque]
pub open spec fn executable_step(
    nodes: Seq<LinkNode>,
    exe: &Executable,
    opts: &GeneratorOpts,
    st: NinjaStateView,
) -> Result<NinjaStateView, Seq<char>> {
    match prepared(
        exe.sources@,
        collected(nodes, exe.links@, exe.own(Property::Includes), Property::Includes),
        collected(nodes, exe.links@, exe.own(Property::Defines), Property::Defines),
        vars_or_empty(exe.generator_vars),
    ) {
        Err(e) => Err(e),
        Ok((sources, data)) => match obj_sources_step(
            opts,
            sources,
            exe.name@,
            exe.project@,
            data,
            true,
            StepState { rules: st.rules, lines: st.lines, inputs: Seq::empty() },
        ) {
            Err(e) => Err(e),
            Ok(s1) => match link_outputs(nodes, exe.links@, st.outputs) {
                Err(e) => Err(e),
                Ok(linked) => {
                    if s1.rules.link_exe is None && opts.toolchain.exe_linker is None {
                        Err(no_exe_linker_message(exe.name@))
                    } else {
                        let rule = match s1.rules.link_exe {
                            Some(r) => r,
                            None => spec_link_exe(opts.toolchain.exe_linker->0.spec_cmd()),
                        };
                        let pie = match opts.toolchain.exe_linker {
                            Some(l) => pic_part(
                                opts.global_opts.position_independent_code,
                                l.spec_position_independent_executable_flag(),
                            ),
                            None => Seq::empty(),
                        };
                        let out_name = spec_output_path(
                            opts.build_dir@,
                            exe.project@.name,
                            exe.name@,
                            opts.target_platform.exe_ext@,
                        );
                        Ok(
                            NinjaStateView {
                                rules: NinjaRulesView { link_exe: Some(rule), ..s1.rules },
                                lines: s1.lines + seq![
                                    program_edge(
                                        dedup(s1.inputs + linked),
                                        out_name,
                                        rule.name,
                                        pie + collected(
                                            nodes,
                                            exe.links@,
                                            exe.own(Property::LinkFlags),
                                            Property::LinkFlags,
                                        ),
                                    ),
                                    phony_edge(out_name, exe.name@),
                                ],
                                outputs: st.outputs,
                            },
                        )
                    }
                },
            },
        },
    }
}

/// How far a program gets that fails: the edges that compile its sources
/// are written as far as compiling got; no edge links it, no edge lets
/// its name stand for it, and the outputs that were noted stay as they
/// were.
pub open spec fn executable_reached(
    nodes: Seq<LinkNode>,
    exe: &Executable,
    opts: &GeneratorOpts,
    st: NinjaStateView,
) -> NinjaStateView {
    compile_reached(
        opts,
        prepared(
            exe.sources@,
            collected(nodes, exe.links@, exe.own(Property::Includes), Property::Includes),
            collected(nodes, exe.links@, exe.own(Property::Defines), Property::Defines),
            vars_or_empty(exe.generator_vars),
        ),
        exe.name@,
        exe.project@,
        true,
        st,
    )
}

/// The outputs of the libraries `links`, one after the other.
fn collect_transitive_outputs(
    graph: &TargetGraph,
    links: &Vec<LinkPtr>,
    state: &NinjaState,
    found: &mut Vec<String>,
) -> (r: Result<(), String>)
    requires
        all_named(graph@, links@),
    ensures
        match transitive_outputs(graph@, links@, state@.outputs) {
            Ok(v) => r is Ok && texts(final(found)@) == texts(old(found)@) + v,
            Err(e) => r matches Err(m) && m@ == e,
        },
{
    let mut i: usize = 0;
    assert(texts(found@) + Seq::<Seq<char>>::empty() =~= texts(found@));
    while i < links.len()
        invariant
            i <= links@.len(),
            all_named(graph@, links@),
            transitive_outputs(graph@, links@.take(i as int), state@.outputs) matches Ok(v)
                && texts(found@) == texts(old(found)@) + v,
        decreases links@.len() - i,
    {
        proof {
            assert(links@.take(i + 1).drop_last() =~= links@.take(i as int));
        }
        let link = links[i];
        let ghost before = texts(found@);
        match state.recorded(link.index()) {
            Some(x) => {
                extend_strings(found, x);
                proof {
                    let head = transitive_outputs(
                        graph@,
                        links@.take(i as int),
                        state@.outputs,
                    )->Ok_0;
                    assert(texts(found@) =~= texts(old(found)@) + (head
                        + state@.outputs[link.spec_key()]));
                }
            },
            None => {
                assert(names(graph@, links@[i as int]));
                let mut msg: String = "Transitive output target not found: ".to_owned();
                match graph.get(link) {
                    Some(node) => {
                        msg.append(node.name());
                    },
                    None => {},
                }
                proof {
                    lemma_transitive_outputs_prefix(graph@, links@, state@.outputs, i + 1);
                }
                return Err(msg);
            },
        }
        i += 1;
    }
    assert(links@.take(links@.len() as int) =~= links@);
    Ok(())
}

/// What linking against `links` brings to the link line.
fn collect_link_outputs(
    graph: &TargetGraph,
    links: &Vec<LinkPtr>,
    state: &NinjaState,
    found: &mut Vec<String>,
) -> (r: Result<(), String>)
    requires
        all_named(graph@, links@),
    ensures
        match link_outputs(graph@, links@, state@.outputs) {
            Ok(v) => r is Ok && texts(final(found)@) == texts(old(found)@) + v,
            Err(e) => r matches Err(m) && m@ == e,
        },
{
    let mut i: usize = 0;
    assert(texts(found@) + Seq::<Seq<char>>::empty() =~= texts(found@));
    while i < links.len()
        invariant
            i <= links@.len(),
            all_named(graph@, links@),
            link_outputs(graph@, links@.take(i as int), state@.outputs) matches Ok(v) && texts(
                found@,
            ) == texts(old(found)@) + v,
        decreases links@.len() - i,
    {
        proof {
            assert(links@.take(i + 1).drop_last() =~= links@.take(i as int));
        }
        let link = links[i];
        assert(names(graph@, links@[i as int]));
        let ghost before = texts(found@);
        let ghost head = link_outputs(graph@, links@.take(i as int), state@.outputs)->Ok_0;
        match state.recorded(link.index()) {
            Some(x) => {
                extend_strings(found, x);
            },
            None => {
                let mut msg: String = "Output target not found: ".to_owned();
                match graph.get(link) {
                    Some(node) => {
                        msg.append(node.name());
                    },
                    None => {},
                }
                proof {
                    lemma_link_outputs_prefix(graph@, links@, state@.outputs, i + 1);
                }
                return Err(msg);
            },
        }
        let more = graph.public_links_recursive(link);
        graph.well_formedness_of(link);
        match collect_transitive_outputs(graph, &more, state, found) {
            Ok(()) => {},
            Err(e) => {
                proof {
                    lemma_link_outputs_prefix(graph@, links@, state@.outputs, i + 1);
                }
                return Err(e);
            },
        }
        proof {
            let t = transitive_outputs(graph@, more@, state@.outputs)->Ok_0;
            assert(texts(found@) =~= texts(old(found)@) + (head + state@.outputs[link.spec_key()]
                + t));
        }
        i += 1;
    }
    assert(links@.take(links@.len() as int) =~= links@);
    Ok(())
}

/// Writes the edges of a program: one for each source, one that links
/// the object files with what the program's links bring, every file once,
/// and one that lets the program's name stand for the program. Where it
/// fails, only edges that compile sources of the program were written.
pub fn add_executable_target(
    graph: &TargetGraph,
    exe: &Executable,
    opts: &GeneratorOpts,
    state: &mut NinjaState,
) -> (r: Result<(), String>)
    requires
        all_named(graph@, exe.links@),
    ensures
        match executable_step(graph@, exe, opts, old(state)@) {
            Ok(st) => r is Ok && final(state)@ == st,
            Err(e) => r matches Err(m) && m@ == e && final(state)@ == executable_reached(
                graph@,
                exe,
                opts,
                old(state)@,
            ),
        },
{
    proof {
        reveal(executable_step);
    }
    let mut inputs: Vec<String> = Vec::new();
    assert(texts(inputs@) =~= Seq::<Seq<char>>::empty());
    let includes = exe.public_includes_recursive(graph);
    let defines = exe.public_defines_recursive(graph);
    let (sources, data) = match prepare(&exe.sources, includes, defines, &exe.generator_vars) {
        Ok(x) => x,
        Err(e) => {
            return Err(e);
        },
    };
    match add_obj_sources(
        &sources,
        opts,
        exe.name.as_str(),
        &exe.project,
        &data,
        true,
        &mut state.rules,
        &mut state.build_lines,
        &mut inputs,
    ) {
        Ok(()) => {},
        Err(e) => {
            return Err(e);
        },
    }
    match collect_link_outputs(graph, &exe.links, state, &mut inputs) {
        Ok(()) => {},
        Err(e) => {
            return Err(e);
        },
    }
    // The same file is never handed to the linker twice.
    let inputs = deduplicate(inputs);
    let rule_name = match &state.rules.link_exe {
        Some(x) => x.name.clone(),
        None => {
            let exe_linker = match &opts.toolchain.exe_linker {
                Some(x) => x,
                None => {
                    let mut msg: String =
                        "No executable linker specified in toolchain. An executable linker is required to build \"".to_owned();
                    msg.append(exe.name.as_str());
                    msg.append("\".");
                    return Err(msg);
                },
            };
            let rule = link_exe(exe_linker);
            let rule_name = rule.name.clone();
            state.rules.link_exe = Some(rule);
            rule_name
        },
    };
    let mut link_flags: Vec<String> = Vec::new();
    assert(texts(link_flags@) =~= Seq::<Seq<char>>::empty());
    if let Some(true) = opts.global_opts.position_independent_code {
        if let Some(linker) = &opts.toolchain.exe_linker {
            if let Some(pie_flag) = linker.position_independent_executable_flag() {
                link_flags.push(pie_flag);
                assert(texts(link_flags@) =~= seq![pie_flag@]);
            }
        }
    }
    let own_flags = exe.link_flags_recursive(graph);
    extend_strings(&mut link_flags, &own_flags);
    let out_name = output_path(
        opts.build_dir.as_str(),
        exe.project.name.as_str(),
        exe.name.as_str(),
        opts.target_platform.exe_ext.as_str(),
    );
    let ghost lines_before = state.build_lines@;
    let ghost inputs_text = texts(inputs@);
    let ghost flags_text = texts(link_flags@);
    let mut keyval_set: Vec<(String, Vec<String>)> = Vec::new();
    keyval_set.push(("TARGET_FILE".to_owned(), single(out_name.clone())));
    keyval_set.push(("LINK_FLAGS".to_owned(), link_flags));
    let link = NinjaBuild {
        inputs,
        output_targets: single(out_name.clone()),
        rule_name,
        keyval_set,
    };
    proof {
        assert(link@.keyval_set =~= seq![
            ("TARGET_FILE"@, seq![out_name@]),
            ("LINK_FLAGS"@, flags_text),
        ]);
        assert(link@ == program_edge(inputs_text, out_name@, rule_name@, flags_text));
    }
    state.build_lines.push(link);
    let phony = NinjaBuild {
        inputs: single(out_name),
        output_targets: single(exe.name.clone()),
        rule_name: "phony".to_owned(),
        keyval_set: Vec::new(),
    };
    proof {
        assert(phony@.keyval_set =~= Seq::empty());
        assert(phony@ == phony_edge(out_name@, exe.name@));
    }
    state.build_lines.push(phony);
    proof {
        assert(build_views(state.build_lines@) =~= build_views(lines_before) + seq![
            program_edge(inputs_text, out_name@, rule_name@, flags_text),
            phony_edge(out_name@, exe.name@),
        ]);
        assert(Seq::<Seq<char>>::empty() + flags_text =~= flags_text);
    }
    Ok(())
}

} // verus!
