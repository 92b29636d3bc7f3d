//! The edges of one target.

use std::collections::HashMap;
use vstd::prelude::*;
use super::edge::{build_views, single, NinjaBuild, NinjaBuildView, SourceData, SourceDataView};
use super::paths::{output_path, spec_output_path};
use super::rule::{link_static_lib, spec_link_static_lib, NinjaRules, NinjaRulesView};
use super::sources::{add_obj_sources, obj_sources_reached, obj_sources_step, StepState};
use super::GeneratorOpts;
use crate::generator_vars::{vars_or_empty, GeneratorVars, GeneratorVarsView};
use crate::graph::{links_recursive, names, surface, LinkNode, TargetGraph};
use crate::link_type::{LinkPtr, Property};
use crate::misc::{
    clone_paths, first_unknown, full_path_list, full_paths, unknown_source_message, Sources,
    SourcesView,
};
use crate::project::ProjectInfoView;
use crate::target::Target;
use crate::text::texts;
use crate::unique::{clone_strings, extend_strings, push_unique, push_unique_string};

verus! {

/// The outputs that were noted, by the place of the library in the graph.
pub open spec fn output_views(m: Map<usize, Vec<String>>) -> Map<usize, Seq<Seq<char>>> {
    Map::new(|k: usize| m.contains_key(k), |k: usize| texts(m[k]@))
}

/// What a run of the generator has made so far: the rules, the edges, and
/// for every library that was dealt with the files that linking it means
/// linking.
#[derive(Debug)]
pub struct NinjaState {
    pub rules: NinjaRules,
    pub build_lines: Vec<NinjaBuild>,
    pub link_targets: HashMap<usize, Vec<String>>,
}

/// The mathematical value of [`NinjaState`].
pub struct NinjaStateView {
    pub rules: NinjaRulesView,
    pub lines: Seq<NinjaBuildView>,
    pub outputs: Map<usize, Seq<Seq<char>>>,
}

impl NinjaStateView {
    /// Nothing made yet.
    pub open spec fn empty() -> NinjaStateView {
        NinjaStateView { rules: NinjaRulesView::empty(), lines: Seq::empty(), outputs: Map::empty() }
    }
}

impl View for NinjaState {
    type V = NinjaStateView;

    open spec fn view(&self) -> NinjaStateView {
        NinjaStateView {
            rules: self.rules@,
            lines: build_views(self.build_lines@),
            outputs: output_views(self.link_targets@),
        }
    }
}

impl NinjaState {
    /// Nothing made yet.
    pub fn new() -> (r: Self)
        ensures
            r@ == NinjaStateView::empty(),
    {
        let r = NinjaState {
            rules: NinjaRules::default(),
            build_lines: Vec::new(),
            link_targets: HashMap::new(),
        };
        assert(r@.lines =~= Seq::empty());
        assert(r@.outputs =~= Map::empty());
        r
    }

    /// Notes the outputs of the library at `at`.
    pub fn record(&mut self, at: usize, outputs: Vec<String>)
        ensures
            final(self)@.rules == old(self)@.rules,
            final(self)@.lines == old(self)@.lines,
            final(self)@.outputs == old(self)@.outputs.insert(at, texts(outputs@)),
    {
        self.link_targets.insert(at, outputs);
        assert(self@.outputs =~= old(self)@.outputs.insert(at, texts(outputs@)));
    }

    /// Whether outputs were noted for the library at `at`.
    pub fn is_recorded(&self, at: usize) -> (r: bool)
        ensures
            r == self@.outputs.contains_key(at),
    {
        self.link_targets.contains_key(&at)
    }

    /// The outputs that were noted for the library at `at`.
    pub fn recorded(&self, at: usize) -> (r: Option<&Vec<String>>)
        ensures
            self@.outputs.contains_key(at) ==> (r matches Some(v) && texts(v@)
                == self@.outputs[at]),
            !self@.outputs.contains_key(at) ==> r is None,
    {
        self.link_targets.get(&at)
    }
}

/// What a target is compiled from and with, once the additions of its
/// generator function are taken in. An added source whose language is
/// unknown is refused.
pub open spec fn prepared(
    sources: SourcesView,
    includes: Seq<Seq<char>>,
    defines: Seq<Seq<char>>,
    vars: GeneratorVarsView,
) -> Result<(SourcesView, SourceDataView), Seq<char>> {
    match first_unknown(vars.sources) {
        Some(i) => Err(unknown_source_message(vars.sources[i].name)),
        None => Ok(
            (
                sources.extended_with(SourcesView::split(vars.sources)),
                SourceDataView {
                    includes: includes + full_paths(vars.include_dirs),
                    defines: defines + vars.defines,
                },
            ),
        ),
    }
}

/// Takes the additions of a generator function in.
pub fn prepare(
    sources: &Sources,
    includes: Vec<String>,
    defines: Vec<String>,
    vars: &Option<GeneratorVars>,
) -> (r: Result<(Sources, SourceData), String>)
    ensures
        match prepared(sources@, texts(includes@), texts(defines@), vars_or_empty(*vars)) {
            Ok((s, d)) => r matches Ok((rs, rd)) && rs@ == s && rd@ == d,
            Err(e) => r matches Err(m) && m@ == e,
        },
{
    let mut includes = includes;
    let mut defines = defines;
    match vars {
        Some(v) => {
            let extra = match Sources::from_slice(clone_paths(&v.sources)) {
                Ok(x) => x,
                Err(e) => {
                    return Err(e);
                },
            };
            let dirs = full_path_list(&v.include_dirs);
            extend_strings(&mut includes, &dirs);
            extend_strings(&mut defines, &v.defines);
            Ok((sources.extended_with(extra), SourceData { includes, defines }))
        },
        None => {
            let extra = Sources::default();
            proof {
                let e = Seq::<crate::misc::SourcePathView>::empty();
                assert(SourcesView::split(e) == SourcesView::empty());
                assert(texts(includes@) + full_paths(e) =~= texts(includes@));
                assert(texts(defines@) + Seq::<Seq<char>>::empty() =~= texts(defines@));
            }
            Ok((sources.extended_with(extra), SourceData { includes, defines }))
        },
    }
}

/// Compiling the sources of the library at `at`, with the header
/// directories and definitions that its public links hand on, then its
/// own private ones, then those that its generator function added.
pub open spec fn library_compile_step(
    nodes: Seq<LinkNode>,
    at: int,
    opts: &GeneratorOpts,
    st: NinjaStateView,
) -> Result<StepState, Seq<char>> {
    let node = nodes[at];
    match prepared(
        node.spec_sources(),
        surface(nodes, at, Property::Includes) + node.spec_private_includes(),
        surface(nodes, at, Property::Defines) + node.spec_private_defines(),
        node.spec_vars(),
    ) {
        Err(e) => Err(e),
        Ok((sources, data)) => obj_sources_step(
            opts,
            sources,
            node.spec_name(),
            node.spec_project(),
            data,
            false,
            StepState { rules: st.rules, lines: st.lines, inputs: Seq::empty() },
        ),
    }
}

/// How far a target gets that fails: the edges that compile its sources
/// are written as far as compiling got, and nothing else is. No edge
/// links it, no edge lets its name stand for it, and the outputs that
/// were noted stay as they were. `prepared` is what the target is
/// compiled from and with.
pub open spec fn compile_reached(
    opts: &GeneratorOpts,
    prepared: Result<(SourcesView, SourceDataView), Seq<char>>,
    name: Seq<char>,
    project: ProjectInfoView,
    executable: bool,
    st: NinjaStateView,
) -> NinjaStateView {
    match prepared {
        Err(_) => st,
        Ok((sources, data)) => {
            let s = obj_sources_reached(
                opts,
                sources,
                name,
                project,
                data,
                executable,
                StepState { rules: st.rules, lines: st.lines, inputs: Seq::empty() },
            );
            NinjaStateView { rules: s.rules, lines: s.lines, outputs: st.outputs }
        },
    }
}

/// How far the library at `at` gets when it fails.
pub open spec fn library_reached(
    nodes: Seq<LinkNode>,
    at: int,
    opts: &GeneratorOpts,
    st: NinjaStateView,
) -> NinjaStateView {
    let node = nodes[at];
    compile_reached(
        opts,
        prepared(
            node.spec_sources(),
            surface(nodes, at, Property::Includes) + node.spec_private_includes(),
            surface(nodes, at, Property::Defines) + node.spec_private_defines(),
            node.spec_vars(),
        ),
        node.spec_name(),
        node.spec_project(),
        false,
        st,
    )
}

/// The edge that archives `inputs` into `out_name`.
pub open spec fn archive_edge(
    inputs: Seq<Seq<char>>,
    out_name: Seq<char>,
    rule_name: Seq<char>,
) -> NinjaBuildView {
    NinjaBuildView {
        inputs,
        output_targets: seq![out_name],
        rule_name,
        keyval_set: seq![("TARGET_FILE"@, seq![out_name]), ("LINK_FLAGS"@, Seq::empty())],
    }
}

/// The edge that links `inputs` into the program `out_name`.
pub open spec fn program_edge(
    inputs: Seq<Seq<char>>,
    out_name: Seq<char>,
    rule_name: Seq<char>,
    link_flags: Seq<Seq<char>>,
) -> NinjaBuildView {
    NinjaBuildView {
        inputs,
        output_targets: seq![out_name],
        rule_name,
        keyval_set: seq![("TARGET_FILE"@, seq![out_name]), ("LINK_FLAGS"@, link_flags)],
    }
}

/// The edge that lets the bare name of a target stand for what is built
/// from it.
pub open spec fn phony_edge(out_name: Seq<char>, name: Seq<char>) -> NinjaBuildView {
    NinjaBuildView {
        inputs: seq![out_name],
        output_targets: seq![name],
        rule_name: "phony"@,
        keyval_set: Seq::empty(),
    }
}

/// The message for a static library where the toolchain has no tool to
/// archive it.
pub open spec fn no_static_linker_message(name: Seq<char>) -> Seq<char> {
    "No static linker specified in toolchain. A static linker is required to build \""@ + name
        + "\"."@
}

/// The message for a program where the toolchain has no linker.
pub open spec fn no_exe_linker_message(name: Seq<char>) -> Seq<char> {
    "No executable linker specified in toolchain. An executable linker is required to build \""@
        + name + "\"."@
}

/// Where the archive of the static library at `at` is put.
pub open spec fn archive_path(nodes: Seq<LinkNode>, at: int, opts: &GeneratorOpts) -> Seq<char> {
    spec_output_path(
        opts.build_dir@,
        nodes[at].spec_project().name,
        nodes[at].spec_output_name(),
        opts.target_platform.static_lib_ext@,
    )
}

/// The edges of the static library at `at`: one for each source, one that
/// archives the object files, and one that lets the library's name stand
/// for the archive. The archive is noted as the library's output.
#[verifier::opaque]
pub open spec fn static_lib_step(
    nodes: Seq<LinkNode>,
    ptr: LinkPtr,
    opts: &GeneratorOpts,
    st: NinjaStateView,
) -> Result<(NinjaStateView, Seq<Seq<char>>), Seq<char>> {
    let at = ptr.spec_index();
    match library_compile_step(nodes, at, opts, st) {
        Err(e) => Err(e),
        Ok(s1) => {
            let out_name = archive_path(nodes, at, opts);
            if s1.rules.link_static_lib is None && opts.toolchain.static_linker is None {
                Err(no_static_linker_message(nodes[at].spec_name()))
            } else {
                let rule = match s1.rules.link_static_lib {
                    Some(r) => r,
                    None => spec_link_static_lib(texts(opts.toolchain.static_linker->0@)),
                };
                Ok(
                    (
                        NinjaStateView {
                            rules: NinjaRulesView { link_static_lib: Some(rule), ..s1.rules },
                            lines: s1.lines + seq![
                                archive_edge(s1.inputs, out_name, rule.name),
                                phony_edge(out_name, nodes[at].spec_name()),
                            ],
                            outputs: st.outputs.insert(ptr.spec_key(), seq![out_name]),
                        },
                        seq![out_name],
                    ),
                )
            }
        },
    }
}

/// `acc` with the archive of every static library among `links` added,
/// each once.
pub open spec fn with_archives(
    nodes: Seq<LinkNode>,
    links: Seq<LinkPtr>,
    opts: &GeneratorOpts,
    acc: Seq<Seq<char>>,
) -> Seq<Seq<char>>
    decreases links.len(),
{
    if links.len() == 0 {
        acc
    } else {
        let head = with_archives(nodes, links.drop_last(), opts, acc);
        if links.last() is Static {
            push_unique(head, archive_path(nodes, links.last().spec_index(), opts))
        } else {
            head
        }
    }
}

/// The edges of the object library at `at`: one for each source. Its
/// outputs are its object files and the archive of every static library
/// that has to be linked along with it.
#[verifier::opaque]
pub open spec fn object_lib_step(
    nodes: Seq<LinkNode>,
    ptr: LinkPtr,
    opts: &GeneratorOpts,
    st: NinjaStateView,
) -> Result<(NinjaStateView, Seq<Seq<char>>), Seq<char>> {
    let at = ptr.spec_index();
    match library_compile_step(nodes, at, opts, st) {
        Err(e) => Err(e),
        Ok(s1) => {
            let outputs = with_archives(nodes, links_recursive(nodes, at), opts, s1.inputs);
            Ok(
                (
                    NinjaStateView {
                        rules: s1.rules,
                        lines: s1.lines,
                        outputs: st.outputs.insert(ptr.spec_key(), outputs),
                    },
                    outputs,
                ),
            )
        },
    }
}

/// Compiles the sources of a static or object library.
fn compile_library(
    graph: &TargetGraph,
    ptr: LinkPtr,
    opts: &GeneratorOpts,
    state: &mut NinjaState,
    inputs: &mut Vec<String>,
) -> (r: Result<(), String>)
    requires
        names(graph@, ptr),
        !(ptr is Interface),
        old(inputs)@.len() == 0,
    ensures
        final(state)@.outputs == old(state)@.outputs,
        match library_compile_step(graph@, ptr.spec_index(), opts, old(state)@) {
            Ok(s1) => r is Ok && final(state)@.rules == s1.rules && final(state)@.lines
                == s1.lines && texts(final(inputs)@) == s1.inputs,
            Err(e) => r matches Err(m) && m@ == e,
        },
        final(state)@ == library_reached(graph@, ptr.spec_index(), opts, old(state)@),
{
    assert(texts(inputs@) =~= Seq::<Seq<char>>::empty());
    let mut includes = graph.public_includes_recursive(ptr);
    let mut defines = graph.public_defines_recursive(ptr);
    match graph.get(ptr) {
        Some(LinkNode::Static(lib)) => {
            extend_strings(&mut includes, &lib.private_includes());
            extend_strings(&mut defines, &lib.private_defines());
            let (sources, data) = match prepare(
                &lib.sources,
                includes,
                defines,
                &lib.generator_vars,
            ) {
                Ok(x) => x,
                Err(e) => {
                    return Err(e);
                },
            };
            add_obj_sources(
                &sources,
                opts,
                lib.name.as_str(),
                &lib.project,
                &data,
                false,
                &mut state.rules,
                &mut state.build_lines,
                inputs,
            )
        },
        Some(LinkNode::Object(lib)) => {
            extend_strings(&mut includes, &lib.private_includes());
            extend_strings(&mut defines, &lib.private_defines());
            let (sources, data) = match prepare(
                &lib.sources,
                includes,
                defines,
                &lib.generator_vars,
            ) {
                Ok(x) => x,
                Err(e) => {
                    return Err(e);
                },
            };
            add_obj_sources(
                &sources,
                opts,
                lib.name.as_str(),
                &lib.project,
                &data,
                false,
                &mut state.rules,
                &mut state.build_lines,
                inputs,
            )
        },
        _ => vstd::pervasive::unreached(),
    }
}

/// Where the archive of a static library is put.
fn archive_path_of(graph: &TargetGraph, ptr: LinkPtr, opts: &GeneratorOpts) -> (r: String)
    requires
        names(graph@, ptr),
    ensures
        r@ == archive_path(graph@, ptr.spec_index(), opts),
{
    match graph.get(ptr) {
        Some(node) => output_path(
            opts.build_dir.as_str(),
            node.project().name.as_str(),
            node.output_name(),
            opts.target_platform.static_lib_ext.as_str(),
        ),
        None => vstd::pervasive::unreached(),
    }
}

/// The name of a library of the graph.
fn name_of(graph: &TargetGraph, ptr: LinkPtr) -> (r: String)
    requires
        names(graph@, ptr),
    ensures
        r@ == graph@[ptr.spec_index()].spec_name(),
{
    match graph.get(ptr) {
        Some(node) => node.name().to_owned(),
        None => vstd::pervasive::unreached(),
    }
}

/// Writes the edges of a static library: one for each source, one that
/// archives the object files, and one that lets the library's name stand
/// for the archive. Gives the library's outputs, which are noted in
/// `state` too. Where it fails, only edges that compile sources of the
/// library were written.
pub fn add_static_lib_target(
    graph: &TargetGraph,
    ptr: LinkPtr,
    opts: &GeneratorOpts,
    state: &mut NinjaState,
) -> (r: Result<Vec<String>, String>)
    requires
        names(graph@, ptr),
        ptr is Static,
    ensures
        match static_lib_step(graph@, ptr, opts, old(state)@) {
            Ok((st, out)) => r matches Ok(v) && texts(v@) == out && final(state)@ == st,
            Err(e) => r matches Err(m) && m@ == e && final(state)@ == library_reached(
                graph@,
                ptr.spec_index(),
                opts,
                old(state)@,
            ),
        },
{
    proof {
        reveal(static_lib_step);
    }
    let mut inputs: Vec<String> = Vec::new();
    match compile_library(graph, ptr, opts, state, &mut inputs) {
        Ok(()) => {},
        Err(e) => {
            return Err(e);
        },
    }
    let name = name_of(graph, ptr);
    let out_name = archive_path_of(graph, ptr, opts);
    let rule_name = match &state.rules.link_static_lib {
        Some(x) => x.name.clone(),
        None => {
            let static_linker = match &opts.toolchain.static_linker {
                Some(x) => x,
                None => {
                    let mut msg: String =
                        "No static linker specified in toolchain. A static linker is required to build \"".to_owned();
                    msg.append(name.as_str());
                    msg.append("\".");
                    return Err(msg);
                },
            };
            let rule = link_static_lib(static_linker);
            let rule_name = rule.name.clone();
            state.rules.link_static_lib = Some(rule);
            rule_name
        },
    };
    let ghost lines_before = state.build_lines@;
    let ghost inputs_text = texts(inputs@);
    let output_targets = single(out_name.clone());
    let mut keyval_set: Vec<(String, Vec<String>)> = Vec::new();
    keyval_set.push(("TARGET_FILE".to_owned(), single(out_name.clone())));
    let no_flags: Vec<String> = Vec::new();
    assert(texts(no_flags@) =~= Seq::<Seq<char>>::empty());
    keyval_set.push(("LINK_FLAGS".to_owned(), no_flags));
    let archive = NinjaBuild {
        inputs,
        output_targets: single(out_name.clone()),
        rule_name,
        keyval_set,
    };
    proof {
        assert(archive@.keyval_set =~= seq![
            ("TARGET_FILE"@, seq![out_name@]),
            ("LINK_FLAGS"@, Seq::<Seq<char>>::empty()),
        ]);
        assert(archive@ == archive_edge(inputs_text, out_name@, rule_name@));
    }
    state.build_lines.push(archive);
    let phony = NinjaBuild {
        inputs: single(out_name),
        output_targets: single(name),
        rule_name: "phony".to_owned(),
        keyval_set: Vec::new(),
    };
    proof {
        assert(phony@.keyval_set =~= Seq::empty());
        assert(phony@ == phony_edge(out_name@, name@));
    }
    state.build_lines.push(phony);
    proof {
        assert(build_views(state.build_lines@) =~= build_views(lines_before) + seq![
            archive_edge(inputs_text, out_name@, rule_name@),
            phony_edge(out_name@, name@),
        ]);
    }
    state.record(ptr.index(), clone_strings(&output_targets));
    Ok(output_targets)
}

/// Notes the outputs of an object library and writes the edges that
/// compile its sources. Its outputs are its object files and the archive
/// of every static library that has to be linked along with it; it has no
/// archive and no edge of its own name.
pub fn add_object_lib_target(
    graph: &TargetGraph,
    ptr: LinkPtr,
    opts: &GeneratorOpts,
    state: &mut NinjaState,
) -> (r: Result<Vec<String>, String>)
    requires
        names(graph@, ptr),
        ptr is Object,
    ensures
        match object_lib_step(graph@, ptr, opts, old(state)@) {
            Ok((st, out)) => r matches Ok(v) && texts(v@) == out && final(state)@ == st,
            Err(e) => r matches Err(m) && m@ == e && final(state)@ == library_reached(
                graph@,
                ptr.spec_index(),
                opts,
                old(state)@,
            ),
        },
{
    proof {
        reveal(object_lib_step);
    }
    let mut inputs: Vec<String> = Vec::new();
    match compile_library(graph, ptr, opts, state, &mut inputs) {
        Ok(()) => {},
        Err(e) => {
            return Err(e);
        },
    }
    let links = graph.public_links_recursive(ptr);
    let ghost start = texts(inputs@);
    graph.well_formedness_of(ptr);
    let mut i: usize = 0;
    while i < links.len()
        invariant
            i <= links@.len(),
            forall|k: int| 0 <= k < links@.len() ==> names(graph@, #[trigger] links@[k]),
            texts(inputs@) == with_archives(graph@, links@.take(i as int), opts, start),
        decreases links@.len() - i,
    {
        proof {
            assert(links@.take(i + 1).drop_last() =~= links@.take(i as int));
        }
        let link = links[i];
        match link {
            LinkPtr::Static(_) => {
                let link_path = archive_path_of(graph, link, opts);
                push_unique_string(&mut inputs, link_path.as_str());
            },
            LinkPtr::Object(_) => {},
            LinkPtr::Interface(_) => {},
        }
        i += 1;
    }
    assert(links@.take(links@.len() as int) =~= links@);
    state.record(ptr.index(), clone_strings(&inputs));
    Ok(inputs)
}

} // verus!
