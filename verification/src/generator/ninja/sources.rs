//! Compiling the sources of a target.

use vstd::prelude::*;
use super::edge::{
    add_obj_source, build_views, compile_edge, NinjaBuild, NinjaBuildView, SourceData,
    SourceDataView,
};
use super::paths::{input_path, output_subfolder_path, spec_input_path, spec_output_subfolder_path};
use super::rule::{
    assemble_nasm_object, compile_c_object, compile_cpp_object, spec_assemble_nasm_object,
    spec_compile_c_object, spec_compile_cpp_object, NinjaRuleView, NinjaRules, NinjaRulesView,
};
use super::GeneratorOpts;
use crate::misc::{path_views, SourceKind, SourcePath, SourcePathView, Sources, SourcesView};
use crate::project::{ProjectInfo, ProjectInfoView};
use crate::text::texts;
use crate::toolchain::compiler::{Assembler, Compiler};
use crate::unique::clone_strings;

verus! {

/// Whether the toolchain has no tool for sources of `kind`.
pub open spec fn tool_missing(opts: &GeneratorOpts, kind: SourceKind) -> bool {
    match kind {
        SourceKind::C => opts.toolchain.c_compiler is None,
        SourceKind::Cpp => opts.toolchain.cpp_compiler is None,
        SourceKind::Nasm => opts.toolchain.nasm_assembler is None,
    }
}

/// The message for a target with sources of `kind` where the toolchain
/// has no tool for them.
pub open spec fn missing_tool_message(kind: SourceKind, name: Seq<char>) -> Seq<char> {
    match kind {
        SourceKind::C =>
            "No C compiler specified in toolchain. A C compiler is required to build C sources in \""@
                + name + "\"."@,
        SourceKind::Cpp =>
            "No C++ compiler specified in toolchain. A C++ compiler is required to build C++ sources in \""@
                + name + "\"."@,
        SourceKind::Nasm =>
            "No NASM assembler specified in toolchain. A NASM assembler is required to build NASM sources in \""@
                + name + "\"."@,
    }
}

/// The flag for position-independent code, where it was asked for and
/// the tool has one.
pub open spec fn pic_part(asked: Option<bool>, flag: Option<Seq<char>>) -> Seq<Seq<char>> {
    if asked == Some(true) && flag is Some {
        seq![flag->0]
    } else {
        Seq::empty()
    }
}

/// `base` followed by the flag for the language standard, where one was
/// asked for. A standard that the compiler does not know is refused.
pub open spec fn with_std(base: Seq<Seq<char>>, flag: Option<Result<Seq<char>, Seq<char>>>) -> Result<
    Seq<Seq<char>>,
    Seq<char>,
> {
    match flag {
        None => Ok(base),
        Some(Ok(f)) => Ok(base.push(f)),
        Some(Err(e)) => Err(e),
    }
}

/// The flags that sources of `kind` are compiled with: those of the
/// profile, then the flag for the language standard, then the flag for
/// position-independent code, which differs between a library and a
/// program.
pub open spec fn compile_flags(opts: &GeneratorOpts, kind: SourceKind, executable: bool) -> Result<
    Seq<Seq<char>>,
    Seq<char>,
> {
    match kind {
        SourceKind::C => {
            let compiler = opts.toolchain.c_compiler->0;
            let std = match opts.global_opts.c_standard {
                Some(s) => Some(compiler.spec_c_std_flag(s@)),
                None => None,
            };
            match with_std(texts(opts.profile.c_compile_flags@), std) {
                Err(e) => Err(e),
                Ok(flags) => Ok(
                    flags + pic_part(
                        opts.global_opts.position_independent_code,
                        if executable {
                            compiler.spec_position_independent_executable_flag()
                        } else {
                            compiler.spec_position_independent_code_flag()
                        },
                    ),
                ),
            }
        },
        SourceKind::Cpp => {
            let compiler = opts.toolchain.cpp_compiler->0;
            let std = match opts.global_opts.cpp_standard {
                Some(s) => Some(compiler.spec_cpp_std_flag(s@)),
                None => None,
            };
            match with_std(texts(opts.profile.cpp_compile_flags@), std) {
                Err(e) => Err(e),
                Ok(flags) => Ok(
                    flags + pic_part(
                        opts.global_opts.position_independent_code,
                        if executable {
                            compiler.spec_position_independent_executable_flag()
                        } else {
                            compiler.spec_position_independent_code_flag()
                        },
                    ),
                ),
            }
        },
        SourceKind::Nasm => Ok(texts(opts.profile.nasm_assemble_flags@)),
    }
}

/// The rule for sources of `kind`, where there is one.
pub open spec fn rule_of(rules: NinjaRulesView, kind: SourceKind) -> Option<NinjaRuleView> {
    match kind {
        SourceKind::C => rules.compile_c_object,
        SourceKind::Cpp => rules.compile_cpp_object,
        SourceKind::Nasm => rules.assemble_nasm_object,
    }
}

/// The rule that the toolchain gives for sources of `kind`.
pub open spec fn fresh_rule(opts: &GeneratorOpts, kind: SourceKind) -> NinjaRuleView {
    match kind {
        SourceKind::C => spec_compile_c_object(
            opts.toolchain.c_compiler->0.spec_cmd(),
            opts.toolchain.c_compiler->0.spec_depfile_flags("$out"@, "$DEP_FILE"@),
            opts.toolchain.c_compiler->0.spec_out_flag(),
        ),
        SourceKind::Cpp => spec_compile_cpp_object(
            opts.toolchain.cpp_compiler->0.spec_cmd(),
            opts.toolchain.cpp_compiler->0.spec_depfile_flags("$out"@, "$DEP_FILE"@),
            opts.toolchain.cpp_compiler->0.spec_out_flag(),
        ),
        SourceKind::Nasm => spec_assemble_nasm_object(
            opts.toolchain.nasm_assembler->0.spec_cmd(),
            opts.toolchain.nasm_assembler->0.spec_depfile_flags("$out"@, "$DEP_FILE"@),
            opts.toolchain.nasm_assembler->0.spec_out_flag(),
        ),
    }
}

/// `rules` with a rule for sources of `kind`: the one that is there, or
/// else the one that the toolchain gives.
pub open spec fn ensured_rules(
    opts: &GeneratorOpts,
    rules: NinjaRulesView,
    kind: SourceKind,
) -> NinjaRulesView {
    if rule_of(rules, kind) is Some {
        rules
    } else {
        match kind {
            SourceKind::C => NinjaRulesView {
                compile_c_object: Some(fresh_rule(opts, kind)),
                ..rules
            },
            SourceKind::Cpp => NinjaRulesView {
                compile_cpp_object: Some(fresh_rule(opts, kind)),
                ..rules
            },
            SourceKind::Nasm => NinjaRulesView {
                assemble_nasm_object: Some(fresh_rule(opts, kind)),
                ..rules
            },
        }
    }
}

/// Where the object file of the source `src_name` of a target is put.
pub open spec fn object_path(
    opts: &GeneratorOpts,
    project_name: Seq<char>,
    target_name: Seq<char>,
    src_name: Seq<char>,
) -> Seq<char> {
    spec_output_subfolder_path(
        opts.build_dir@,
        project_name,
        target_name,
        src_name,
        opts.target_platform.obj_ext@,
    )
}

/// The edges that compile `srcs`, one for each source.
pub open spec fn group_edges(
    opts: &GeneratorOpts,
    srcs: Seq<SourcePathView>,
    name: Seq<char>,
    project: ProjectInfoView,
    data: SourceDataView,
    rule_name: Seq<char>,
    flags: Seq<Seq<char>>,
) -> Seq<NinjaBuildView> {
    Seq::new(
        srcs.len(),
        |i: int|
            compile_edge(
                spec_input_path(srcs[i].full, project.path),
                data,
                object_path(opts, project.name, name, srcs[i].name),
                rule_name,
                flags,
            ),
    )
}

/// The object files that `srcs` are compiled to.
pub open spec fn group_objects(
    opts: &GeneratorOpts,
    srcs: Seq<SourcePathView>,
    name: Seq<char>,
    project: ProjectInfoView,
) -> Seq<Seq<char>> {
    Seq::new(srcs.len(), |i: int| object_path(opts, project.name, name, srcs[i].name))
}

/// What compiling works on: the rules, the edges written so far, and the
/// object files of the target at hand.
pub struct StepState {
    pub rules: NinjaRulesView,
    pub lines: Seq<NinjaBuildView>,
    pub inputs: Seq<Seq<char>>,
}

/// Compiling the sources of one language. Without sources nothing
/// happens. With sources the toolchain has to have the tool and the tool
/// has to know the language standard that was asked for; then the rule is
/// made unless it is there, and every source gets an edge.
pub open spec fn group_step(
    opts: &GeneratorOpts,
    kind: SourceKind,
    srcs: Seq<SourcePathView>,
    name: Seq<char>,
    project: ProjectInfoView,
    data: SourceDataView,
    executable: bool,
    st: StepState,
) -> Result<StepState, Seq<char>> {
    if srcs.len() == 0 {
        Ok(st)
    } else if tool_missing(opts, kind) {
        Err(missing_tool_message(kind, name))
    } else {
        match compile_flags(opts, kind, executable) {
            Err(e) => Err(e),
            Ok(flags) => {
                let rules = ensured_rules(opts, st.rules, kind);
                Ok(
                    StepState {
                        rules,
                        lines: st.lines + group_edges(
                            opts,
                            srcs,
                            name,
                            project,
                            data,
                            rule_of(rules, kind)->0.name,
                            flags,
                        ),
                        inputs: st.inputs + group_objects(opts, srcs, name, project),
                    },
                )
            },
        }
    }
}

/// Compiling all sources of a target: the C sources, then the C++
/// sources, then the assembly sources. The first failure ends it.
pub open spec fn obj_sources_step(
    opts: &GeneratorOpts,
    sources: SourcesView,
    name: Seq<char>,
    project: ProjectInfoView,
    data: SourceDataView,
    executable: bool,
    st: StepState,
) -> Result<StepState, Seq<char>> {
    match group_step(opts, SourceKind::C, sources.c, name, project, data, executable, st) {
        Err(e) => Err(e),
        Ok(s1) => match group_step(
            opts,
            SourceKind::Cpp,
            sources.cpp,
            name,
            project,
            data,
            executable,
            s1,
        ) {
            Err(e) => Err(e),
            Ok(s2) => group_step(
                opts,
                SourceKind::Nasm,
                sources.nasm,
                name,
                project,
                data,
                executable,
                s2,
            ),
        },
    }
}

/// How far compiling all sources of a target gets, whether it ends well
/// or not: the sources of a language are compiled all or not at all, and
/// what was compiled before a failure stays.
pub open spec fn obj_sources_reached(
    opts: &GeneratorOpts,
    sources: SourcesView,
    name: Seq<char>,
    project: ProjectInfoView,
    data: SourceDataView,
    executable: bool,
    st: StepState,
) -> StepState {
    match group_step(opts, SourceKind::C, sources.c, name, project, data, executable, st) {
        Err(_) => st,
        Ok(s1) => match group_step(
            opts,
            SourceKind::Cpp,
            sources.cpp,
            name,
            project,
            data,
            executable,
            s1,
        ) {
            Err(_) => s1,
            Ok(s2) => match group_step(
                opts,
                SourceKind::Nasm,
                sources.nasm,
                name,
                project,
                data,
                executable,
                s2,
            ) {
                Err(_) => s2,
                Ok(s3) => s3,
            },
        },
    }
}

/// The C compiler of the toolchain, or the message that it lacks one.
pub fn get_c_compiler<'a>(opts: &'a GeneratorOpts, name: &str) -> (r: Result<
    &'a Box<dyn Compiler>,
    String,
>)
    ensures
        match opts.toolchain.c_compiler {
            Some(c) => r == Ok::<&Box<dyn Compiler>, String>(&opts.toolchain.c_compiler->0),
            None => r matches Err(e) && e@ == missing_tool_message(SourceKind::C, name@),
        },
{
    match &opts.toolchain.c_compiler {
        Some(x) => Ok(x),
        None => {
            let mut msg: String =
                "No C compiler specified in toolchain. A C compiler is required to build C sources in \"".to_owned();
            msg.append(name);
            msg.append("\".");
            Err(msg)
        },
    }
}

/// The C++ compiler of the toolchain, or the message that it lacks one.
pub fn get_cpp_compiler<'a>(opts: &'a GeneratorOpts, name: &str) -> (r: Result<
    &'a Box<dyn Compiler>,
    String,
>)
    ensures
        match opts.toolchain.cpp_compiler {
            Some(c) => r == Ok::<&Box<dyn Compiler>, String>(&opts.toolchain.cpp_compiler->0),
            None => r matches Err(e) && e@ == missing_tool_message(SourceKind::Cpp, name@),
        },
{
    match &opts.toolchain.cpp_compiler {
        Some(x) => Ok(x),
        None => {
            let mut msg: String =
                "No C++ compiler specified in toolchain. A C++ compiler is required to build C++ sources in \"".to_owned();
            msg.append(name);
            msg.append("\".");
            Err(msg)
        },
    }
}

/// The assembler of the toolchain, or the message that it lacks one.
pub fn get_nasm_assembler<'a>(opts: &'a GeneratorOpts, name: &str) -> (r: Result<
    &'a Box<dyn Assembler>,
    String,
>)
    ensures
        match opts.toolchain.nasm_assembler {
            Some(c) => r == Ok::<&Box<dyn Assembler>, String>(&opts.toolchain.nasm_assembler->0),
            None => r matches Err(e) && e@ == missing_tool_message(SourceKind::Nasm, name@),
        },
{
    match &opts.toolchain.nasm_assembler {
        Some(x) => Ok(x),
        None => {
            let mut msg: String =
                "No NASM assembler specified in toolchain. A NASM assembler is required to build NASM sources in \"".to_owned();
            msg.append(name);
            msg.append("\".");
            Err(msg)
        },
    }
}

/// Appends the flag for position-independent code, where it was asked
/// for and the tool has one.
fn push_pic(flags: &mut Vec<String>, asked: Option<bool>, flag: Option<String>)
    ensures
        texts(final(flags)@) == texts(old(flags)@) + pic_part(
            asked,
            crate::toolchain::compiler::option_text(flag),
        ),
{
    if let Some(true) = asked {
        if let Some(f) = flag {
            flags.push(f);
            assert(texts(flags@) =~= texts(old(flags)@) + seq![f@]);
            return ;
        }
    }
    assert(texts(flags@) + Seq::<Seq<char>>::empty() =~= texts(flags@));
}

/// The flags that sources of `kind` are compiled with.
pub(crate) fn compile_options(
    opts: &GeneratorOpts,
    kind: SourceKind,
    executable: bool,
) -> (r: Result<Vec<String>, String>)
    requires
        !tool_missing(opts, kind),
    ensures
        match compile_flags(opts, kind, executable) {
            Ok(flags) => r matches Ok(v) && texts(v@) == flags,
            Err(e) => r matches Err(m) && m@ == e,
        },
{
    match kind {
        SourceKind::C => {
            let compiler = match &opts.toolchain.c_compiler {
                Some(c) => c,
                None => vstd::pervasive::unreached(),
            };
            let mut flags = clone_strings(&opts.profile.c_compile_flags);
            if let Some(std) = &opts.global_opts.c_standard {
                match compiler.c_std_flag(std.as_str()) {
                    Ok(f) => {
                        flags.push(f);
                        assert(texts(flags@) =~= texts(opts.profile.c_compile_flags@).push(f@));
                    },
                    Err(e) => {
                        return Err(e);
                    },
                }
            }
            let pic = if executable {
                compiler.position_independent_executable_flag()
            } else {
                compiler.position_independent_code_flag()
            };
            push_pic(&mut flags, opts.global_opts.position_independent_code, pic);
            Ok(flags)
        },
        SourceKind::Cpp => {
            let compiler = match &opts.toolchain.cpp_compiler {
                Some(c) => c,
                None => vstd::pervasive::unreached(),
            };
            let mut flags = clone_strings(&opts.profile.cpp_compile_flags);
            if let Some(std) = &opts.global_opts.cpp_standard {
                match compiler.cpp_std_flag(std.as_str()) {
                    Ok(f) => {
                        flags.push(f);
                        assert(texts(flags@) =~= texts(opts.profile.cpp_compile_flags@).push(f@));
                    },
                    Err(e) => {
                        return Err(e);
                    },
                }
            }
            let pic = if executable {
                compiler.position_independent_executable_flag()
            } else {
                compiler.position_independent_code_flag()
            };
            push_pic(&mut flags, opts.global_opts.position_independent_code, pic);
            Ok(flags)
        },
        SourceKind::Nasm => Ok(clone_strings(&opts.profile.nasm_assemble_flags)),
    }
}

/// Makes the rule for sources of `kind` unless it is there, and gives its
/// name.
pub(crate) fn ensure_rule(
    opts: &GeneratorOpts,
    rules: &mut NinjaRules,
    kind: SourceKind,
) -> (r: String)
    requires
        !tool_missing(opts, kind),
    ensures
        final(rules)@ == ensured_rules(opts, old(rules)@, kind),
        rule_of(final(rules)@, kind) matches Some(rule) && r@ == rule.name,
{
    match kind {
        SourceKind::C => {
            if rules.compile_c_object.is_none() {
                let compiler = match &opts.toolchain.c_compiler {
                    Some(c) => c,
                    None => vstd::pervasive::unreached(),
                };
                rules.compile_c_object = Some(compile_c_object(compiler));
            }
            match &rules.compile_c_object {
                Some(rule) => rule.name.clone(),
                None => vstd::pervasive::unreached(),
            }
        },
        SourceKind::Cpp => {
            if rules.compile_cpp_object.is_none() {
                let compiler = match &opts.toolchain.cpp_compiler {
                    Some(c) => c,
                    None => vstd::pervasive::unreached(),
                };
                rules.compile_cpp_object = Some(compile_cpp_object(compiler));
            }
            match &rules.compile_cpp_object {
                Some(rule) => rule.name.clone(),
                None => vstd::pervasive::unreached(),
            }
        },
        SourceKind::Nasm => {
            if rules.assemble_nasm_object.is_none() {
                let assembler = match &opts.toolchain.nasm_assembler {
                    Some(c) => c,
                    None => vstd::pervasive::unreached(),
                };
                rules.assemble_nasm_object = Some(assemble_nasm_object(assembler));
            }
            match &rules.assemble_nasm_object {
                Some(rule) => rule.name.clone(),
                None => vstd::pervasive::unreached(),
            }
        },
    }
}

/// Asks the toolchain for the tool that compiles sources of `kind`: the
/// target `name` is refused where the toolchain has none.
pub fn require_tool(opts: &GeneratorOpts, kind: SourceKind, name: &str) -> (r: Result<(), String>)
    ensures
        r is Ok <==> !tool_missing(opts, kind),
        r matches Err(e) ==> e@ == missing_tool_message(kind, name@),
{
    match kind {
        SourceKind::C => match get_c_compiler(opts, name) {
            Ok(_) => Ok(()),
            Err(e) => Err(e),
        },
        SourceKind::Cpp => match get_cpp_compiler(opts, name) {
            Ok(_) => Ok(()),
            Err(e) => Err(e),
        },
        SourceKind::Nasm => match get_nasm_assembler(opts, name) {
            Ok(_) => Ok(()),
            Err(e) => Err(e),
        },
    }
}

/// Compiles the sources of one language. Where that fails, nothing was
/// written.
pub fn add_obj_group(
    kind: SourceKind,
    srcs: &Vec<SourcePath>,
    opts: &GeneratorOpts,
    name: &str,
    project: &ProjectInfo,
    source_data: &SourceData,
    executable: bool,
    rules: &mut NinjaRules,
    build_lines: &mut Vec<NinjaBuild>,
    inputs: &mut Vec<String>,
) -> (r: Result<(), String>)
    ensures
        match group_step(
            opts,
            kind,
            path_views(srcs@),
            name@,
            project@,
            source_data@,
            executable,
            StepState {
                rules: old(rules)@,
                lines: build_views(old(build_lines)@),
                inputs: texts(old(inputs)@),
            },
        ) {
            Ok(st) => r is Ok && final(rules)@ == st.rules && build_views(final(build_lines)@)
                == st.lines && texts(final(inputs)@) == st.inputs,
            Err(e) => r matches Err(m) && m@ == e && final(rules)@ == old(rules)@ && build_views(
                final(build_lines)@,
            ) == build_views(old(build_lines)@) && texts(final(inputs)@) == texts(old(inputs)@),
        },
{
    if srcs.len() == 0 {
        return Ok(());
    }
    match require_tool(opts, kind, name) {
        Ok(()) => {},
        Err(e) => {
            return Err(e);
        },
    }
    let flags = match compile_options(opts, kind, executable) {
        Ok(f) => f,
        Err(e) => {
            return Err(e);
        },
    };
    let rule_name = ensure_rule(opts, rules, kind);
    let ghost edges = group_edges(
        opts,
        path_views(srcs@),
        name@,
        project@,
        source_data@,
        rule_name@,
        texts(flags@),
    );
    let ghost objects = group_objects(opts, path_views(srcs@), name@, project@);
    let mut i: usize = 0;
    assert(build_views(build_lines@) =~= build_views(old(build_lines)@) + edges.take(0));
    assert(texts(inputs@) =~= texts(old(inputs)@) + objects.take(0));
    while i < srcs.len()
        invariant
            i <= srcs@.len(),
            edges == group_edges(
                opts,
                path_views(srcs@),
                name@,
                project@,
                source_data@,
                rule_name@,
                texts(flags@),
            ),
            objects == group_objects(opts, path_views(srcs@), name@, project@),
            build_views(build_lines@) == build_views(old(build_lines)@) + edges.take(i as int),
            texts(inputs@) == texts(old(inputs)@) + objects.take(i as int),
        decreases srcs@.len() - i,
    {
        let src = &srcs[i];
        let ghost lines_before = build_lines@;
        let ghost inputs_before = inputs@;
        let edge = add_obj_source(
            input_path(src.full.as_str(), project.path.as_str()),
            source_data,
            output_subfolder_path(
                opts.build_dir.as_str(),
                project.name.as_str(),
                name,
                src.name.as_str(),
                opts.target_platform.obj_ext.as_str(),
            ),
            rule_name.clone(),
            clone_strings(&flags),
            inputs,
        );
        build_lines.push(edge);
        i += 1;
        proof {
            assert(build_views(build_lines@) =~= build_views(lines_before).push(edges[i - 1]));
            assert(edges.take(i as int) =~= edges.take(i - 1).push(edges[i - 1]));
            assert(objects.take(i as int) =~= objects.take(i - 1).push(objects[i - 1]));
            assert(build_views(build_lines@) =~= build_views(old(build_lines)@) + edges.take(
                i as int,
            ));
            assert(texts(inputs@) =~= texts(old(inputs)@) + objects.take(i as int));
        }
    }
    assert(edges.take(edges.len() as int) =~= edges);
    assert(objects.take(objects.len() as int) =~= objects);
    Ok(())
}

/// Compiles all sources of a target: the C sources, then the C++ sources,
/// then the assembly sources. Every source gets an edge, and the object
/// files are noted in `inputs` as things to link. Where the sources of a
/// language cannot be compiled, those of the languages before it were.
pub fn add_obj_sources(
    sources: &Sources,
    opts: &GeneratorOpts,
    name: &str,
    project: &ProjectInfo,
    source_data: &SourceData,
    executable: bool,
    rules: &mut NinjaRules,
    build_lines: &mut Vec<NinjaBuild>,
    inputs: &mut Vec<String>,
) -> (r: Result<(), String>)
    ensures
        match obj_sources_step(
            opts,
            sources@,
            name@,
            project@,
            source_data@,
            executable,
            StepState {
                rules: old(rules)@,
                lines: build_views(old(build_lines)@),
                inputs: texts(old(inputs)@),
            },
        ) {
            Ok(st) => r is Ok && final(rules)@ == st.rules && build_views(final(build_lines)@)
                == st.lines && texts(final(inputs)@) == st.inputs,
            Err(e) => r matches Err(m) && m@ == e,
        },
        ({
            let st = obj_sources_reached(
                opts,
                sources@,
                name@,
                project@,
                source_data@,
                executable,
                StepState {
                    rules: old(rules)@,
                    lines: build_views(old(build_lines)@),
                    inputs: texts(old(inputs)@),
                },
            );
            &&& final(rules)@ == st.rules
            &&& build_views(final(build_lines)@) == st.lines
            &&& texts(final(inputs)@) == st.inputs
        }),
{
    match add_obj_group(
        SourceKind::C,
        &sources.c,
        opts,
        name,
        project,
        source_data,
        executable,
        rules,
        build_lines,
        inputs,
    ) {
        Ok(()) => {},
        Err(e) => {
            return Err(e);
        },
    }
    match add_obj_group(
        SourceKind::Cpp,
        &sources.cpp,
        opts,
        name,
        project,
        source_data,
        executable,
        rules,
        build_lines,
        inputs,
    ) {
        Ok(()) => {},
        Err(e) => {
            return Err(e);
        },
    }
    add_obj_group(
        SourceKind::Nasm,
        &sources.nasm,
        opts,
        name,
        project,
        source_data,
        executable,
        rules,
        build_lines,
        inputs,
    )
}

} // verus!
