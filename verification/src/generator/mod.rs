//! Generators: each turns a project into the scripts of one build system.

pub mod msvc;
pub mod ninja;

use vstd::prelude::*;
use crate::graph::TargetGraph;
use crate::misc::spec_join_path;
use crate::project::{project_fits, Project};
use crate::text::{contains, ends_with, str_contains, str_ends_with};
use crate::toolchain::{Profile, Toolchain};
use crate::GlobalOptions;
use msvc::generate::{all_guids, exe_count, is_outcome, msvc_generated, MsvcOutput};
use msvc::solution::no_guid_message;
use msvc::walk::Msvc;
use ninja::edge::builds_text;
use ninja::targets::NinjaStateView;
use ninja::walk::{project_step, Ninja};
use ninja::GeneratorOpts;

verus! {

/// The file name extensions of the platform that is built for.
#[derive(Clone, Debug)]
pub struct TargetPlatform {
    pub obj_ext: String,
    pub static_lib_ext: String,
    pub exe_ext: String,
}

/// The mathematical value of [`TargetPlatform`].
pub struct TargetPlatformView {
    pub obj_ext: Seq<char>,
    pub static_lib_ext: Seq<char>,
    pub exe_ext: Seq<char>,
}

impl View for TargetPlatform {
    type V = TargetPlatformView;

    open spec fn view(&self) -> TargetPlatformView {
        TargetPlatformView {
            obj_ext: self.obj_ext@,
            static_lib_ext: self.static_lib_ext@,
            exe_ext: self.exe_ext@,
        }
    }
}

/// A file that a generator wants written.
#[derive(Clone, Debug)]
pub struct GeneratedFile {
    pub path: String,
    pub content: String,
}

/// The mathematical value of [`GeneratedFile`].
pub struct GeneratedFileView {
    pub path: Seq<char>,
    pub content: Seq<char>,
}

impl View for GeneratedFile {
    type V = GeneratedFileView;

    open spec fn view(&self) -> GeneratedFileView {
        GeneratedFileView { path: self.path@, content: self.content@ }
    }
}

/// The values of a list of files.
pub open spec fn file_views(v: Seq<GeneratedFile>) -> Seq<GeneratedFileView> {
    Seq::new(v.len(), |i: int| v[i]@)
}


/// The generators.
#[derive(Clone, Copy, Debug, PartialEq, Eq, Structural)]
pub enum Generator {
    Msvc,
    Ninja,
}

/// What a generator gives.
#[derive(Debug)]
pub enum Generated {
    /// The Ninja file.
    Ninja(GeneratedFile),
    /// The project files and the solution.
    Msvc(MsvcOutput),
}

/// Whether a target triple names Windows.
pub open spec fn spec_targets_windows(triple: Seq<char>) -> bool {
    contains(triple, "-windows-"@) || ends_with(triple, "-windows"@)
}

/// The file name extensions of the platform that a target triple names.
pub open spec fn spec_target_platform(triple: Seq<char>) -> TargetPlatformView {
    if spec_targets_windows(triple) {
        TargetPlatformView { obj_ext: ".obj"@, static_lib_ext: ".lib"@, exe_ext: ".exe"@ }
    } else {
        TargetPlatformView { obj_ext: ".o"@, static_lib_ext: ".a"@, exe_ext: ""@ }
    }
}

/// The target triple that a toolchain builds for: that of its C
/// compiler, else that of its C++ compiler, else none.
pub open spec fn spec_target_triple(toolchain: &Toolchain) -> Seq<char> {
    match toolchain.c_compiler {
        Some(c) => c.spec_target(),
        None => match toolchain.cpp_compiler {
            Some(c) => c.spec_target(),
            None => Seq::empty(),
        },
    }
}

/// The target triple that a toolchain builds for.
pub fn target_triple(toolchain: &Toolchain) -> (r: String)
    ensures
        r@ == spec_target_triple(toolchain),
{
    if let Some(compiler) = &toolchain.c_compiler {
        compiler.target()
    } else if let Some(compiler) = &toolchain.cpp_compiler {
        compiler.target()
    } else {
        String::new()
    }
}

/// The file name extensions of the platform that a target triple names.
pub fn target_platform(triple: &str) -> (r: TargetPlatform)
    ensures
        r@ == spec_target_platform(triple@),
{
    if str_contains(triple, "-windows-") || str_ends_with(triple, "-windows") {
        TargetPlatform {
            obj_ext: ".obj".to_owned(),
            static_lib_ext: ".lib".to_owned(),
            exe_ext: ".exe".to_owned(),
        }
    } else {
        TargetPlatform {
            obj_ext: ".o".to_owned(),
            static_lib_ext: ".a".to_owned(),
            exe_ext: "".to_owned(),
        }
    }
}

/// Whether `opts` are the options of a Ninja run with these inputs, for
/// the platform that the toolchain builds for.
pub open spec fn is_ninja_run(
    opts: GeneratorOpts,
    build_dir: String,
    toolchain: Toolchain,
    profile: Profile,
    global_opts: GlobalOptions,
) -> bool {
    &&& opts.build_dir == build_dir
    &&& opts.toolchain == toolchain
    &&& opts.profile == profile
    &&& opts.global_opts == global_opts
    &&& opts.target_platform@ == spec_target_platform(spec_target_triple(&toolchain))
}

impl Generator {
    /// Runs the generator. The Ninja generator builds for the platform
    /// that the target triple of the toolchain names; the Visual Studio
    /// generator takes no profile and draws fresh GUIDs, of which it never
    /// runs short.
    pub fn generate(
        &self,
        project: &Project,
        graph: &TargetGraph,
        global_opts: GlobalOptions,
        build_dir: String,
        toolchain: Toolchain,
        profile: Profile,
    ) -> (r: Result<Generated, String>)
        requires
            project_fits(graph@, *project),
        ensures
            *self == Generator::Ninja ==> exists|opts: GeneratorOpts|
                is_ninja_run(opts, build_dir, toolchain, profile, global_opts) && (
                match #[trigger] project_step(graph@, *project, &opts, NinjaStateView::empty()) {
                    Ok(st) => r matches Ok(Generated::Ninja(f)) && f.path@ == spec_join_path(
                        build_dir@,
                        "build.ninja"@,
                    ) && f.content@ == st.rules.as_string() + builds_text(st.lines),
                    Err(e) => r matches Err(m) && m@ == e,
                }),
            *self == Generator::Msvc ==> exists|guids: Seq<Seq<char>>|
                all_guids(guids) && guids.len() == graph@.len() + exe_count(*project) + 1
                    && (match #[trigger] msvc_generated(
                    graph@,
                    *project,
                    build_dir@,
                    &toolchain,
                    &global_opts,
                    guids,
                ) {
                    Ok(v) => r matches Ok(Generated::Msvc(x)) && x@ == v,
                    Err(e) => r matches Err(m) && m@ == e,
                }),
            *self == Generator::Msvc ==> !(r matches Err(m) && m@ == no_guid_message()),
    {
        match self {
            Generator::Msvc => {
                let out = Msvc::generate(
                    project,
                    graph,
                    build_dir.as_str(),
                    &toolchain,
                    &global_opts,
                );
                proof {
                    let guids = choose|guids: Seq<Seq<char>>|
                        all_guids(guids) && guids.len() == graph@.len() + exe_count(*project) + 1
                            && is_outcome(
                            out,
                            #[trigger] msvc_generated(
                                graph@,
                                *project,
                                build_dir@,
                                &toolchain,
                                &global_opts,
                                guids,
                            ),
                        );
                    assert(is_outcome(
                        out,
                        msvc_generated(
                            graph@,
                            *project,
                            build_dir@,
                            &toolchain,
                            &global_opts,
                            guids,
                        ),
                    ));
                }
                match out {
                    Ok(x) => Ok(Generated::Msvc(x)),
                    Err(e) => Err(e),
                }
            },
            Generator::Ninja => {
                let triple = target_triple(&toolchain);
                let platform = target_platform(triple.as_str());
                let ghost opts = GeneratorOpts {
                    build_dir,
                    toolchain,
                    profile,
                    global_opts,
                    target_platform: platform,
                };
                let out = Ninja::generate(
                    project,
                    graph,
                    build_dir,
                    toolchain,
                    profile,
                    global_opts,
                    platform,
                );
                proof {
                    assert(is_ninja_run(opts, build_dir, toolchain, profile, global_opts));
                }
                match out {
                    Ok(f) => Ok(Generated::Ninja(f)),
                    Err(e) => Err(e),
                }
            },
        }
    }
}

} // verus!
