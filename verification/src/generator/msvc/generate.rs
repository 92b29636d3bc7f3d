//! A whole run of the Visual Studio generator.

use vstd::prelude::*;
use super::guid::{is_guid, new_guid};
use super::index_map::{project_views, VsProject, VsProjectView};
use super::item::{
    parse_c_standard, parse_cpp_standard, spec_parse_c_standard, spec_parse_cpp_standard,
    Options, ProfileFragment, ProfileFragmentView,
};
use super::pool::lemma_pool_suffices;
use super::sheets::{nasm_props_content, spec_nasm_props};
use super::sln::{make_sln, sln_text};
use super::solution::{guid_at, no_guid_message, take_guid, MsvcState, MsvcStateView};
use super::vcxproj::{fragment_views, VcxprojOpts, VcxprojOptsView};
use super::walk::{project_added, Msvc};
use crate::generator::{file_views, GeneratedFile, GeneratedFileView};
use crate::graph::{LinkNode, TargetGraph};
use crate::misc::{join_path, spec_join_path};
use crate::project::{project_fits, Project};
use crate::text::texts;
use crate::toolchain::compiler::option_text;
use crate::toolchain::{profile_names, Profile, Toolchain};
use crate::unique::clone_strings;
use crate::GlobalOptions;

verus! {

/// What the generator reads of the profiles: of every profile with a
/// part for Visual Studio that part and the flags for the assembler.
pub open spec fn fragments(profiles: Seq<(String, Profile)>) -> Seq<
    (Seq<char>, ProfileFragmentView),
>
    decreases profiles.len(),
{
    if profiles.len() == 0 {
        Seq::empty()
    } else {
        let head = fragments(profiles.drop_last());
        match profiles.last().1.vcxproj {
            Some(v) => head.push(
                (
                    profiles.last().0@,
                    ProfileFragmentView {
                        vcxproj: v@,
                        nasm_assemble_flags: texts(profiles.last().1.nasm_assemble_flags@),
                    },
                ),
            ),
            None => head,
        }
    }
}

/// Whether some project has assembly sources.
pub open spec fn any_nasm(projects: Seq<VsProjectView>) -> bool {
    exists|i: int| 0 <= i < projects.len() && (#[trigger] projects[i]).has_nasm
}

/// What a run gives: the files to be written, and, where some project
/// has assembly sources, the sheet `nasm.props`, which has to be written
/// into the build directory with the other two sheets for assembly
/// sources.
#[derive(Debug)]
pub struct MsvcOutput {
    pub files: Vec<GeneratedFile>,
    pub nasm_props: Option<String>,
}

/// The mathematical value of [`MsvcOutput`].
pub struct MsvcOutputView {
    pub files: Seq<GeneratedFileView>,
    pub nasm_props: Option<Seq<char>>,
}

impl View for MsvcOutput {
    type V = MsvcOutputView;

    open spec fn view(&self) -> MsvcOutputView {
        MsvcOutputView {
            files: file_views(self.files@),
            nasm_props: option_text(self.nasm_props),
        }
    }
}

/// The message of a toolchain without platforms.
pub open spec fn no_platforms_message() -> Seq<char> {
    "Toolchain doesn't contain any msvc_platforms, required for MSVC generator"@
}

/// The message of a toolchain without a profile for Visual Studio.
pub open spec fn no_profiles_message() -> Seq<char> {
    "Toolchain doesn't contain any profiles with a \"vcxproj\" section, required for MSVC generator"@
}

/// The message of a toolchain without the assembler that a project
/// needs.
pub open spec fn no_nasm_message() -> Seq<char> {
    "Toolchain does not contain a NASM assembler, required for files in this project"@
}

/// The solution for the projects that were made.
pub open spec fn solution_file(
    project: Project,
    build_dir: Seq<char>,
    toolchain: &Toolchain,
    projects: Seq<VsProjectView>,
    sln_guid: Seq<char>,
) -> GeneratedFileView {
    GeneratedFileView {
        path: spec_join_path(build_dir, project.info.name@ + ".sln"@),
        content: sln_text(
            projects,
            profile_names(toolchain.profile@),
            texts(toolchain.msvc_platforms@),
            sln_guid,
        ),
    }
}

/// A whole run for the GUIDs `guids`: the library at place `i` of the
/// graph gets the GUID at place `i`, the programs get those that follow in
/// the order of the walk, and the solution gets the next. The toolchain
/// has to name platforms and a profile for Visual Studio, the language
/// standards have to be known to Visual Studio, and where a project has
/// assembly sources the toolchain has to have the assembler.
pub open spec fn msvc_generated(
    nodes: Seq<LinkNode>,
    project: Project,
    build_dir: Seq<char>,
    toolchain: &Toolchain,
    global_opts: &GlobalOptions,
    guids: Seq<Seq<char>>,
) -> Result<MsvcOutputView, Seq<char>> {
    if toolchain.msvc_platforms@.len() == 0 {
        Err(no_platforms_message())
    } else {
        match spec_parse_c_standard(option_text(global_opts.c_standard)) {
            Err(e) => Err(e),
            Ok(c_standard) => match spec_parse_cpp_standard(
                option_text(global_opts.cpp_standard),
            ) {
                Err(e) => Err(e),
                Ok(cpp_standard) => if fragments(toolchain.profile@).len() == 0 {
                    Err(no_profiles_message())
                } else {
                    match project_added(
                        nodes,
                        VcxprojOptsView {
                            build_dir,
                            profiles: fragments(toolchain.profile@),
                            msvc_platforms: texts(toolchain.msvc_platforms@),
                            opts: Options { c_standard, cpp_standard },
                        },
                        guids,
                        project,
                        MsvcStateView::empty(),
                    ) {
                        Err(e) => Err(e),
                        Ok(st) => match guid_at(guids, nodes.len() + st.exes_seen) {
                            Err(e) => Err(e),
                            Ok(sln_guid) => {
                                let files = st.files.push(
                                    solution_file(
                                        project,
                                        build_dir,
                                        toolchain,
                                        st.map.projects,
                                        sln_guid,
                                    ),
                                );
                                if any_nasm(st.map.projects) {
                                    match toolchain.nasm_assembler {
                                        Some(a) => Ok(
                                            MsvcOutputView {
                                                files,
                                                nasm_props: Some(
                                                    spec_nasm_props(a.spec_cmd()),
                                                ),
                                            },
                                        ),
                                        None => Err(no_nasm_message()),
                                    }
                                } else {
                                    Ok(MsvcOutputView { files, nasm_props: None })
                                }
                            },
                        },
                    }
                },
            },
        }
    }
}

/// What the generator reads of the profiles.
pub fn make_fragments(profiles: &Vec<(String, Profile)>) -> (r: Vec<(String, ProfileFragment)>)
    ensures
        fragment_views(r@) == fragments(profiles@),
{
    let mut out: Vec<(String, ProfileFragment)> = Vec::new();
    assert(fragment_views(out@) =~= Seq::empty());
    let mut i: usize = 0;
    while i < profiles.len()
        invariant
            i <= profiles@.len(),
            fragment_views(out@) == fragments(profiles@.take(i as int)),
        decreases profiles@.len() - i,
    {
        proof {
            assert(profiles@.take(i + 1).drop_last() =~= profiles@.take(i as int));
            assert(profiles@.take(i + 1).last() == profiles@[i as int]);
        }
        if let Some(prof) = &profiles[i].1.vcxproj {
            let ghost before = out@;
            let fragment = ProfileFragment {
                vcxproj: prof.duplicate(),
                nasm_assemble_flags: clone_strings(&profiles[i].1.nasm_assemble_flags),
            };
            out.push((profiles[i].0.clone(), fragment));
            assert(fragment_views(out@) =~= fragment_views(before).push(
                (profiles@[i as int].0@, fragment@),
            ));
        }
        i += 1;
    }
    assert(profiles@.take(profiles@.len() as int) =~= profiles@);
    out
}

/// The names of the profiles.
pub fn make_profile_names(profiles: &Vec<(String, Profile)>) -> (r: Vec<String>)
    ensures
        texts(r@) == profile_names(profiles@),
{
    let mut out: Vec<String> = Vec::new();
    let mut i: usize = 0;
    while i < profiles.len()
        invariant
            i <= profiles@.len(),
            texts(out@) == profile_names(profiles@).take(i as int),
        decreases profiles@.len() - i,
    {
        let ghost before = out@;
        out.push(profiles[i].0.clone());
        i += 1;
        proof {
            let all = profile_names(profiles@);
            assert(texts(out@) =~= texts(before).push(all[i - 1]));
            assert(all.take(i as int) =~= all.take(i - 1).push(all[i - 1]));
        }
    }
    assert(profile_names(profiles@).take(profiles@.len() as int) =~= profile_names(profiles@));
    out
}

/// Whether some project has assembly sources.
pub fn has_any_nasm(projects: &Vec<VsProject>) -> (r: bool)
    ensures
        r == any_nasm(project_views(projects@)),
{
    let mut i: usize = 0;
    while i < projects.len()
        invariant
            i <= projects@.len(),
            forall|k: int| 0 <= k < i ==> !(#[trigger] project_views(projects@)[k]).has_nasm,
        decreases projects@.len() - i,
    {
        if projects[i].has_nasm {
            assert(project_views(projects@)[i as int].has_nasm);
            return true;
        }
        i += 1;
    }
    false
}

/// Whether `r` is the outcome that `expected` describes.
pub open spec fn is_outcome(
    r: Result<MsvcOutput, String>,
    expected: Result<MsvcOutputView, Seq<char>>,
) -> bool {
    match expected {
        Ok(v) => r matches Ok(x) && x@ == v,
        Err(e) => r matches Err(m) && m@ == e,
    }
}

/// The number of programs of a project and of the projects it depends on,
/// a program counted as often as the walk meets it.
pub open spec fn exe_count(project: Project) -> nat
    decreases project,
{
    project.executables@.len() + sub_exe_count(project, project.dependencies@.len() as int)
}

/// The number of programs of the first `n` projects that `project`
/// depends on.
pub open spec fn sub_exe_count(project: Project, n: int) -> nat
    decreases project, n,
{
    if n <= 0 || n > project.dependencies@.len() {
        0
    } else {
        sub_exe_count(project, n - 1) + exe_count(project.dependencies@[n - 1])
    }
}

/// Whether every string of `guids` has the shape of a GUID.
pub open spec fn all_guids(guids: Seq<Seq<char>>) -> bool {
    forall|i: int| 0 <= i < guids.len() ==> is_guid(#[trigger] guids[i])
}

/// Appends `count` fresh GUIDs to `pool`.
fn draw_guids(pool: &mut Vec<String>, count: usize)
    requires
        all_guids(texts(old(pool)@)),
    ensures
        all_guids(texts(final(pool)@)),
        final(pool)@.len() == old(pool)@.len() + count,
{
    let mut i: usize = 0;
    while i < count
        invariant
            i <= count,
            all_guids(texts(pool@)),
            pool@.len() == old(pool)@.len() + i,
        decreases count - i,
    {
        let ghost before = pool@;
        let guid = new_guid();
        pool.push(guid);
        proof {
            assert forall|k: int| 0 <= k < texts(pool@).len() implies is_guid(
                #[trigger] texts(pool@)[k],
            ) by {
                if k < before.len() {
                    assert(texts(pool@)[k] == texts(before)[k]);
                }
            }
        }
        i += 1;
    }
}

/// Appends one fresh GUID to `pool` for every program that the walk over
/// `project` meets.
fn draw_for_programs(project: &Project, pool: &mut Vec<String>)
    requires
        all_guids(texts(old(pool)@)),
    ensures
        all_guids(texts(final(pool)@)),
        final(pool)@.len() == old(pool)@.len() + exe_count(*project),
    decreases project,
{
    let mut d: usize = 0;
    while d < project.dependencies.len()
        invariant
            d <= project.dependencies@.len(),
            all_guids(texts(pool@)),
            pool@.len() == old(pool)@.len() + sub_exe_count(*project, d as int),
        decreases project.dependencies@.len() - d,
    {
        draw_for_programs(&project.dependencies[d], pool);
        d += 1;
    }
    draw_guids(pool, project.executables.len());
}

impl Msvc {
    /// A whole run for the GUIDs `guids`: one project file for every
    /// target that is compiled, and the solution.
    pub fn generate_from(
        project: &Project,
        graph: &TargetGraph,
        build_dir: &str,
        toolchain: &Toolchain,
        global_opts: &GlobalOptions,
        guids: &Vec<String>,
    ) -> (r: Result<MsvcOutput, String>)
        requires
            project_fits(graph@, *project),
        ensures
            is_outcome(
                r,
                msvc_generated(
                    graph@,
                    *project,
                    build_dir@,
                    toolchain,
                    global_opts,
                    texts(guids@),
                ),
            ),
    {
        if toolchain.msvc_platforms.len() == 0 {
            return Err(
                "Toolchain doesn't contain any msvc_platforms, required for MSVC generator".to_owned(),
            );
        }
        let c_standard = match parse_c_standard(&global_opts.c_standard) {
            Ok(x) => x,
            Err(e) => {
                return Err(e);
            },
        };
        let cpp_standard = match parse_cpp_standard(&global_opts.cpp_standard) {
            Ok(x) => x,
            Err(e) => {
                return Err(e);
            },
        };
        let profiles = make_fragments(&toolchain.profile);
        if profiles.len() == 0 {
            return Err(
                "Toolchain doesn't contain any profiles with a \"vcxproj\" section, required for MSVC generator".to_owned(),
            );
        }
        let proj_opts = VcxprojOpts {
            build_dir: build_dir.to_owned(),
            profiles,
            msvc_platforms: clone_strings(&toolchain.msvc_platforms),
            opts: Options { c_standard, cpp_standard },
        };
        let mut state = MsvcState::new();
        match Msvc::generate_inner(project, graph, &proj_opts, guids, &mut state) {
            Ok(()) => {},
            Err(e) => {
                return Err(e);
            },
        }
        let available = guids.len();
        let at = match graph.len().checked_add(state.exes_seen) {
            Some(x) => x,
            None => {
                assert(graph@.len() + state.exes_seen > available);
                return Err("Not enough GUIDs for the projects of the solution".to_owned());
            },
        };
        let sln_guid = match take_guid(guids, at) {
            Ok(g) => g,
            Err(e) => {
                return Err(e);
            },
        };
        let names = make_profile_names(&toolchain.profile);
        let content = make_sln(
            state.guid_map.iter(),
            &names,
            &proj_opts.msvc_platforms,
            sln_guid.as_str(),
        );
        let mut file_name = project.info.name.clone();
        file_name.append(".sln");
        let sln = GeneratedFile { path: join_path(build_dir, file_name.as_str()), content };
        let has_nasm = has_any_nasm(state.guid_map.iter());
        let mut files: Vec<GeneratedFile> = Vec::new();
        core::mem::swap(&mut files, &mut state.files);
        let ghost files_before = files@;
        files.push(sln);
        assert(file_views(files@) =~= file_views(files_before).push(sln@));
        if has_nasm {
            match &toolchain.nasm_assembler {
                Some(assembler) => {
                    let cmd = assembler.cmd();
                    Ok(MsvcOutput { files, nasm_props: Some(nasm_props_content(&cmd)) })
                },
                None => Err(
                    "Toolchain does not contain a NASM assembler, required for files in this project".to_owned(),
                ),
            }
        } else {
            Ok(MsvcOutput { files, nasm_props: None })
        }
    }

    /// A whole run with fresh GUIDs: one for every library, one for
    /// every program that the walk meets, and one for the solution. Such
    /// a run never fails for want of a GUID.
    pub fn generate(
        project: &Project,
        graph: &TargetGraph,
        build_dir: &str,
        toolchain: &Toolchain,
        global_opts: &GlobalOptions,
    ) -> (r: Result<MsvcOutput, String>)
        requires
            project_fits(graph@, *project),
        ensures
            exists|guids: Seq<Seq<char>>|
                all_guids(guids) && guids.len() == graph@.len() + exe_count(*project) + 1
                    && is_outcome(
                    r,
                    #[trigger] msvc_generated(
                        graph@,
                        *project,
                        build_dir@,
                        toolchain,
                        global_opts,
                        guids,
                    ),
                ),
            !(r matches Err(m) && m@ == no_guid_message()),
    {
        let mut pool: Vec<String> = Vec::new();
        draw_guids(&mut pool, graph.len());
        draw_for_programs(project, &mut pool);
        draw_guids(&mut pool, 1);
        let r = Msvc::generate_from(project, graph, build_dir, toolchain, global_opts, &pool);
        proof {
            lemma_pool_suffices(
                graph@,
                *project,
                build_dir@,
                toolchain,
                global_opts,
                texts(pool@),
            );
        }
        assert(all_guids(texts(pool@)) && texts(pool@).len() == graph@.len() + exe_count(*project)
            + 1 && is_outcome(
            r,
            msvc_generated(graph@, *project, build_dir@, toolchain, global_opts, texts(pool@)),
        ));
        r
    }
}

} // verus!
