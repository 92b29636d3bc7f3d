//! Enough GUIDs: a run that was given one for every library, one for
//! every program that the walk meets and one for the solution never fails
//! for want of one.

use vstd::prelude::*;
use super::generate::{exe_count, fragments, msvc_generated, sub_exe_count};
use super::item::{
    spec_parse_c_standard, spec_parse_cpp_standard, Options, ProfileFragmentView,
};
use super::solution::{
    exe_target, guid_at, lib_added, lib_target, made, next_reference, no_guid_message,
    references, MsvcStateView, References,
};
use super::vcxproj::{
    mixed_sources_message, section_entry, section_row, section_text, vcxproj_head, Section,
    TargetDataView, VcxprojOptsView,
};
use super::walk::{exe_added, exes_added, libs_added, project_added, subprojects_added};
use crate::executable::Executable;
use crate::graph::{names, LinkNode};
use crate::link_type::LinkPtr;
use crate::misc::SourcesView;
use crate::project::{project_fits, Project, ProjectInfoView};
use crate::target::Target;
use crate::text::texts;
use crate::toolchain::compiler::option_text;
use crate::toolchain::Toolchain;
use crate::GlobalOptions;

verus! {

/// Whether a run failed for want of a GUID.
pub open spec fn ran_short<T>(r: Result<T, Seq<char>>) -> bool {
    r matches Err(e) && e == no_guid_message()
}

/// Whether a message begins otherwise than the message of a run that
/// has no GUID left.
pub open spec fn begins_otherwise(e: Seq<char>) -> bool {
    e.len() > 0 && e[0] != 'N'
}

/// Whether a step either went well or failed with a message that begins
/// otherwise than that of a run that has no GUID left.
pub open spec fn well_supplied<T>(r: Result<T, Seq<char>>) -> bool {
    r matches Err(e) ==> begins_otherwise(e)
}

/// A step that is well supplied did not fail for want of a GUID.
pub proof fn lemma_well_supplied<T>(r: Result<T, Seq<char>>)
    requires
        well_supplied(r),
    ensures
        !ran_short(r),
{
    reveal_strlit("Not enough GUIDs for the projects of the solution");
}

/// The failures of a section are those of a platform without an object
/// format.
pub proof fn lemma_section_entry_supplied(
    section: Section,
    profile_name: Seq<char>,
    profile: ProfileFragmentView,
    platform: Seq<char>,
    configuration_type: Seq<char>,
    target: TargetDataView,
    sources: SourcesView,
    opts: Options,
)
    ensures
        well_supplied(
            section_entry(
                section,
                profile_name,
                profile,
                platform,
                configuration_type,
                target,
                sources,
                opts,
            ),
        ),
{
    reveal_strlit("Unknown platform: ");
    let e = "Unknown platform: "@ + platform + ". Known platforms are \"Win32\", \"x64\""@;
    assert(e[0] == "Unknown platform: "@[0]);
}

/// The entries of one platform fail only as a single entry does.
pub proof fn lemma_section_row_supplied(
    section: Section,
    profiles: Seq<(Seq<char>, ProfileFragmentView)>,
    platform: Seq<char>,
    configuration_type: Seq<char>,
    target: TargetDataView,
    sources: SourcesView,
    opts: Options,
)
    ensures
        well_supplied(
            section_row(section, profiles, platform, configuration_type, target, sources, opts),
        ),
    decreases profiles.len(),
{
    if profiles.len() != 0 {
        lemma_section_row_supplied(
            section,
            profiles.drop_last(),
            platform,
            configuration_type,
            target,
            sources,
            opts,
        );
        lemma_section_entry_supplied(
            section,
            profiles.last().0,
            profiles.last().1,
            platform,
            configuration_type,
            target,
            sources,
            opts,
        );
    }
}

/// A section fails only as a single entry does.
pub proof fn lemma_section_text_supplied(
    section: Section,
    platforms: Seq<Seq<char>>,
    profiles: Seq<(Seq<char>, ProfileFragmentView)>,
    configuration_type: Seq<char>,
    target: TargetDataView,
    sources: SourcesView,
    opts: Options,
)
    ensures
        well_supplied(
            section_text(section, platforms, profiles, configuration_type, target, sources, opts),
        ),
    decreases platforms.len(),
{
    if platforms.len() != 0 {
        lemma_section_text_supplied(
            section,
            platforms.drop_last(),
            profiles,
            configuration_type,
            target,
            sources,
            opts,
        );
        lemma_section_row_supplied(
            section,
            profiles,
            platforms.last(),
            configuration_type,
            target,
            sources,
            opts,
        );
    }
}

/// The first part of a project file fails only as its sections do.
pub proof fn lemma_head_supplied(
    opts: VcxprojOptsView,
    configuration_type: Seq<char>,
    project_path: Seq<char>,
    target: TargetDataView,
    sources: SourcesView,
    guid: Seq<char>,
)
    ensures
        well_supplied(vcxproj_head(opts, configuration_type, project_path, target, sources, guid)),
{
    reveal(vcxproj_head);
    lemma_section_text_supplied(
        Section::Items,
        opts.msvc_platforms,
        opts.profiles,
        configuration_type,
        target,
        sources,
        opts.opts,
    );
}

/// What holds of a step that makes projects of libraries: it leaves the
/// number of programs as it was, and it does not fail for want of a GUID.
pub open spec fn libraries_supplied(
    r: Result<MsvcStateView, Seq<char>>,
    st: MsvcStateView,
) -> bool {
    match r {
        Ok(s) => s.exes_seen == st.exes_seen,
        Err(e) => begins_otherwise(e),
    }
}

/// With a GUID for every library, the project of a target is made
/// without a failure for want of one.
pub proof fn lemma_made_supplied(
    nodes: Seq<LinkNode>,
    opts: VcxprojOptsView,
    guids: Seq<Seq<char>>,
    configuration_type: Seq<char>,
    project: ProjectInfoView,
    target: TargetDataView,
    sources: SourcesView,
    links: Seq<LinkPtr>,
    bound: int,
    guid: Seq<char>,
    st: MsvcStateView,
)
    requires
        nodes.len() <= guids.len(),
    ensures
        match made(
            nodes,
            opts,
            guids,
            configuration_type,
            project,
            target,
            sources,
            links,
            bound,
            guid,
            st,
        ) {
            Ok((_, s)) => s.exes_seen == st.exes_seen,
            Err(e) => begins_otherwise(e),
        },
    decreases bound, 0int, links.len() + 2,
{
    reveal_strlit(
        "This generator does not support mixing C and C++ sources. Consider splitting them into separate libraries. Target: ",
    );
    let mixed = mixed_sources_message(target.name);
    assert(mixed[0]
        == "This generator does not support mixing C and C++ sources. Consider splitting them into separate libraries. Target: "@[0]);
    lemma_head_supplied(opts, configuration_type, project.path, target, sources, guid);
    if links.len() != 0 {
        lemma_references_supplied(nodes, opts, guids, links, bound, st);
    }
}

/// With a GUID for every library, the references of a project are made
/// without a failure for want of one.
pub proof fn lemma_references_supplied(
    nodes: Seq<LinkNode>,
    opts: VcxprojOptsView,
    guids: Seq<Seq<char>>,
    links: Seq<LinkPtr>,
    bound: int,
    st: MsvcStateView,
)
    requires
        nodes.len() <= guids.len(),
    ensures
        match references(nodes, opts, guids, links, bound, st) {
            Ok(r) => r.st.exes_seen == st.exes_seen,
            Err(e) => begins_otherwise(e),
        },
    decreases bound, 0int, links.len() + 1,
{
    if links.len() != 0 {
        lemma_references_supplied(nodes, opts, guids, links.drop_last(), bound, st);
        match references(nodes, opts, guids, links.drop_last(), bound, st) {
            Ok(head) => {
                lemma_next_reference_supplied(nodes, opts, guids, links.last(), bound, head);
            },
            Err(_) => {},
        }
    }
}

/// With a GUID for every library, one more reference is made without a
/// failure for want of one.
pub proof fn lemma_next_reference_supplied(
    nodes: Seq<LinkNode>,
    opts: VcxprojOptsView,
    guids: Seq<Seq<char>>,
    link: LinkPtr,
    bound: int,
    head: References,
)
    requires
        nodes.len() <= guids.len(),
    ensures
        match next_reference(nodes, opts, guids, link, bound, head) {
            Ok(r) => r.st.exes_seen == head.st.exes_seen,
            Err(e) => begins_otherwise(e),
        },
    decreases bound, 0int, 0int,
{
    let at = link.spec_index();
    if 0 <= at < bound && at < nodes.len() {
        match nodes[at] {
            LinkNode::Interface(x) => {
                lemma_references_supplied(nodes, opts, guids, x.links@, at, head.st);
            },
            _ => {
                if head.st.map.get(link.spec_key()) is None {
                    lemma_lib_supplied(nodes, opts, guids, at, head.st);
                }
            },
        }
    }
}

/// With a GUID for every library, the project of a library is made
/// without a failure for want of one.
pub proof fn lemma_lib_supplied(
    nodes: Seq<LinkNode>,
    opts: VcxprojOptsView,
    guids: Seq<Seq<char>>,
    at: int,
    st: MsvcStateView,
)
    requires
        nodes.len() <= guids.len(),
        0 <= at < nodes.len(),
    ensures
        libraries_supplied(lib_added(nodes, opts, guids, at, st), st),
    decreases at, 1int, 0int,
{
    match guid_at(guids, at) {
        Ok(guid) => {
            lemma_made_supplied(
                nodes,
                opts,
                guids,
                "StaticLibrary"@,
                nodes[at].spec_project(),
                lib_target(nodes, at),
                nodes[at].spec_sources(),
                nodes[at].direct_links(),
                at,
                guid,
                st,
            );
        },
        Err(_) => {},
    }
}

/// With a GUID for every library, the libraries of a list get their
/// projects without a failure for want of one.
pub proof fn lemma_libs_supplied(
    nodes: Seq<LinkNode>,
    opts: VcxprojOptsView,
    guids: Seq<Seq<char>>,
    ptrs: Seq<LinkPtr>,
    st: MsvcStateView,
)
    requires
        nodes.len() <= guids.len(),
        forall|i: int| 0 <= i < ptrs.len() ==> names(nodes, #[trigger] ptrs[i]),
    ensures
        libraries_supplied(libs_added(nodes, opts, guids, ptrs, st), st),
    decreases ptrs.len(),
{
    if ptrs.len() != 0 {
        lemma_libs_supplied(nodes, opts, guids, ptrs.drop_last(), st);
        assert(names(nodes, ptrs[ptrs.len() - 1]));
        match libs_added(nodes, opts, guids, ptrs.drop_last(), st) {
            Ok(s) => {
                lemma_lib_supplied(nodes, opts, guids, ptrs.last().spec_index(), s);
            },
            Err(_) => {},
        }
    }
}

/// What holds of a step that deals with `count` programs: it counts
/// them, and it does not fail for want of a GUID.
pub open spec fn programs_supplied(
    r: Result<MsvcStateView, Seq<char>>,
    st: MsvcStateView,
    count: int,
) -> bool {
    match r {
        Ok(s) => s.exes_seen == st.exes_seen + count,
        Err(e) => begins_otherwise(e),
    }
}

/// With a GUID for every library and for every program so far and one
/// more, the project of a program is made without a failure for want of
/// one.
pub proof fn lemma_exe_supplied(
    nodes: Seq<LinkNode>,
    opts: VcxprojOptsView,
    guids: Seq<Seq<char>>,
    exe: &Executable,
    st: MsvcStateView,
)
    requires
        0 <= st.exes_seen,
        nodes.len() + st.exes_seen < guids.len(),
    ensures
        programs_supplied(exe_added(nodes, opts, guids, exe, st), st, 1),
{
    match guid_at(guids, nodes.len() + st.exes_seen) {
        Ok(guid) => {
            lemma_made_supplied(
                nodes,
                opts,
                guids,
                "Application"@,
                exe.project@,
                exe_target(nodes, exe),
                exe.sources@,
                exe.links@,
                nodes.len() as int,
                guid,
                st,
            );
        },
        Err(_) => {},
    }
}

/// The same of a list of programs.
pub proof fn lemma_exes_supplied(
    nodes: Seq<LinkNode>,
    opts: VcxprojOptsView,
    guids: Seq<Seq<char>>,
    exes: Seq<Executable>,
    st: MsvcStateView,
)
    requires
        0 <= st.exes_seen,
        nodes.len() + st.exes_seen + exes.len() <= guids.len(),
    ensures
        programs_supplied(exes_added(nodes, opts, guids, exes, st), st, exes.len() as int),
    decreases exes.len(),
{
    if exes.len() != 0 {
        lemma_exes_supplied(nodes, opts, guids, exes.drop_last(), st);
        match exes_added(nodes, opts, guids, exes.drop_last(), st) {
            Ok(s) => {
                lemma_exe_supplied(nodes, opts, guids, &exes.last(), s);
            },
            Err(_) => {},
        }
    }
}

/// The same of the first `n` projects that a project depends on.
pub proof fn lemma_subprojects_supplied(
    nodes: Seq<LinkNode>,
    opts: VcxprojOptsView,
    guids: Seq<Seq<char>>,
    project: Project,
    n: int,
    st: MsvcStateView,
)
    requires
        project_fits(nodes, project),
        0 <= st.exes_seen,
        nodes.len() + st.exes_seen + sub_exe_count(project, n) <= guids.len(),
    ensures
        programs_supplied(
            subprojects_added(nodes, opts, guids, project, n, st),
            st,
            sub_exe_count(project, n) as int,
        ),
    decreases project, n,
{
    if !(n <= 0 || n > project.dependencies@.len()) {
        lemma_subprojects_supplied(nodes, opts, guids, project, n - 1, st);
        match subprojects_added(nodes, opts, guids, project, n - 1, st) {
            Ok(s) => {
                lemma_project_supplied(nodes, opts, guids, project.dependencies@[n - 1], s);
            },
            Err(_) => {},
        }
    }
}

/// The same of a project with all it depends on.
pub proof fn lemma_project_supplied(
    nodes: Seq<LinkNode>,
    opts: VcxprojOptsView,
    guids: Seq<Seq<char>>,
    project: Project,
    st: MsvcStateView,
)
    requires
        project_fits(nodes, project),
        0 <= st.exes_seen,
        nodes.len() + st.exes_seen + exe_count(project) <= guids.len(),
    ensures
        programs_supplied(
            project_added(nodes, opts, guids, project, st),
            st,
            exe_count(project) as int,
        ),
    decreases project,
{
    let deps = project.dependencies@.len() as int;
    lemma_subprojects_supplied(nodes, opts, guids, project, deps, st);
    match subprojects_added(nodes, opts, guids, project, deps, st) {
        Ok(s0) => {
            lemma_libs_supplied(nodes, opts, guids, project.static_libraries@, s0);
            match libs_added(nodes, opts, guids, project.static_libraries@, s0) {
                Ok(s1) => {
                    lemma_libs_supplied(nodes, opts, guids, project.object_libraries@, s1);
                    match libs_added(nodes, opts, guids, project.object_libraries@, s1) {
                        Ok(s2) => {
                            lemma_exes_supplied(nodes, opts, guids, project.executables@, s2);
                        },
                        Err(_) => {},
                    }
                },
                Err(_) => {},
            }
        },
        Err(_) => {},
    }
}

/// A run that is given a GUID for every library of the graph, one for
/// every program that the walk meets and one for the solution does not
/// fail for want of a GUID.
pub proof fn lemma_pool_suffices(
    nodes: Seq<LinkNode>,
    project: Project,
    build_dir: Seq<char>,
    toolchain: &Toolchain,
    global_opts: &GlobalOptions,
    guids: Seq<Seq<char>>,
)
    requires
        project_fits(nodes, project),
        guids.len() >= nodes.len() + exe_count(project) + 1,
    ensures
        !ran_short(msvc_generated(nodes, project, build_dir, toolchain, global_opts, guids)),
{
    let r = msvc_generated(nodes, project, build_dir, toolchain, global_opts, guids);
    reveal_strlit("Toolchain doesn't contain any msvc_platforms, required for MSVC generator");
    reveal_strlit(
        "Toolchain doesn't contain any profiles with a \"vcxproj\" section, required for MSVC generator",
    );
    reveal_strlit(
        "Toolchain does not contain a NASM assembler, required for files in this project",
    );
    reveal_strlit("Unrecognized value for option for \"c_standard\": \"");
    reveal_strlit("Unrecognized value for option for \"cpp_standard\": \"");
    if toolchain.msvc_platforms@.len() != 0 {
        match spec_parse_c_standard(option_text(global_opts.c_standard)) {
            Err(e) => {
                assert(e[0] == "Unrecognized value for option for \"c_standard\": \""@[0]);
            },
            Ok(c_standard) => match spec_parse_cpp_standard(
                option_text(global_opts.cpp_standard),
            ) {
                Err(e) => {
                    assert(e[0] == "Unrecognized value for option for \"cpp_standard\": \""@[0]);
                },
                Ok(cpp_standard) => {
                    if fragments(toolchain.profile@).len() != 0 {
                        lemma_project_supplied(
                            nodes,
                            VcxprojOptsView {
                                build_dir,
                                profiles: fragments(toolchain.profile@),
                                msvc_platforms: texts(toolchain.msvc_platforms@),
                                opts: Options { c_standard, cpp_standard },
                            },
                            guids,
                            project,
                            MsvcStateView::empty(),
                        );
                    }
                },
            },
        }
    }
    assert(well_supplied(r));
    lemma_well_supplied(r);
}

} // verus!
