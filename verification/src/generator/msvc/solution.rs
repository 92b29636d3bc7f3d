//! The projects of a solution and the references between them.

use vstd::prelude::*;
use super::reached::{
    lemma_references_stop, lib_reached, made_reached, next_reference_reached,
    references_reached,
};
use super::index_map::{IndexMap, IndexMapView, VsProject, VsProjectView};
use super::vcxproj::{
    make_vcxproj_head, make_vcxproj_tail, mixed_sources_message, vcxproj_head, vcxproj_tail,
    TargetData, TargetDataView, VcxprojOpts, VcxprojOptsView,
};
use crate::executable::Executable;
use crate::generator::{file_views, GeneratedFile, GeneratedFileView};
use crate::graph::{collected, names, surface, LinkNode, TargetGraph};
use crate::link_type::{LinkPtr, Property};
use crate::misc::{
    join_path, spec_join_path, spec_strip_verbatim, strip_verbatim, Sources, SourcesView,
};
use crate::project::{ProjectInfo, ProjectInfoView};
use crate::target::Target;
use crate::text::{spec_to_ascii_uppercase, texts, to_ascii_uppercase};
use crate::unique::extend_strings;

verus! {

/// What a run of the generator has made so far: the projects, the files
/// to be written, and how many programs were dealt with.
#[derive(Debug)]
pub struct MsvcState {
    pub guid_map: IndexMap,
    pub files: Vec<GeneratedFile>,
    pub exes_seen: usize,
}

/// The mathematical value of [`MsvcState`].
pub struct MsvcStateView {
    pub map: IndexMapView,
    pub files: Seq<GeneratedFileView>,
    pub exes_seen: int,
}

impl MsvcStateView {
    /// Nothing made yet.
    pub open spec fn empty() -> MsvcStateView {
        MsvcStateView { map: IndexMapView::empty(), files: Seq::empty(), exes_seen: 0 }
    }
}

impl View for MsvcState {
    type V = MsvcStateView;

    open spec fn view(&self) -> MsvcStateView {
        MsvcStateView {
            map: self.guid_map@,
            files: file_views(self.files@),
            exes_seen: self.exes_seen as int,
        }
    }
}

impl MsvcState {
    /// Nothing made yet.
    pub fn new() -> (r: Self)
        ensures
            r@ == MsvcStateView::empty(),
    {
        let r = MsvcState { guid_map: IndexMap::new(), files: Vec::new(), exes_seen: 0 };
        assert(r@.files =~= Seq::empty());
        r
    }
}

/// The paths of `paths`, each without the marker for a literal path.
pub open spec fn stripped(paths: Seq<Seq<char>>) -> Seq<Seq<char>> {
    Seq::new(paths.len(), |i: int| spec_strip_verbatim(paths[i]))
}

/// The paths of `paths`, each without the marker for a literal path.
pub fn strip_all(paths: &Vec<String>) -> (r: Vec<String>)
    ensures
        texts(r@) == stripped(texts(paths@)),
{
    let mut out: Vec<String> = Vec::new();
    let mut i: usize = 0;
    while i < paths.len()
        invariant
            i <= paths@.len(),
            texts(out@) == stripped(texts(paths@)).take(i as int),
        decreases paths@.len() - i,
    {
        let ghost before = out@;
        out.push(strip_verbatim(paths[i].as_str()));
        i += 1;
        proof {
            let all = stripped(texts(paths@));
            assert(texts(out@) =~= texts(before).push(all[i - 1]));
            assert(all.take(i as int) =~= all.take(i - 1).push(all[i - 1]));
        }
    }
    assert(stripped(texts(paths@)).take(paths@.len() as int) =~= stripped(texts(paths@)));
    out
}

/// What the library at `at` contributes to its project file.
pub open spec fn lib_target(nodes: Seq<LinkNode>, at: int) -> TargetDataView {
    TargetDataView {
        name: nodes[at].spec_name(),
        includes: stripped(
            surface(nodes, at, Property::Includes) + nodes[at].spec_private_includes(),
        ),
        defines: surface(nodes, at, Property::Defines) + nodes[at].spec_private_defines(),
    }
}

/// What a program contributes to its project file.
pub open spec fn exe_target(nodes: Seq<LinkNode>, exe: &Executable) -> TargetDataView {
    TargetDataView {
        name: exe.name@,
        includes: stripped(
            collected(nodes, exe.links@, exe.own(Property::Includes), Property::Includes),
        ),
        defines: collected(nodes, exe.links@, exe.own(Property::Defines), Property::Defines),
    }
}

/// Where the project file of a target is put, seen from the build
/// directory.
pub open spec fn vcxproj_rel_path(project_name: Seq<char>, target_name: Seq<char>) -> Seq<char> {
    spec_join_path(spec_join_path(project_name, target_name), target_name + ".vcxproj"@)
}

/// The reference to the project at `path` with the GUID `guid`, made
/// for the library `name`.
pub open spec fn reference_entry(path: Seq<char>, guid: Seq<char>, name: Seq<char>) -> Seq<char> {
    "    <ProjectReference Include=\""@ + path + "\">\n      <Project>{"@ + guid
        + "}</Project>\n      <Name>"@ + name
        + "</Name>\n      <ReferenceOutputAssembly>false</ReferenceOutputAssembly>\n      <CopyToOutputDirectory>Never</CopyToOutputDirectory>\n    </ProjectReference>\n"@
}

/// The message for a run that was given fewer GUIDs than it has
/// projects.
pub open spec fn no_guid_message() -> Seq<char> {
    "Not enough GUIDs for the projects of the solution"@
}

/// The GUID at `at`, in upper case.
pub open spec fn guid_at(guids: Seq<Seq<char>>, at: int) -> Result<Seq<char>, Seq<char>> {
    if 0 <= at < guids.len() {
        Ok(spec_to_ascii_uppercase(guids[at]))
    } else {
        Err(no_guid_message())
    }
}

/// The references that a project file holds, the GUIDs of the projects
/// it depends on, and what was made on the way.
pub struct References {
    pub text: Seq<char>,
    pub deps: Seq<Seq<char>>,
    pub st: MsvcStateView,
}

/// The references so far with that to the project of `link` added. A
/// static or object library is referred to by its project, which is made
/// first where there is none yet. An interface library has no project:
/// what it links is referred to in its place. Only a link below `bound`
/// counts.
pub open spec fn next_reference(
    nodes: Seq<LinkNode>,
    opts: VcxprojOptsView,
    guids: Seq<Seq<char>>,
    link: LinkPtr,
    bound: int,
    head: References,
) -> Result<References, Seq<char>>
    decreases bound, 0int, 0int,
{
    let at = link.spec_index();
    if !(0 <= at < bound && at < nodes.len()) {
        Ok(head)
    } else {
        match nodes[at] {
            LinkNode::Interface(x) => match references(nodes, opts, guids, x.links@, at, head.st) {
                Err(e) => Err(e),
                Ok(inner) => Ok(
                    References {
                        text: head.text + inner.text,
                        deps: head.deps + inner.deps,
                        st: inner.st,
                    },
                ),
            },
            _ => {
                let made = if head.st.map.get(link.spec_key()) is Some {
                    Ok(head.st)
                } else {
                    lib_added(nodes, opts, guids, at, head.st)
                };
                match made {
                    Err(e) => Err(e),
                    Ok(s) => match s.map.get(link.spec_key()) {
                        Some(proj_ref) => Ok(
                            References {
                                text: head.text + reference_entry(
                                    spec_join_path(opts.build_dir, proj_ref.vcxproj_path),
                                    proj_ref.guid,
                                    nodes[at].spec_name(),
                                ),
                                deps: head.deps.push(proj_ref.guid),
                                st: s,
                            },
                        ),
                        None => Ok(References { st: s, ..head }),
                    },
                }
            },
        }
    }
}

/// The references to the projects of `links`, in turn.
pub open spec fn references(
    nodes: Seq<LinkNode>,
    opts: VcxprojOptsView,
    guids: Seq<Seq<char>>,
    links: Seq<LinkPtr>,
    bound: int,
    st: MsvcStateView,
) -> Result<References, Seq<char>>
    decreases bound, 0int, links.len() + 1,
{
    if links.len() == 0 {
        Ok(References { text: Seq::empty(), deps: Seq::empty(), st })
    } else {
        match references(nodes, opts, guids, links.drop_last(), bound, st) {
            Err(e) => Err(e),
            Ok(head) => next_reference(nodes, opts, guids, links.last(), bound, head),
        }
    }
}

/// One more link is one more reference.
pub proof fn lemma_references_step(
    nodes: Seq<LinkNode>,
    opts: VcxprojOptsView,
    guids: Seq<Seq<char>>,
    links: Seq<LinkPtr>,
    bound: int,
    st: MsvcStateView,
    i: int,
)
    requires
        0 <= i < links.len(),
    ensures
        references(nodes, opts, guids, links.take(i + 1), bound, st) == (match references(
            nodes,
            opts,
            guids,
            links.take(i),
            bound,
            st,
        ) {
            Err(e) => Err(e),
            Ok(head) => next_reference(nodes, opts, guids, links[i], bound, head),
        }),
{
    assert(links.take(i + 1).drop_last() =~= links.take(i));
    assert(links.take(i + 1).last() == links[i]);
}

/// The project of a target: its file is noted to be written. A target
/// that mixes C and C++ is refused.
pub open spec fn made(
    nodes: Seq<LinkNode>,
    opts: VcxprojOptsView,
    guids: Seq<Seq<char>>,
    configuration_type: Seq<char>,
    project: ProjectInfoView,
    target: TargetDataView,
    sources: SourcesView,
    links: Seq<LinkPtr>,
    bound: int,
    guid: Seq<char>,
    st: MsvcStateView,
) -> Result<(VsProjectView, MsvcStateView), Seq<char>>
    decreases bound, 0int, links.len() + 2,
{
    if sources.c.len() != 0 && sources.cpp.len() != 0 {
        Err(mixed_sources_message(target.name))
    } else {
        match vcxproj_head(opts, configuration_type, project.path, target, sources, guid) {
            Err(e) => Err(e),
            Ok(head) => {
                let refs = if links.len() != 0 {
                    references(nodes, opts, guids, links, bound, st)
                } else {
                    Ok(References { text: Seq::empty(), deps: Seq::empty(), st })
                };
                match refs {
                    Err(e) => Err(e),
                    Ok(r) => {
                        let rel = vcxproj_rel_path(project.name, target.name);
                        let has_nasm = sources.nasm.len() != 0;
                        Ok(
                            (
                                VsProjectView {
                                    name: target.name,
                                    guid,
                                    vcxproj_path: rel,
                                    dependencies: r.deps,
                                    has_nasm,
                                },
                                MsvcStateView {
                                    files: r.st.files.push(
                                        GeneratedFileView {
                                            path: spec_join_path(opts.build_dir, rel),
                                            content: head + vcxproj_tail(
                                                if links.len() != 0 {
                                                    Some(r.text)
                                                } else {
                                                    None
                                                },
                                                has_nasm,
                                            ),
                                        },
                                    ),
                                    ..r.st
                                },
                            ),
                        )
                    },
                }
            },
        }
    }
}

/// The project of the library at `at`, made and noted under the
/// library's place.
pub open spec fn lib_added(
    nodes: Seq<LinkNode>,
    opts: VcxprojOptsView,
    guids: Seq<Seq<char>>,
    at: int,
    st: MsvcStateView,
) -> Result<MsvcStateView, Seq<char>>
    decreases at, 1int, 0int,
{
    match guid_at(guids, at) {
        Err(e) => Err(e),
        Ok(guid) => match made(
            nodes,
            opts,
            guids,
            "StaticLibrary"@,
            nodes[at].spec_project(),
            lib_target(nodes, at),
            nodes[at].spec_sources(),
            nodes[at].direct_links(),
            at,
            guid,
            st,
        ) {
            Err(e) => Err(e),
            Ok((vsproj, s)) => Ok(MsvcStateView { map: s.map.insert(at as usize, vsproj), ..s }),
        },
    }
}

/// A failure among the first `n` links is the failure of the whole list.
pub proof fn lemma_references_prefix(
    nodes: Seq<LinkNode>,
    opts: VcxprojOptsView,
    guids: Seq<Seq<char>>,
    links: Seq<LinkPtr>,
    bound: int,
    st: MsvcStateView,
    n: int,
)
    requires
        0 <= n <= links.len(),
        references(nodes, opts, guids, links.take(n), bound, st) is Err,
    ensures
        references(nodes, opts, guids, links, bound, st) == references(
            nodes,
            opts,
            guids,
            links.take(n),
            bound,
            st,
        ),
    decreases links.len() - n,
{
    if n < links.len() {
        assert(links.take(n + 1).drop_last() =~= links.take(n));
        lemma_references_prefix(nodes, opts, guids, links, bound, st, n + 1);
    } else {
        assert(links.take(n) =~= links);
    }
}

/// The GUID at `at`, in upper case.
pub fn take_guid(guids: &Vec<String>, at: usize) -> (r: Result<String, String>)
    ensures
        match guid_at(texts(guids@), at as int) {
            Ok(v) => r matches Ok(x) && x@ == v,
            Err(e) => r matches Err(m) && m@ == e,
        },
{
    if at < guids.len() {
        Ok(to_ascii_uppercase(guids[at].as_str()))
    } else {
        Err("Not enough GUIDs for the projects of the solution".to_owned())
    }
}

/// Writes the reference to the project of `link` and notes the GUID of
/// that project in `dependencies`. The project of a library that has none
/// yet is made first.
pub fn add_project_reference(
    graph: &TargetGraph,
    link: LinkPtr,
    bound: usize,
    proj_opts: &VcxprojOpts,
    guids: &Vec<String>,
    state: &mut MsvcState,
    out_str: &mut String,
    dependencies: &mut Vec<String>,
) -> (r: Result<(), String>)
    ensures
        match next_reference(
            graph@,
            proj_opts@,
            texts(guids@),
            link,
            bound as int,
            (References {
                text: old(out_str)@,
                deps: texts(old(dependencies)@),
                st: old(state)@,
            }),
        ) {
            Ok(refs) => r is Ok && final(out_str)@ == refs.text && texts(final(dependencies)@)
                == refs.deps && final(state)@ == refs.st,
            Err(e) => r matches Err(m) && m@ == e && final(state)@ == next_reference_reached(
                graph@,
                proj_opts@,
                texts(guids@),
                link,
                bound as int,
                (References {
                    text: old(out_str)@,
                    deps: texts(old(dependencies)@),
                    st: old(state)@,
                }),
            ),
        },
    decreases bound, 0int, 0int,
{
    let at = link.index();
    if !(at < bound && at < graph.len()) {
        return Ok(());
    }
    match graph.node_at(at) {
        LinkNode::Interface(x) => {
            let (text, inner_deps) = match add_project_references(
                graph,
                &x.links,
                at,
                proj_opts,
                guids,
                state,
            ) {
                Ok(t) => t,
                Err(e) => {
                    return Err(e);
                },
            };
            out_str.append(text.as_str());
            extend_strings(dependencies, &inner_deps);
            Ok(())
        },
        _ => {
            if state.guid_map.get(at).is_none() {
                match add_lib(graph, at, proj_opts, guids, state) {
                    Ok(_) => {},
                    Err(e) => {
                        return Err(e);
                    },
                }
            }
            match state.guid_map.get(at) {
                Some(proj_ref) => {
                    let ghost deps_before = dependencies@;
                    dependencies.push(proj_ref.guid.clone());
                    assert(texts(dependencies@) =~= texts(deps_before).push(proj_ref.guid@));
                    let proj_ref_include = join_path(
                        proj_opts.build_dir.as_str(),
                        proj_ref.vcxproj_path.as_str(),
                    );
                    let ghost before = out_str@;
                    out_str.append("    <ProjectReference Include=\"");
                    out_str.append(proj_ref_include.as_str());
                    out_str.append("\">\n      <Project>{");
                    out_str.append(proj_ref.guid.as_str());
                    out_str.append("}</Project>\n      <Name>");
                    out_str.append(graph.node_at(at).name());
                    out_str.append(
                        "</Name>\n      <ReferenceOutputAssembly>false</ReferenceOutputAssembly>\n      <CopyToOutputDirectory>Never</CopyToOutputDirectory>\n    </ProjectReference>\n",
                    );
                    assert(out_str@ =~= before + reference_entry(
                        proj_ref_include@,
                        proj_ref.guid@,
                        graph@[at as int].spec_name(),
                    ));
                    Ok(())
                },
                None => Ok(()),
            }
        },
    }
}

/// Writes the references to the projects of `links`, in turn, and gives
/// with them the GUIDs of those projects.
pub fn add_project_references(
    graph: &TargetGraph,
    links: &Vec<LinkPtr>,
    bound: usize,
    proj_opts: &VcxprojOpts,
    guids: &Vec<String>,
    state: &mut MsvcState,
) -> (r: Result<(String, Vec<String>), String>)
    ensures
        match references(graph@, proj_opts@, texts(guids@), links@, bound as int, old(state)@) {
            Ok(refs) => r matches Ok((t, d)) && t@ == refs.text && texts(d@) == refs.deps
                && final(state)@ == refs.st,
            Err(e) => r matches Err(m) && m@ == e && final(state)@ == references_reached(
                graph@,
                proj_opts@,
                texts(guids@),
                links@,
                bound as int,
                old(state)@,
            ),
        },
    decreases bound, 0int, 1int,
{
    let mut out_str = String::new();
    let mut dependencies: Vec<String> = Vec::new();
    assert(texts(dependencies@) =~= Seq::<Seq<char>>::empty());
    let ghost st0 = state@;
    let mut i: usize = 0;
    while i < links.len()
        invariant
            i <= links@.len(),
            st0 == old(state)@,
            references(graph@, proj_opts@, texts(guids@), links@.take(i as int), bound as int, st0)
                == Ok::<References, Seq<char>>(
                References { text: out_str@, deps: texts(dependencies@), st: state@ },
            ),
        decreases links@.len() - i,
    {
        proof {
            lemma_references_step(
                graph@,
                proj_opts@,
                texts(guids@),
                links@,
                bound as int,
                st0,
                i as int,
            );
        }
        match add_project_reference(
            graph,
            links[i],
            bound,
            proj_opts,
            guids,
            state,
            &mut out_str,
            &mut dependencies,
        ) {
            Ok(()) => {},
            Err(e) => {
                proof {
                    lemma_references_prefix(
                        graph@,
                        proj_opts@,
                        texts(guids@),
                        links@,
                        bound as int,
                        st0,
                        i + 1,
                    );
                    lemma_references_stop(
                        graph@,
                        proj_opts@,
                        texts(guids@),
                        links@,
                        bound as int,
                        st0,
                        i + 1,
                    );
                    assert(links@.take(i + 1).drop_last() =~= links@.take(i as int));
                    assert(links@.take(i + 1).last() == links@[i as int]);
                }
                return Err(e);
            },
        }
        i += 1;
    }
    assert(links@.take(links@.len() as int) =~= links@);
    Ok((out_str, dependencies))
}

/// Makes the project of a target and notes its file to be written. A
/// target that mixes C and C++ is refused, and nothing is noted or changed
/// for it. Where a reference fails, no file is noted for the target
/// either; the projects made for the references before it stay.
pub fn make_vcxproj(
    graph: &TargetGraph,
    proj_opts: &VcxprojOpts,
    guids: &Vec<String>,
    configuration_type: &str,
    project_info: &ProjectInfo,
    target_data: &TargetData,
    sources: &Sources,
    links: &Vec<LinkPtr>,
    bound: usize,
    guid: String,
    state: &mut MsvcState,
) -> (r: Result<VsProject, String>)
    ensures
        match made(
            graph@,
            proj_opts@,
            texts(guids@),
            configuration_type@,
            project_info@,
            target_data@,
            sources@,
            links@,
            bound as int,
            guid@,
            old(state)@,
        ) {
            Ok((vsproj, st)) => r matches Ok(x) && x@ == vsproj && final(state)@ == st,
            Err(e) => r matches Err(m) && m@ == e && final(state)@ == made_reached(
                graph@,
                proj_opts@,
                texts(guids@),
                configuration_type@,
                project_info@,
                target_data@,
                sources@,
                links@,
                bound as int,
                guid@,
                old(state)@,
            ) && (sources@.c.len() != 0 && sources@.cpp.len() != 0 ==> final(state)@ == old(
                state,
            )@),
        },
    decreases bound, 0int, 3int,
{
    if sources.c.len() != 0 && sources.cpp.len() != 0 {
        let mut msg: String =
            "This generator does not support mixing C and C++ sources. Consider splitting them into separate libraries. Target: ".to_owned();
        msg.append(target_data.name.as_str());
        return Err(msg);
    }
    let mut out_str = match make_vcxproj_head(
        proj_opts,
        configuration_type,
        project_info.path.as_str(),
        target_data,
        sources,
        guid.as_str(),
    ) {
        Ok(x) => x,
        Err(e) => {
            return Err(e);
        },
    };
    let mut dependencies: Vec<String> = Vec::new();
    assert(texts(dependencies@) =~= Seq::<Seq<char>>::empty());
    let mut refs: Option<String> = None;
    if links.len() != 0 {
        match add_project_references(graph, links, bound, proj_opts, guids, state) {
            Ok((t, d)) => {
                refs = Some(t);
                dependencies = d;
            },
            Err(e) => {
                return Err(e);
            },
        }
    }
    let has_nasm = sources.nasm.len() != 0;
    let tail = make_vcxproj_tail(&refs, has_nasm);
    out_str.append(tail.as_str());
    let dir = join_path(project_info.name.as_str(), target_data.name.as_str());
    let mut file_name = target_data.name.clone();
    file_name.append(".vcxproj");
    let vcxproj_path = join_path(dir.as_str(), file_name.as_str());
    let ghost files_before = state.files@;
    let file = GeneratedFile {
        path: join_path(proj_opts.build_dir.as_str(), vcxproj_path.as_str()),
        content: out_str,
    };
    state.files.push(file);
    assert(file_views(state.files@) =~= file_views(files_before).push(file@));
    Ok(
        VsProject {
            name: target_data.name.clone(),
            guid,
            vcxproj_path,
            dependencies,
            has_nasm,
        },
    )
}

/// Makes the project of the library at `at` and notes it under the
/// library's place.
pub(crate) fn add_lib(
    graph: &TargetGraph,
    at: usize,
    proj_opts: &VcxprojOpts,
    guids: &Vec<String>,
    state: &mut MsvcState,
) -> (r: Result<VsProject, String>)
    requires
        at < graph@.len(),
        !(graph@[at as int] is Interface),
    ensures
        match lib_added(graph@, proj_opts@, texts(guids@), at as int, old(state)@) {
            Ok(st) => r is Ok && final(state)@ == st && st.map.get(at) == Some(r->Ok_0@),
            Err(e) => r matches Err(m) && m@ == e && final(state)@ == lib_reached(
                graph@,
                proj_opts@,
                texts(guids@),
                at as int,
                old(state)@,
            ),
        },
    decreases at, 1int, 0int,
{
    let guid = match take_guid(guids, at) {
        Ok(g) => g,
        Err(e) => {
            return Err(e);
        },
    };
    let ptr = graph.ptr_at(at);
    let mut includes = graph.public_includes_recursive(ptr);
    let mut defines = graph.public_defines_recursive(ptr);
    let vsproj = match graph.node_at(at) {
        LinkNode::Static(lib) => {
            extend_strings(&mut includes, &lib.private_includes());
            extend_strings(&mut defines, &lib.private_defines());
            let mut links = crate::link_type::clone_links(&lib.link_private);
            let mut rest = crate::link_type::clone_links(&lib.link_public);
            links.append(&mut rest);
            let target_data = TargetData {
                name: lib.name.clone(),
                includes: strip_all(&includes),
                defines,
            };
            proof {
                assert(target_data@.includes =~= lib_target(graph@, at as int).includes);
                assert(target_data@.defines =~= lib_target(graph@, at as int).defines);
                assert(target_data@ == lib_target(graph@, at as int));
                assert(links@ =~= graph@[at as int].direct_links());
            }
            match make_vcxproj(
                graph,
                proj_opts,
                guids,
                "StaticLibrary",
                &lib.project,
                &target_data,
                &lib.sources,
                &links,
                at,
                guid,
                state,
            ) {
                Ok(x) => x,
                Err(e) => {
                    return Err(e);
                },
            }
        },
        LinkNode::Object(lib) => {
            extend_strings(&mut includes, &lib.private_includes());
            extend_strings(&mut defines, &lib.private_defines());
            let mut links = crate::link_type::clone_links(&lib.link_private);
            let mut rest = crate::link_type::clone_links(&lib.link_public);
            links.append(&mut rest);
            let target_data = TargetData {
                name: lib.name.clone(),
                includes: strip_all(&includes),
                defines,
            };
            proof {
                assert(target_data@.includes =~= lib_target(graph@, at as int).includes);
                assert(target_data@.defines =~= lib_target(graph@, at as int).defines);
                assert(target_data@ == lib_target(graph@, at as int));
                assert(links@ =~= graph@[at as int].direct_links());
            }
            match make_vcxproj(
                graph,
                proj_opts,
                guids,
                "StaticLibrary",
                &lib.project,
                &target_data,
                &lib.sources,
                &links,
                at,
                guid,
                state,
            ) {
                Ok(x) => x,
                Err(e) => {
                    return Err(e);
                },
            }
        },
        LinkNode::Interface(_) => vstd::pervasive::unreached(),
    };
    let count = state.guid_map.len();
    state.guid_map.insert(at, vsproj.duplicate());
    assert(state@.map.projects[count as int] == vsproj@);
    Ok(vsproj)
}

/// Makes the project of a static library.
pub fn add_static_lib(
    graph: &TargetGraph,
    ptr: LinkPtr,
    proj_opts: &VcxprojOpts,
    guids: &Vec<String>,
    state: &mut MsvcState,
) -> (r: Result<VsProject, String>)
    requires
        names(graph@, ptr),
        ptr is Static,
    ensures
        match lib_added(graph@, proj_opts@, texts(guids@), ptr.spec_index(), old(state)@) {
            Ok(st) => r is Ok && final(state)@ == st && st.map.get(ptr.spec_key()) == Some(
                r->Ok_0@,
            ),
            Err(e) => r matches Err(m) && m@ == e && final(state)@ == lib_reached(
                graph@,
                proj_opts@,
                texts(guids@),
                ptr.spec_index(),
                old(state)@,
            ),
        },
{
    add_lib(graph, ptr.index(), proj_opts, guids, state)
}

/// Makes the project of an object library.
pub fn add_object_lib(
    graph: &TargetGraph,
    ptr: LinkPtr,
    proj_opts: &VcxprojOpts,
    guids: &Vec<String>,
    state: &mut MsvcState,
) -> (r: Result<VsProject, String>)
    requires
        names(graph@, ptr),
        ptr is Object,
    ensures
        match lib_added(graph@, proj_opts@, texts(guids@), ptr.spec_index(), old(state)@) {
            Ok(st) => r is Ok && final(state)@ == st && st.map.get(ptr.spec_key()) == Some(
                r->Ok_0@,
            ),
            Err(e) => r matches Err(m) && m@ == e && final(state)@ == lib_reached(
                graph@,
                proj_opts@,
                texts(guids@),
                ptr.spec_index(),
                old(state)@,
            ),
        },
{
    add_lib(graph, ptr.index(), proj_opts, guids, state)
}

} // verus!
