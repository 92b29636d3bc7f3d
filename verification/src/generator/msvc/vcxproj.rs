//! The text of a Visual Studio project file.

use vstd::prelude::*;
use super::item::{
    append_elements, element_lines, item_definition_group, spec_item_definition_group, Options,
    ProfileFragment, ProfileFragmentView,
};
use crate::generator::ninja::paths::{input_path, spec_input_path};
use crate::misc::{path_views, SourcePath, SourcePathView, Sources, SourcesView};
use crate::text::texts;

verus! {

/// The profiles that the generator reads, by name.
pub open spec fn fragment_views(v: Seq<(String, ProfileFragment)>) -> Seq<
    (Seq<char>, ProfileFragmentView),
> {
    Seq::new(v.len(), |i: int| (v[i].0@, v[i].1@))
}

/// What holds for every project file of a run.
pub struct VcxprojOpts {
    pub build_dir: String,
    pub profiles: Vec<(String, ProfileFragment)>,
    pub msvc_platforms: Vec<String>,
    pub opts: Options,
}

/// The mathematical value of [`VcxprojOpts`].
pub struct VcxprojOptsView {
    pub build_dir: Seq<char>,
    pub profiles: Seq<(Seq<char>, ProfileFragmentView)>,
    pub msvc_platforms: Seq<Seq<char>>,
    pub opts: Options,
}

impl View for VcxprojOpts {
    type V = VcxprojOptsView;

    open spec fn view(&self) -> VcxprojOptsView {
        VcxprojOptsView {
            build_dir: self.build_dir@,
            profiles: fragment_views(self.profiles@),
            msvc_platforms: texts(self.msvc_platforms@),
            opts: self.opts,
        }
    }
}

/// The name under which a profile and a platform make a configuration.
pub open spec fn configuration_name(profile_name: Seq<char>, platform: Seq<char>) -> Seq<char> {
    profile_name + "|"@ + platform
}

/// The declaration of one configuration.
pub open spec fn configuration_entry(profile_name: Seq<char>, platform: Seq<char>) -> Seq<char> {
    "    <ProjectConfiguration Include=\""@ + configuration_name(profile_name, platform) + "\">\n"@
        + "      <Configuration>"@ + profile_name + "</Configuration>\n"@ + "      <Platform>"@
        + platform + "</Platform>\n"@ + "    </ProjectConfiguration>\n"@
}

/// The basic properties of one configuration.
pub open spec fn property_entry(
    profile_name: Seq<char>,
    profile: ProfileFragmentView,
    platform: Seq<char>,
    configuration_type: Seq<char>,
) -> Seq<char> {
    "  <PropertyGroup Condition=\"'$(Configuration)|$(Platform)'=='"@ + configuration_name(
        profile_name,
        platform,
    ) + "'\" Label=\"Configuration\">\n"@ + "    <ConfigurationType>"@ + configuration_type
        + "</ConfigurationType>\n"@ + "    <PlatformToolset>v143</PlatformToolset>\n"@
        + element_lines(profile.vcxproj.property_group, "    "@) + "  </PropertyGroup>\n"@
}

/// The property sheets of one configuration.
pub open spec fn sheet_entry(profile_name: Seq<char>, platform: Seq<char>) -> Seq<char> {
    "  <ImportGroup Label=\"PropertySheets\" Condition=\"'$(Configuration)|$(Platform)'=='"@
        + configuration_name(profile_name, platform) + "'\">\n"@
        + "    <Import Project=\"$(UserRootDir)\\Microsoft.Cpp.$(Platform).user.props\" Condition=\"exists('$(UserRootDir)\\Microsoft.Cpp.$(Platform).user.props')\" Label=\"LocalAppDataPlatform\" />\n"@
        + "  </ImportGroup>\n"@
}

/// What a target contributes to its project file.
pub struct TargetData {
    pub name: String,
    pub includes: Vec<String>,
    pub defines: Vec<String>,
}

/// The mathematical value of [`TargetData`].
pub struct TargetDataView {
    pub name: Seq<char>,
    pub includes: Seq<Seq<char>>,
    pub defines: Seq<Seq<char>>,
}

impl View for TargetData {
    type V = TargetDataView;

    open spec fn view(&self) -> TargetDataView {
        TargetDataView {
            name: self.name@,
            includes: texts(self.includes@),
            defines: texts(self.defines@),
        }
    }
}

/// The part of a project file that is written once for every
/// configuration: for every platform in turn, every profile in turn.
pub enum Section {
    Configurations,
    Properties,
    Sheets,
    Items,
}

/// One entry of a section.
pub open spec fn section_entry(
    section: Section,
    profile_name: Seq<char>,
    profile: ProfileFragmentView,
    platform: Seq<char>,
    configuration_type: Seq<char>,
    target: TargetDataView,
    sources: SourcesView,
    opts: Options,
) -> Result<Seq<char>, Seq<char>> {
    match section {
        Section::Configurations => Ok(configuration_entry(profile_name, platform)),
        Section::Properties => Ok(
            property_entry(profile_name, profile, platform, configuration_type),
        ),
        Section::Sheets => Ok(sheet_entry(profile_name, platform)),
        Section::Items => spec_item_definition_group(
            platform,
            profile_name,
            profile,
            sources,
            target.includes,
            target.defines,
            opts,
        ),
    }
}

/// The entries of a section for one platform: one for every profile.
pub open spec fn section_row(
    section: Section,
    profiles: Seq<(Seq<char>, ProfileFragmentView)>,
    platform: Seq<char>,
    configuration_type: Seq<char>,
    target: TargetDataView,
    sources: SourcesView,
    opts: Options,
) -> Result<Seq<char>, Seq<char>>
    decreases profiles.len(),
{
    if profiles.len() == 0 {
        Ok(Seq::empty())
    } else {
        match section_row(
            section,
            profiles.drop_last(),
            platform,
            configuration_type,
            target,
            sources,
            opts,
        ) {
            Err(e) => Err(e),
            Ok(head) => match section_entry(
                section,
                profiles.last().0,
                profiles.last().1,
                platform,
                configuration_type,
                target,
                sources,
                opts,
            ) {
                Err(e) => Err(e),
                Ok(entry) => Ok(head + entry),
            },
        }
    }
}

/// A whole section: the entries for every platform in turn.
pub open spec fn section_text(
    section: Section,
    platforms: Seq<Seq<char>>,
    profiles: Seq<(Seq<char>, ProfileFragmentView)>,
    configuration_type: Seq<char>,
    target: TargetDataView,
    sources: SourcesView,
    opts: Options,
) -> Result<Seq<char>, Seq<char>>
    decreases platforms.len(),
{
    if platforms.len() == 0 {
        Ok(Seq::empty())
    } else {
        match section_text(
            section,
            platforms.drop_last(),
            profiles,
            configuration_type,
            target,
            sources,
            opts,
        ) {
            Err(e) => Err(e),
            Ok(head) => match section_row(
                section,
                profiles,
                platforms.last(),
                configuration_type,
                target,
                sources,
                opts,
            ) {
                Err(e) => Err(e),
                Ok(row) => Ok(head + row),
            },
        }
    }
}

/// A failure among the first `n` profiles is the failure of the row.
pub proof fn lemma_section_row_prefix(
    section: Section,
    profiles: Seq<(Seq<char>, ProfileFragmentView)>,
    platform: Seq<char>,
    configuration_type: Seq<char>,
    target: TargetDataView,
    sources: SourcesView,
    opts: Options,
    n: int,
)
    requires
        0 <= n <= profiles.len(),
        section_row(
            section,
            profiles.take(n),
            platform,
            configuration_type,
            target,
            sources,
            opts,
        ) is Err,
    ensures
        section_row(section, profiles, platform, configuration_type, target, sources, opts)
            == section_row(
            section,
            profiles.take(n),
            platform,
            configuration_type,
            target,
            sources,
            opts,
        ),
    decreases profiles.len() - n,
{
    if n < profiles.len() {
        assert(profiles.take(n + 1).drop_last() =~= profiles.take(n));
        lemma_section_row_prefix(
            section,
            profiles,
            platform,
            configuration_type,
            target,
            sources,
            opts,
            n + 1,
        );
    } else {
        assert(profiles.take(n) =~= profiles);
    }
}

/// A failure among the first `n` platforms is the failure of the
/// section.
pub proof fn lemma_section_text_prefix(
    section: Section,
    platforms: Seq<Seq<char>>,
    profiles: Seq<(Seq<char>, ProfileFragmentView)>,
    configuration_type: Seq<char>,
    target: TargetDataView,
    sources: SourcesView,
    opts: Options,
    n: int,
)
    requires
        0 <= n <= platforms.len(),
        section_text(
            section,
            platforms.take(n),
            profiles,
            configuration_type,
            target,
            sources,
            opts,
        ) is Err,
    ensures
        section_text(section, platforms, profiles, configuration_type, target, sources, opts)
            == section_text(
            section,
            platforms.take(n),
            profiles,
            configuration_type,
            target,
            sources,
            opts,
        ),
    decreases platforms.len() - n,
{
    if n < platforms.len() {
        assert(platforms.take(n + 1).drop_last() =~= platforms.take(n));
        lemma_section_text_prefix(
            section,
            platforms,
            profiles,
            configuration_type,
            target,
            sources,
            opts,
            n + 1,
        );
    } else {
        assert(platforms.take(n) =~= platforms);
    }
}

/// One entry of a section.
fn make_entry(
    section: &Section,
    profile_name: &str,
    profile: &ProfileFragment,
    platform: &str,
    configuration_type: &str,
    target: &TargetData,
    sources: &Sources,
    opts: &Options,
) -> (r: Result<String, String>)
    ensures
        match section_entry(
            *section,
            profile_name@,
            profile@,
            platform@,
            configuration_type@,
            target@,
            sources@,
            *opts,
        ) {
            Ok(v) => r matches Ok(x) && x@ == v,
            Err(e) => r matches Err(m) && m@ == e,
        },
{
    match section {
        Section::Configurations => {
            let mut out: String = "    <ProjectConfiguration Include=\"".to_owned();
            let ghost b0 = out@;
            out.append(profile_name);
            out.append("|");
            out.append(platform);
            assert(out@ =~= b0 + configuration_name(profile_name@, platform@));
            out.append("\">\n");
            out.append("      <Configuration>");
            out.append(profile_name);
            out.append("</Configuration>\n");
            out.append("      <Platform>");
            out.append(platform);
            out.append("</Platform>\n");
            out.append("    </ProjectConfiguration>\n");
            Ok(out)
        },
        Section::Properties => {
            let mut out: String =
                "  <PropertyGroup Condition=\"'$(Configuration)|$(Platform)'=='".to_owned();
            let ghost b0 = out@;
            out.append(profile_name);
            out.append("|");
            out.append(platform);
            assert(out@ =~= b0 + configuration_name(profile_name@, platform@));
            out.append("'\" Label=\"Configuration\">\n");
            out.append("    <ConfigurationType>");
            out.append(configuration_type);
            out.append("</ConfigurationType>\n");
            out.append("    <PlatformToolset>v143</PlatformToolset>\n");
            append_elements(&mut out, &profile.vcxproj.property_group, "    ");
            out.append("  </PropertyGroup>\n");
            Ok(out)
        },
        Section::Sheets => {
            let mut out: String =
                "  <ImportGroup Label=\"PropertySheets\" Condition=\"'$(Configuration)|$(Platform)'=='".to_owned();
            let ghost b0 = out@;
            out.append(profile_name);
            out.append("|");
            out.append(platform);
            assert(out@ =~= b0 + configuration_name(profile_name@, platform@));
            out.append("'\">\n");
            out.append(
                "    <Import Project=\"$(UserRootDir)\\Microsoft.Cpp.$(Platform).user.props\" Condition=\"exists('$(UserRootDir)\\Microsoft.Cpp.$(Platform).user.props')\" Label=\"LocalAppDataPlatform\" />\n",
            );
            out.append("  </ImportGroup>\n");
            Ok(out)
        },
        Section::Items => item_definition_group(
            platform,
            profile_name,
            profile,
            sources,
            &target.includes,
            &target.defines,
            opts,
        ),
    }
}

/// Appends the entries of a section for one platform.
fn append_row(
    out: &mut String,
    section: &Section,
    proj_opts: &VcxprojOpts,
    platform: &str,
    configuration_type: &str,
    target: &TargetData,
    sources: &Sources,
) -> (r: Result<(), String>)
    ensures
        match section_row(
            *section,
            proj_opts@.profiles,
            platform@,
            configuration_type@,
            target@,
            sources@,
            proj_opts.opts,
        ) {
            Ok(v) => r is Ok && final(out)@ == old(out)@ + v,
            Err(e) => r matches Err(m) && m@ == e,
        },
{
    let ghost profiles = proj_opts@.profiles;
    let mut i: usize = 0;
    assert(out@ + Seq::<char>::empty() =~= out@);
    while i < proj_opts.profiles.len()
        invariant
            i <= proj_opts.profiles@.len(),
            profiles == proj_opts@.profiles,
            section_row(
                *section,
                profiles.take(i as int),
                platform@,
                configuration_type@,
                target@,
                sources@,
                proj_opts.opts,
            ) matches Ok(v) && out@ == old(out)@ + v,
        decreases proj_opts.profiles@.len() - i,
    {
        proof {
            assert(profiles.take(i + 1).drop_last() =~= profiles.take(i as int));
            assert(profiles.take(i + 1).last() == profiles[i as int]);
        }
        let ghost head = section_row(
            *section,
            profiles.take(i as int),
            platform@,
            configuration_type@,
            target@,
            sources@,
            proj_opts.opts,
        )->Ok_0;
        let entry = match make_entry(
            section,
            proj_opts.profiles[i].0.as_str(),
            &proj_opts.profiles[i].1,
            platform,
            configuration_type,
            target,
            sources,
            &proj_opts.opts,
        ) {
            Ok(x) => x,
            Err(e) => {
                proof {
                    lemma_section_row_prefix(
                        *section,
                        profiles,
                        platform@,
                        configuration_type@,
                        target@,
                        sources@,
                        proj_opts.opts,
                        i + 1,
                    );
                }
                return Err(e);
            },
        };
        out.append(entry.as_str());
        assert(out@ =~= old(out)@ + (head + entry@));
        i += 1;
    }
    assert(profiles.take(profiles.len() as int) =~= profiles);
    Ok(())
}

/// Appends a whole section.
fn append_section(
    out: &mut String,
    section: &Section,
    proj_opts: &VcxprojOpts,
    configuration_type: &str,
    target: &TargetData,
    sources: &Sources,
) -> (r: Result<(), String>)
    ensures
        match section_text(
            *section,
            proj_opts@.msvc_platforms,
            proj_opts@.profiles,
            configuration_type@,
            target@,
            sources@,
            proj_opts.opts,
        ) {
            Ok(v) => r is Ok && final(out)@ == old(out)@ + v,
            Err(e) => r matches Err(m) && m@ == e,
        },
{
    let ghost platforms = proj_opts@.msvc_platforms;
    let mut i: usize = 0;
    assert(out@ + Seq::<char>::empty() =~= out@);
    while i < proj_opts.msvc_platforms.len()
        invariant
            i <= proj_opts.msvc_platforms@.len(),
            platforms == proj_opts@.msvc_platforms,
            section_text(
                *section,
                platforms.take(i as int),
                proj_opts@.profiles,
                configuration_type@,
                target@,
                sources@,
                proj_opts.opts,
            ) matches Ok(v) && out@ == old(out)@ + v,
        decreases proj_opts.msvc_platforms@.len() - i,
    {
        proof {
            assert(platforms.take(i + 1).drop_last() =~= platforms.take(i as int));
            assert(platforms.take(i + 1).last() == proj_opts.msvc_platforms@[i as int]@);
        }
        let ghost head = section_text(
            *section,
            platforms.take(i as int),
            proj_opts@.profiles,
            configuration_type@,
            target@,
            sources@,
            proj_opts.opts,
        )->Ok_0;
        let ghost before = out@;
        match append_row(
            out,
            section,
            proj_opts,
            proj_opts.msvc_platforms[i].as_str(),
            configuration_type,
            target,
            sources,
        ) {
            Ok(()) => {},
            Err(e) => {
                proof {
                    lemma_section_text_prefix(
                        *section,
                        platforms,
                        proj_opts@.profiles,
                        configuration_type@,
                        target@,
                        sources@,
                        proj_opts.opts,
                        i + 1,
                    );
                }
                return Err(e);
            },
        }
        proof {
            let row = section_row(
                *section,
                proj_opts@.profiles,
                platforms[i as int],
                configuration_type@,
                target@,
                sources@,
                proj_opts.opts,
            )->Ok_0;
            assert(out@ =~= old(out)@ + (head + row));
        }
        i += 1;
    }
    assert(platforms.take(platforms.len() as int) =~= platforms);
    Ok(())
}

/// One element for each source, naming where it lies.
pub open spec fn source_entries(
    srcs: Seq<SourcePathView>,
    project_path: Seq<char>,
    element: Seq<char>,
) -> Seq<char>
    decreases srcs.len(),
{
    if srcs.len() == 0 {
        Seq::empty()
    } else {
        source_entries(srcs.drop_last(), project_path, element) + "    <"@ + element
            + " Include=\""@ + spec_input_path(srcs.last().full, project_path) + "\" />\n"@
    }
}

/// The group of the sources of one language; nothing where there are
/// none.
pub open spec fn source_group(
    srcs: Seq<SourcePathView>,
    project_path: Seq<char>,
    element: Seq<char>,
) -> Seq<char> {
    if srcs.len() == 0 {
        Seq::empty()
    } else {
        "  <ItemGroup>\n"@ + source_entries(srcs, project_path, element) + "  </ItemGroup>\n"@
    }
}

/// Appends the group of the sources of one language.
pub fn append_source_group(
    out: &mut String,
    srcs: &Vec<SourcePath>,
    project_path: &str,
    element: &str,
)
    ensures
        final(out)@ == old(out)@ + source_group(path_views(srcs@), project_path@, element@),
{
    if srcs.len() == 0 {
        assert(out@ + Seq::<char>::empty() =~= out@);
        return ;
    }
    let ghost all = path_views(srcs@);
    out.append("  <ItemGroup>\n");
    let ghost head = out@;
    let mut i: usize = 0;
    assert(out@ =~= head + source_entries(all.take(0), project_path@, element@));
    while i < srcs.len()
        invariant
            i <= srcs@.len(),
            all == path_views(srcs@),
            out@ == head + source_entries(all.take(i as int), project_path@, element@),
        decreases srcs@.len() - i,
    {
        proof {
            assert(all.take(i + 1).drop_last() =~= all.take(i as int));
            assert(all.take(i + 1).last() == srcs@[i as int]@);
        }
        let input = input_path(srcs[i].full.as_str(), project_path);
        out.append("    <");
        out.append(element);
        out.append(" Include=\"");
        out.append(input.as_str());
        out.append("\" />\n");
        i += 1;
        assert(out@ =~= head + source_entries(all.take(i as int), project_path@, element@));
    }
    assert(all.take(all.len() as int) =~= all);
    out.append("  </ItemGroup>\n");
    assert(out@ =~= old(out)@ + ("  <ItemGroup>\n"@ + source_entries(
        all,
        project_path@,
        element@,
    ) + "  </ItemGroup>\n"@));
}

/// The message for a target that mixes C and C++.
pub open spec fn mixed_sources_message(name: Seq<char>) -> Seq<char> {
    "This generator does not support mixing C and C++ sources. Consider splitting them into separate libraries. Target: "@
        + name
}

/// The first part of a project file, up to the references to other
/// projects: the configurations, the globals with the project's GUID, the
/// properties and settings of every configuration, and the sources.
#[verifier::opaque]
pub open spec fn vcxproj_head(
    proj_opts: VcxprojOptsView,
    configuration_type: Seq<char>,
    project_path: Seq<char>,
    target: TargetDataView,
    sources: SourcesView,
    guid: Seq<char>,
) -> Result<Seq<char>, Seq<char>> {
    let section = |s: Section|
        section_text(
            s,
            proj_opts.msvc_platforms,
            proj_opts.profiles,
            configuration_type,
            target,
            sources,
            proj_opts.opts,
        );
    match section(Section::Items) {
        Err(e) => Err(e),
        Ok(items) => Ok(
            "<?xml version=\"1.0\" encoding=\"utf-8\"?>\n<Project DefaultTargets=\"Build\" xmlns=\"http://schemas.microsoft.com/developer/msbuild/2003\">\n  <ItemGroup Label=\"ProjectConfigurations\">\n"@
                + section(Section::Configurations)->Ok_0 + "  </ItemGroup>\n"@
                + "  <PropertyGroup Label=\"Globals\">\n    <VCProjectVersion>16.0</VCProjectVersion>\n    <Keyword>Win32Proj</Keyword>\n    <ProjectGuid>{"@
                + guid + "}</ProjectGuid>\n    <RootNamespace>"@ + target.name
                + "</RootNamespace>\n    <WindowsTargetPlatformVersion>10.0</WindowsTargetPlatformVersion>\n  </PropertyGroup>\n  <Import Project=\"$(VCTargetsPath)\\Microsoft.Cpp.default.props\" />\n"@
                + section(Section::Properties)->Ok_0
                + "  <Import Project=\"$(VCTargetsPath)\\\\Microsoft.Cpp.props\" />\n  <ImportGroup Label=\"ExtensionSettings\">\n"@
                + (if sources.nasm.len() != 0 {
                "    <Import Project=\"..\\..\\nasm.props\" />\n"@
            } else {
                Seq::empty()
            }) + "  </ImportGroup>\n  <ImportGroup Label=\"Shared\">\n  </ImportGroup>\n"@
                + section(Section::Sheets)->Ok_0 + "  <PropertyGroup Label=\"UserMacros\" />\n"@
                + items + source_group(sources.c, project_path, "ClCompile"@) + source_group(
                sources.cpp,
                project_path,
                "ClCompile"@,
            ) + source_group(sources.nasm, project_path, "NASM"@),
        ),
    }
}

/// The last part of a project file, from the references to other
/// projects on.
pub open spec fn vcxproj_tail(references: Option<Seq<char>>, has_nasm: bool) -> Seq<char> {
    (match references {
        Some(text) => "  <ItemGroup>\n"@ + text + "  </ItemGroup>\n"@,
        None => Seq::empty(),
    })
        + "  <Import Project=\"$(VCTargetsPath)\\Microsoft.Cpp.targets\" />\n  <ImportGroup Label=\"ExtensionTargets\">\n"@
        + (if has_nasm {
        "    <Import Project=\"..\\..\\nasm.targets\" />\n"@
    } else {
        Seq::empty()
    }) + "  </ImportGroup>\n"@ + "</Project>\n"@
}

/// The first part of a project file.
pub fn make_vcxproj_head(
    proj_opts: &VcxprojOpts,
    configuration_type: &str,
    project_path: &str,
    target: &TargetData,
    sources: &Sources,
    guid: &str,
) -> (r: Result<String, String>)
    ensures
        match vcxproj_head(
            proj_opts@,
            configuration_type@,
            project_path@,
            target@,
            sources@,
            guid@,
        ) {
            Ok(v) => r matches Ok(x) && x@ == v,
            Err(e) => r matches Err(m) && m@ == e,
        },
{
    proof {
        reveal(vcxproj_head);
    }
    let mut items = String::new();
    match append_section(
        &mut items,
        &Section::Items,
        proj_opts,
        configuration_type,
        target,
        sources,
    ) {
        Ok(()) => {},
        Err(e) => {
            return Err(e);
        },
    }
    assert(items@ =~= section_text(
        Section::Items,
        proj_opts@.msvc_platforms,
        proj_opts@.profiles,
        configuration_type@,
        target@,
        sources@,
        proj_opts.opts,
    )->Ok_0);
    let mut out: String =
        "<?xml version=\"1.0\" encoding=\"utf-8\"?>\n<Project DefaultTargets=\"Build\" xmlns=\"http://schemas.microsoft.com/developer/msbuild/2003\">\n  <ItemGroup Label=\"ProjectConfigurations\">\n".to_owned();
    let _ = append_section(
        &mut out,
        &Section::Configurations,
        proj_opts,
        configuration_type,
        target,
        sources,
    );
    proof {
        lemma_plain_sections(
            proj_opts@.msvc_platforms,
            proj_opts@.profiles,
            configuration_type@,
            target@,
            sources@,
            proj_opts.opts,
        );
    }
    out.append("  </ItemGroup>\n");
    out.append(
        "  <PropertyGroup Label=\"Globals\">\n    <VCProjectVersion>16.0</VCProjectVersion>\n    <Keyword>Win32Proj</Keyword>\n    <ProjectGuid>{",
    );
    out.append(guid);
    out.append("}</ProjectGuid>\n    <RootNamespace>");
    out.append(target.name.as_str());
    out.append(
        "</RootNamespace>\n    <WindowsTargetPlatformVersion>10.0</WindowsTargetPlatformVersion>\n  </PropertyGroup>\n  <Import Project=\"$(VCTargetsPath)\\Microsoft.Cpp.default.props\" />\n",
    );
    let _ = append_section(
        &mut out,
        &Section::Properties,
        proj_opts,
        configuration_type,
        target,
        sources,
    );
    out.append(
        "  <Import Project=\"$(VCTargetsPath)\\\\Microsoft.Cpp.props\" />\n  <ImportGroup Label=\"ExtensionSettings\">\n",
    );
    if sources.nasm.len() != 0 {
        out.append("    <Import Project=\"..\\..\\nasm.props\" />\n");
    } else {
        assert(out@ + Seq::<char>::empty() =~= out@);
    }
    out.append("  </ImportGroup>\n  <ImportGroup Label=\"Shared\">\n  </ImportGroup>\n");
    let _ = append_section(
        &mut out,
        &Section::Sheets,
        proj_opts,
        configuration_type,
        target,
        sources,
    );
    out.append("  <PropertyGroup Label=\"UserMacros\" />\n");
    out.append(items.as_str());
    append_source_group(&mut out, &sources.c, project_path, "ClCompile");
    append_source_group(&mut out, &sources.cpp, project_path, "ClCompile");
    append_source_group(&mut out, &sources.nasm, project_path, "NASM");
    Ok(out)
}

/// The sections that only name configurations never fail.
pub proof fn lemma_plain_sections(
    platforms: Seq<Seq<char>>,
    profiles: Seq<(Seq<char>, ProfileFragmentView)>,
    configuration_type: Seq<char>,
    target: TargetDataView,
    sources: SourcesView,
    opts: Options,
)
    ensures
        section_text(
            Section::Configurations,
            platforms,
            profiles,
            configuration_type,
            target,
            sources,
            opts,
        ) is Ok,
        section_text(
            Section::Properties,
            platforms,
            profiles,
            configuration_type,
            target,
            sources,
            opts,
        ) is Ok,
        section_text(
            Section::Sheets,
            platforms,
            profiles,
            configuration_type,
            target,
            sources,
            opts,
        ) is Ok,
    decreases platforms.len(),
{
    if platforms.len() > 0 {
        lemma_plain_sections(
            platforms.drop_last(),
            profiles,
            configuration_type,
            target,
            sources,
            opts,
        );
        lemma_plain_rows(profiles, platforms.last(), configuration_type, target, sources, opts);
    }
}

/// The rows that only name configurations never fail.
pub proof fn lemma_plain_rows(
    profiles: Seq<(Seq<char>, ProfileFragmentView)>,
    platform: Seq<char>,
    configuration_type: Seq<char>,
    target: TargetDataView,
    sources: SourcesView,
    opts: Options,
)
    ensures
        section_row(
            Section::Configurations,
            profiles,
            platform,
            configuration_type,
            target,
            sources,
            opts,
        ) is Ok,
        section_row(
            Section::Properties,
            profiles,
            platform,
            configuration_type,
            target,
            sources,
            opts,
        ) is Ok,
        section_row(
            Section::Sheets,
            profiles,
            platform,
            configuration_type,
            target,
            sources,
            opts,
        ) is Ok,
    decreases profiles.len(),
{
    if profiles.len() > 0 {
        lemma_plain_rows(
            profiles.drop_last(),
            platform,
            configuration_type,
            target,
            sources,
            opts,
        );
    }
}

/// The last part of a project file.
pub fn make_vcxproj_tail(references: &Option<String>, has_nasm: bool) -> (r: String)
    ensures
        r@ == vcxproj_tail(crate::toolchain::compiler::option_text(*references), has_nasm),
{
    let mut out = String::new();
    match references {
        Some(text) => {
            out.append("  <ItemGroup>\n");
            out.append(text.as_str());
            out.append("  </ItemGroup>\n");
            assert(out@ =~= "  <ItemGroup>\n"@ + text@ + "  </ItemGroup>\n"@);
        },
        None => {},
    }
    out.append(
        "  <Import Project=\"$(VCTargetsPath)\\Microsoft.Cpp.targets\" />\n  <ImportGroup Label=\"ExtensionTargets\">\n",
    );
    if has_nasm {
        out.append("    <Import Project=\"..\\..\\nasm.targets\" />\n");
    } else {
        assert(out@ + Seq::<char>::empty() =~= out@);
    }
    out.append("  </ImportGroup>\n");
    out.append("</Project>\n");
    out
}

} // verus!
