use catapult::executable::Executable;
use catapult::generator::msvc::generate::{make_fragments, MsvcOutput};
use catapult::generator::msvc::sheets::{
    nasm_command, nasm_props_content, nasm_targets_content, nasm_xml_content,
};
use catapult::generator::msvc::index_map::{IndexMap, VsProject};
use catapult::generator::msvc::item::{
    cl_compile, map_platform_to_nasm_format, parse_c_standard, parse_cpp_standard, CStd, CppStd,
    Options,
};
use catapult::generator::msvc::solution::{add_static_lib, MsvcState};
use catapult::generator::msvc::vcxproj::VcxprojOpts;
use catapult::generator::msvc::walk::Msvc;
use catapult::generator::{Generated, Generator};
use catapult::graph::TargetGraph;
use catapult::interface_library::InterfaceLibrary;
use catapult::link_type::LinkPtr;
use catapult::misc::{SourcePath, Sources};
use catapult::project::{Project, ProjectInfo};
use catapult::static_library::StaticLibrary;
use catapult::toolchain::compiler::nasm::Nasm;
use catapult::toolchain::{Profile, Toolchain, VcxprojProfile};
use catapult::GlobalOptions;

fn strings(names: &[&str]) -> Vec<String> {
    names.iter().map(|x| (*x).to_owned()).collect()
}

fn pairs(items: &[(&str, &str)]) -> Vec<(String, String)> {
    items.iter().map(|x| (x.0.to_owned(), x.1.to_owned())).collect()
}

fn info() -> ProjectInfo {
    ProjectInfo { name: "proj".to_owned(), path: "C:\\src".to_owned() }
}

fn paths(names: &[&str]) -> Vec<SourcePath> {
    names
        .iter()
        .map(|x| SourcePath { full: format!("\\\\?\\C:\\src\\{}", x), name: (*x).to_owned() })
        .collect()
}

fn lib(name: &str, cpp: &[&str], private: Vec<LinkPtr>, public: Vec<LinkPtr>) -> StaticLibrary {
    StaticLibrary {
        project: info(),
        name: name.to_owned(),
        sources: Sources { c: Vec::new(), cpp: paths(cpp), nasm: Vec::new() },
        link_private: private,
        link_public: public,
        include_dirs_public: paths(&["inc"]),
        include_dirs_private: Vec::new(),
        defines_private: Vec::new(),
        defines_public: strings(&["LIB"]),
        link_flags_public: Vec::new(),
        generator_vars: None,
        output_name: None,
    }
}

fn exe(name: &str, cpp: &[&str], links: Vec<LinkPtr>) -> Executable {
    Executable {
        project: info(),
        name: name.to_owned(),
        sources: Sources { c: Vec::new(), cpp: paths(cpp), nasm: Vec::new() },
        links,
        include_dirs: Vec::new(),
        defines: Vec::new(),
        link_flags: Vec::new(),
        generator_vars: None,
        output_name: None,
    }
}

fn vcxproj() -> VcxprojProfile {
    VcxprojProfile {
        preprocessor_definitions: strings(&["NDEBUG"]),
        property_group: pairs(&[("UseDebugLibraries", "false")]),
        cl_compile: pairs(&[("Optimization", "MaxSpeed")]),
        link: pairs(&[("GenerateDebugInformation", "true")]),
    }
}

fn toolchain() -> Toolchain {
    let mut release = Profile::default();
    release.vcxproj = Some(vcxproj());
    release.nasm_assemble_flags = strings(&["-g"]);
    let mut t = Toolchain::default();
    t.msvc_platforms = strings(&["x64", "Win32"]);
    t.profile = vec![("Plain".to_owned(), Profile::default()), ("Release".to_owned(), release)];
    t
}

fn options() -> GlobalOptions {
    GlobalOptions {
        c_standard: Some("17".to_owned()),
        cpp_standard: Some("20".to_owned()),
        position_independent_code: None,
    }
}

fn guids() -> Vec<String> {
    strings(&[
        "00000000-0000-4000-8000-00000000000a",
        "00000000-0000-4000-8000-00000000000b",
        "00000000-0000-4000-8000-00000000000c",
        "00000000-0000-4000-8000-00000000000d",
    ])
}

fn solution() -> (Project, TargetGraph) {
    let mut graph = TargetGraph::new();
    let add = graph.add_static_library(lib("add", &["add.cpp"], vec![], vec![])).unwrap();
    let iface = graph
        .add_interface_library(InterfaceLibrary {
            project: info(),
            name: "iface".to_owned(),
            links: vec![add],
            include_dirs: Vec::new(),
            defines: Vec::new(),
            link_flags: Vec::new(),
        })
        .unwrap();
    let project = Project {
        info: info(),
        dependencies: Vec::new(),
        executables: vec![exe("main", &["main.cpp"], vec![iface])],
        static_libraries: vec![add],
        object_libraries: Vec::new(),
        interface_libraries: vec![iface],
    };
    (project, graph)
}

fn run(project: &Project, graph: &TargetGraph, toolchain: &Toolchain) -> Result<MsvcOutput, String> {
    Msvc::generate_from(project, graph, "C:\\build", toolchain, &options(), &guids())
}

#[test]
fn solution_and_projects_are_written() {
    let (project, graph) = solution();
    let out = run(&project, &graph, &toolchain()).unwrap();
    assert_eq!(out.nasm_props, None);
    let names: Vec<&str> = out.files.iter().map(|x| x.path.as_str()).collect();
    assert_eq!(
        names,
        vec![
            "C:\\build/proj/add/add.vcxproj",
            "C:\\build/proj/main/main.vcxproj",
            "C:\\build/proj.sln"
        ]
    );
    let add = &out.files[0].content;
    assert!(add.starts_with("<?xml version=\"1.0\" encoding=\"utf-8\"?>\n<Project DefaultTargets=\"Build\""));
    assert!(add.contains("    <ProjectGuid>{00000000-0000-4000-8000-00000000000A}</ProjectGuid>\n    <RootNamespace>add</RootNamespace>\n"));
    assert!(add.contains("    <ProjectConfiguration Include=\"Release|x64\">\n      <Configuration>Release</Configuration>\n      <Platform>x64</Platform>\n    </ProjectConfiguration>\n    <ProjectConfiguration Include=\"Release|Win32\">"));
    assert!(!add.contains("Plain|"));
    assert!(add.contains("  <PropertyGroup Condition=\"'$(Configuration)|$(Platform)'=='Release|Win32'\" Label=\"Configuration\">\n    <ConfigurationType>StaticLibrary</ConfigurationType>\n    <PlatformToolset>v143</PlatformToolset>\n    <UseDebugLibraries>false</UseDebugLibraries>\n  </PropertyGroup>\n"));
    assert!(add.contains("      <Optimization>MaxSpeed</Optimization>\n      <LanguageStandard>stdcpp20</LanguageStandard>\n      <AdditionalIncludeDirectories>;C:\\src\\inc;%(AdditionalIncludeDirectories)</AdditionalIncludeDirectories>\n      <ConformanceMode>true</ConformanceMode>\n      <PreprocessorDefinitions>NDEBUG;LIB;%(PreprocessorDefinitions);</PreprocessorDefinitions>\n    </ClCompile>\n    <Link>\n      <GenerateDebugInformation>true</GenerateDebugInformation>\n    </Link>\n  </ItemDefinitionGroup>\n"));
    assert!(add.contains("  <ItemGroup>\n    <ClCompile Include=\"C:\\src\\add.cpp\" />\n  </ItemGroup>\n"));
    assert!(add.ends_with("  <Import Project=\"$(VCTargetsPath)\\Microsoft.Cpp.targets\" />\n  <ImportGroup Label=\"ExtensionTargets\">\n  </ImportGroup>\n</Project>\n"));
    assert!(!add.contains("ProjectReference"));
    let main = &out.files[1].content;
    assert!(main.contains("<ConfigurationType>Application</ConfigurationType>"));
    assert!(main.contains("<ProjectGuid>{00000000-0000-4000-8000-00000000000C}</ProjectGuid>"));
    assert!(main.contains("  <ItemGroup>\n    <ProjectReference Include=\"C:\\build/proj/add/add.vcxproj\">\n      <Project>{00000000-0000-4000-8000-00000000000A}</Project>\n      <Name>add</Name>\n      <ReferenceOutputAssembly>false</ReferenceOutputAssembly>\n      <CopyToOutputDirectory>Never</CopyToOutputDirectory>\n    </ProjectReference>\n  </ItemGroup>\n"));
    let sln = &out.files[2].content;
    let expected = "Microsoft Visual Studio Solution File, Format Version 12.00\nProject(\"{8BC9CEB8-8B4A-11D0-8D11-00A0C91BC942}\") = \"main\", \"proj/main/main.vcxproj\", \"{00000000-0000-4000-8000-00000000000C}\"\n\tProjectSection(ProjectDependencies) = postProject\n\t\t{00000000-0000-4000-8000-00000000000A} = {00000000-0000-4000-8000-00000000000A}\n\tEndProjectSection\nEndProject\nProject(\"{8BC9CEB8-8B4A-11D0-8D11-00A0C91BC942}\") = \"add\", \"proj/add/add.vcxproj\", \"{00000000-0000-4000-8000-00000000000A}\"\nEndProject\nGlobal\n\tGlobalSection(SolutionConfigurationPlatforms) = preSolution\n\t\tPlain|x64 = Plain|x64\n\t\tPlain|Win32 = Plain|Win32\n\t\tRelease|x64 = Release|x64\n\t\tRelease|Win32 = Release|Win32\n\tEndGlobalSection\n\tGlobalSection(ProjectConfigurationPlatforms) = postSolution\n\t\t{00000000-0000-4000-8000-00000000000A}.Plain|x64.ActiveCfg = Plain|x64\n\t\t{00000000-0000-4000-8000-00000000000A}.Plain|x64.Build.0 = Plain|x64\n\t\t{00000000-0000-4000-8000-00000000000A}.Plain|Win32.ActiveCfg = Plain|Win32\n\t\t{00000000-0000-4000-8000-00000000000A}.Plain|Win32.Build.0 = Plain|Win32\n\t\t{00000000-0000-4000-8000-00000000000A}.Release|x64.ActiveCfg = Release|x64\n\t\t{00000000-0000-4000-8000-00000000000A}.Release|x64.Build.0 = Release|x64\n\t\t{00000000-0000-4000-8000-00000000000A}.Release|Win32.ActiveCfg = Release|Win32\n\t\t{00000000-0000-4000-8000-00000000000A}.Release|Win32.Build.0 = Release|Win32\n\t\t{00000000-0000-4000-8000-00000000000C}.Plain|x64.ActiveCfg = Plain|x64\n\t\t{00000000-0000-4000-8000-00000000000C}.Plain|x64.Build.0 = Plain|x64\n\t\t{00000000-0000-4000-8000-00000000000C}.Plain|Win32.ActiveCfg = Plain|Win32\n\t\t{00000000-0000-4000-8000-00000000000C}.Plain|Win32.Build.0 = Plain|Win32\n\t\t{00000000-0000-4000-8000-00000000000C}.Release|x64.ActiveCfg = Release|x64\n\t\t{00000000-0000-4000-8000-00000000000C}.Release|x64.Build.0 = Release|x64\n\t\t{00000000-0000-4000-8000-00000000000C}.Release|Win32.ActiveCfg = Release|Win32\n\t\t{00000000-0000-4000-8000-00000000000C}.Release|Win32.Build.0 = Release|Win32\n\tEndGlobalSection\n\tGlobalSection(SolutionProperties) = preSolution\n\t\tHideSolutionNode = FALSE\n\tEndGlobalSection\n\tGlobalSection(ExtensibilityGlobals) = postSolution\n\t\tSolutionGuid = {00000000-0000-4000-8000-00000000000D}\n\tEndGlobalSection\nEndGlobal\n";
    assert_eq!(sln, expected);
}

#[test]
fn library_is_made_when_first_referred_to() {
    let mut graph = TargetGraph::new();
    let low = graph.add_static_library(lib("low", &["l.cpp"], vec![], vec![])).unwrap();
    let high = graph.add_static_library(lib("high", &["h.cpp"], vec![low], vec![])).unwrap();
    let project = Project {
        info: info(),
        dependencies: Vec::new(),
        executables: Vec::new(),
        static_libraries: vec![high, low],
        object_libraries: Vec::new(),
        interface_libraries: Vec::new(),
    };
    let out = run(&project, &graph, &toolchain()).unwrap();
    let names: Vec<&str> = out.files.iter().map(|x| x.path.as_str()).collect();
    assert_eq!(
        names,
        vec![
            "C:\\build/proj/low/low.vcxproj",
            "C:\\build/proj/high/high.vcxproj",
            "C:\\build/proj.sln"
        ]
    );
}

#[test]
fn msvc_refusals() {
    let (project, graph) = solution();
    let mut no_platforms = toolchain();
    no_platforms.msvc_platforms = Vec::new();
    assert_eq!(
        run(&project, &graph, &no_platforms).unwrap_err(),
        "Toolchain doesn't contain any msvc_platforms, required for MSVC generator"
    );
    let mut no_profiles = toolchain();
    no_profiles.profile = vec![("Plain".to_owned(), Profile::default())];
    assert_eq!(
        run(&project, &graph, &no_profiles).unwrap_err(),
        "Toolchain doesn't contain any profiles with a \"vcxproj\" section, required for MSVC generator"
    );
    let bad_std = GlobalOptions {
        c_standard: Some("99".to_owned()),
        cpp_standard: None,
        position_independent_code: None,
    };
    assert_eq!(
        Msvc::generate_from(&project, &graph, "b", &toolchain(), &bad_std, &guids()).unwrap_err(),
        "Unrecognized value for option for \"c_standard\": \"99\". Accepted values are \"17\", \"11\""
    );
    let bad_cpp = GlobalOptions {
        c_standard: None,
        cpp_standard: Some("23".to_owned()),
        position_independent_code: None,
    };
    assert_eq!(
        Msvc::generate_from(&project, &graph, "b", &toolchain(), &bad_cpp, &guids()).unwrap_err(),
        "Unrecognized value for option for \"cpp_standard\": \"23\". Accepted values are \"20\", \"17\", \"14\", \"11\""
    );
    assert_eq!(
        Msvc::generate_from(&project, &graph, "b", &toolchain(), &options(), &strings(&["a"]))
            .unwrap_err(),
        "Not enough GUIDs for the projects of the solution"
    );
    let mut mixed_graph = TargetGraph::new();
    let mut mixed = lib("mixed", &["a.cpp"], vec![], vec![]);
    mixed.sources.c = paths(&["b.c"]);
    let ptr = mixed_graph.add_static_library(mixed).unwrap();
    let mixed_project = Project {
        info: info(),
        dependencies: Vec::new(),
        executables: Vec::new(),
        static_libraries: vec![ptr],
        object_libraries: Vec::new(),
        interface_libraries: Vec::new(),
    };
    assert_eq!(
        run(&mixed_project, &mixed_graph, &toolchain()).unwrap_err(),
        "This generator does not support mixing C and C++ sources. Consider splitting them into separate libraries. Target: mixed"
    );
}

#[test]
fn assembly_sources_need_the_assembler() {
    let mut graph = TargetGraph::new();
    let mut fast = lib("fast", &[], vec![], vec![]);
    fast.sources.nasm = paths(&["fast.asm"]);
    let ptr = graph.add_static_library(fast).unwrap();
    let project = Project {
        info: info(),
        dependencies: Vec::new(),
        executables: Vec::new(),
        static_libraries: vec![ptr],
        object_libraries: Vec::new(),
        interface_libraries: Vec::new(),
    };
    let mut x64_only = toolchain();
    x64_only.msvc_platforms = strings(&["x64"]);
    assert_eq!(
        run(&project, &graph, &x64_only).unwrap_err(),
        "Toolchain does not contain a NASM assembler, required for files in this project"
    );
    x64_only.nasm_assembler =
        Some(Box::new(Nasm { cmd: strings(&["C:\\nasm\\nasm.exe", "-Ox"]), version: "2".to_owned() }));
    let out = run(&project, &graph, &x64_only).unwrap();
    assert_eq!(
        out.nasm_props,
        Some(
            "<?xml version=\"1.0\" encoding=\"utf-8\"?>\n<Project xmlns=\"http://schemas.microsoft.com/developer/msbuild/2003\">\n  <PropertyGroup>\n    <NasmCommand>\"C:\\nasm\\nasm.exe\" \"-Ox\"</NasmCommand>\n  </PropertyGroup>\n</Project>\n"
                .to_owned()
        )
    );
    let file = &out.files[0].content;
    assert!(file.contains("    <Import Project=\"..\\..\\nasm.props\" />\n"));
    assert!(file.contains("    <Import Project=\"..\\..\\nasm.targets\" />\n"));
    assert!(file.contains("    <NASM>\n      <Format>win64</Format>\n      <IncludePaths>C:\\src\\inc</IncludePaths>\n      <Define>NDEBUG;LIB;%(PreprocessorDefinitions)</Define>\n      <AdditionalOptions>-g</AdditionalOptions>\n    </NASM>\n"));
    assert!(file.contains("    <NASM Include=\"C:\\src\\fast.asm\" />\n"));
    let mut with_arm = toolchain();
    with_arm.msvc_platforms = strings(&["x64", "ARM64"]);
    assert_eq!(
        run(&project, &graph, &with_arm).unwrap_err(),
        "Unknown platform: ARM64. Known platforms are \"Win32\", \"x64\""
    );
    assert_eq!(nasm_command(&strings(&["nasm"])), "\"nasm\"");
    assert_eq!(
        nasm_props_content(&strings(&["nasm", "-g"])),
        "<?xml version=\"1.0\" encoding=\"utf-8\"?>\n<Project xmlns=\"http://schemas.microsoft.com/developer/msbuild/2003\">\n  <PropertyGroup>\n    <NasmCommand>\"nasm\" \"-g\"</NasmCommand>\n  </PropertyGroup>\n</Project>\n"
    );
    assert!(nasm_xml_content().contains("<ItemType Name=\"NASM\""));
    assert!(nasm_targets_content().contains("<Target Name=\"NASM\""));
}

#[test]
fn fresh_guids_have_the_agreed_shape() {
    let (project, graph) = solution();
    let out = Generator::Msvc.generate(
        &project,
        &graph,
        options(),
        "build".to_owned(),
        toolchain(),
        Profile::default(),
    );
    let files = match out.unwrap() {
        Generated::Msvc(x) => x.files,
        Generated::Ninja(_) => panic!("the Visual Studio generator gave a Ninja file"),
    };
    assert_eq!(files.len(), 3);
    let content = &files[0].content;
    let at = content.find("<ProjectGuid>{").unwrap() + "<ProjectGuid>{".len();
    let guid = &content[at..at + 36];
    assert_eq!(&content[at + 36..at + 37], "}");
    for (i, c) in guid.chars().enumerate() {
        if i == 8 || i == 13 || i == 18 || i == 23 {
            assert_eq!(c, '-');
        } else {
            assert!(c.is_ascii_digit() || ('A'..='F').contains(&c));
        }
    }
    let other = &files[1].content;
    let at2 = other.find("<ProjectGuid>{").unwrap() + "<ProjectGuid>{".len();
    assert_ne!(guid, &other[at2..at2 + 36]);
}

#[test]
fn compiler_settings_and_standards() {
    let opts = Options { c_standard: Some(CStd::C11), cpp_standard: Some(CppStd::Cpp14) };
    let as_c = cl_compile(&vcxproj(), &strings(&["a", "b"]), &strings(&["X"]), &opts, true);
    assert_eq!(
        as_c,
        "    <ClCompile>\n      <Optimization>MaxSpeed</Optimization>\n      <LanguageStandard_C>stdc11</LanguageStandard_C>\n      <CompileAs>CompileAsC</CompileAs>\n      <AdditionalIncludeDirectories>;a;b;%(AdditionalIncludeDirectories)</AdditionalIncludeDirectories>\n      <ConformanceMode>true</ConformanceMode>\n      <PreprocessorDefinitions>NDEBUG;X;%(PreprocessorDefinitions);</PreprocessorDefinitions>\n    </ClCompile>\n"
    );
    assert_eq!(parse_c_standard(&None), Ok(None));
    assert_eq!(parse_c_standard(&Some("17".to_owned())), Ok(Some(CStd::C17)));
    assert_eq!(parse_cpp_standard(&Some("11".to_owned())), Ok(Some(CppStd::Cpp11)));
    assert_eq!(CppStd::Cpp17.as_str(), "stdcpp17");
    assert_eq!(CStd::C17.as_str(), "stdc17");
    assert_eq!(map_platform_to_nasm_format("Win32"), Ok("win32"));
    assert_eq!(map_platform_to_nasm_format("x64"), Ok("win64"));
}

#[test]
fn index_map_keeps_order_and_finds_by_library() {
    let project = |name: &str, guid: &str| VsProject {
        name: name.to_owned(),
        guid: guid.to_owned(),
        vcxproj_path: format!("{}.vcxproj", name),
        dependencies: strings(&["dep-a"]),
        has_nasm: false,
    };
    let mut map = IndexMap::new();
    assert!(!map.contains_key(7));
    map.insert(7, project("lib", "g1"));
    map.insert_exe(project("exe", "g2"));
    assert!(map.contains_key(7));
    assert_eq!(map.get(7).unwrap().name, "lib");
    assert!(map.get(0).is_none());
    assert_eq!(map.len(), 2);
    let names: Vec<&str> = map.iter().iter().map(|x| x.name.as_str()).collect();
    assert_eq!(names, vec!["lib", "exe"]);
    assert_eq!(
        map.get(7).unwrap().to_sln_project_section(),
        "Project(\"{8BC9CEB8-8B4A-11D0-8D11-00A0C91BC942}\") = \"lib\", \"lib.vcxproj\", \"{G1}\"\n\tProjectSection(ProjectDependencies) = postProject\n\t\t{DEP-A} = {DEP-A}\n\tEndProjectSection\nEndProject\n"
    );
}

#[test]
fn one_guid_for_every_library_and_program_and_the_solution_is_enough() {
    let (project, graph) = solution();
    let enough = guids();
    assert_eq!(enough.len(), graph.len() + project.executables.len() + 1);
    assert!(Msvc::generate_from(&project, &graph, "b", &toolchain(), &options(), &enough).is_ok());
    let short: Vec<String> = enough[..3].to_vec();
    assert_eq!(
        Msvc::generate_from(&project, &graph, "b", &toolchain(), &options(), &short).unwrap_err(),
        "Not enough GUIDs for the projects of the solution"
    );
    assert!(Msvc::generate(&project, &graph, "b", &toolchain(), &options()).is_ok());
}

#[test]
fn a_refused_target_leaves_no_file() {
    let mut graph = TargetGraph::new();
    let fine = graph.add_static_library(lib("fine", &["f.cpp"], vec![], vec![])).unwrap();
    let mut mixed = lib("mixed", &["a.cpp"], vec![fine], vec![]);
    mixed.sources.c = paths(&["b.c"]);
    let mixed = graph.add_static_library(mixed).unwrap();
    let user = graph.add_static_library(lib("user", &["u.cpp"], vec![fine, mixed], vec![])).unwrap();
    let proj_opts = VcxprojOpts {
        build_dir: "C:\\build".to_owned(),
        profiles: make_fragments(&toolchain().profile),
        msvc_platforms: strings(&["x64"]),
        opts: Options { c_standard: None, cpp_standard: None },
    };
    let pool = guids();

    // The refused library itself: nothing is noted, nothing changes.
    let mut state = MsvcState::new();
    assert!(add_static_lib(&graph, mixed, &proj_opts, &pool, &mut state).is_err());
    assert!(state.files.is_empty());
    assert_eq!(state.guid_map.len(), 0);
    assert_eq!(state.exes_seen, 0);

    // A library that refers to it: the project made for the reference
    // before it stays, and no file is noted for the library.
    let mut state = MsvcState::new();
    assert!(add_static_lib(&graph, user, &proj_opts, &pool, &mut state).is_err());
    let noted: Vec<&str> = state.files.iter().map(|x| x.path.as_str()).collect();
    assert_eq!(noted, vec!["C:\\build/proj/fine/fine.vcxproj"]);
    assert!(state.guid_map.contains_key(fine.index()));
    assert!(!state.guid_map.contains_key(mixed.index()));
    assert!(!state.guid_map.contains_key(user.index()));
}
