use catapult::executable::Executable;
use catapult::generator::ninja::program::add_executable_target;
use catapult::generator::ninja::targets::{
    add_object_lib_target, add_static_lib_target, NinjaState,
};
use catapult::generator::ninja::walk::Ninja;
use catapult::generator::ninja::GeneratorOpts;
use catapult::generator::{Generated, Generator, TargetPlatform};
use catapult::generator_vars::GeneratorVars;
use catapult::graph::TargetGraph;
use catapult::interface_library::InterfaceLibrary;
use catapult::link_type::LinkPtr;
use catapult::misc::{SourcePath, Sources};
use catapult::object_library::ObjectLibrary;
use catapult::project::{Project, ProjectInfo};
use catapult::static_library::StaticLibrary;
use catapult::toolchain::compiler::clang::Clang;
use catapult::toolchain::compiler::gcc::Gcc;
use catapult::toolchain::compiler::nasm::Nasm;
use catapult::toolchain::{Profile, Toolchain};
use catapult::GlobalOptions;

fn strings(names: &[&str]) -> Vec<String> {
    names.iter().map(|x| (*x).to_owned()).collect()
}

fn info() -> ProjectInfo {
    ProjectInfo { name: "proj".to_owned(), path: "/src".to_owned() }
}

fn paths(names: &[&str]) -> Vec<SourcePath> {
    names
        .iter()
        .map(|x| SourcePath { full: format!("/src/{}", x), name: (*x).to_owned() })
        .collect()
}

fn sources(c: &[&str], cpp: &[&str], nasm: &[&str]) -> Sources {
    Sources { c: paths(c), cpp: paths(cpp), nasm: paths(nasm) }
}

fn lib(name: &str, cpp: &[&str], private: Vec<LinkPtr>, public: Vec<LinkPtr>) -> StaticLibrary {
    StaticLibrary {
        project: info(),
        name: name.to_owned(),
        sources: sources(&[], cpp, &[]),
        link_private: private,
        link_public: public,
        include_dirs_public: Vec::new(),
        include_dirs_private: Vec::new(),
        defines_private: Vec::new(),
        defines_public: Vec::new(),
        link_flags_public: Vec::new(),
        generator_vars: None,
        output_name: None,
    }
}

fn exe(name: &str, cpp: &[&str], links: Vec<LinkPtr>) -> Executable {
    Executable {
        project: info(),
        name: name.to_owned(),
        sources: sources(&[], cpp, &[]),
        links,
        include_dirs: Vec::new(),
        defines: Vec::new(),
        link_flags: Vec::new(),
        generator_vars: None,
        output_name: None,
    }
}

fn gcc() -> Gcc {
    Gcc {
        cmd: strings(&["g++"]),
        version: "11.4.0".to_owned(),
        target: "x86_64-linux-gnu".to_owned(),
    }
}

fn toolchain() -> Toolchain {
    Toolchain {
        msvc_platforms: Vec::new(),
        c_compiler: Some(Box::new(gcc())),
        cpp_compiler: Some(Box::new(gcc())),
        nasm_assembler: Some(Box::new(Nasm {
            cmd: strings(&["nasm"]),
            version: "2.16".to_owned(),
        })),
        static_linker: Some(strings(&["ar", "rcs"])),
        exe_linker: Some(Box::new(gcc())),
        profile: Vec::new(),
    }
}

fn opts_with(toolchain: Toolchain, global_opts: GlobalOptions) -> GeneratorOpts {
    GeneratorOpts {
        build_dir: "build".to_owned(),
        toolchain,
        profile: Profile {
            c_compile_flags: strings(&["-Wall"]),
            cpp_compile_flags: strings(&["-Wextra"]),
            nasm_assemble_flags: strings(&["-g"]),
            vcxproj: None,
        },
        global_opts,
        target_platform: TargetPlatform {
            obj_ext: ".o".to_owned(),
            static_lib_ext: ".a".to_owned(),
            exe_ext: String::new(),
        },
    }
}

fn no_options() -> GlobalOptions {
    GlobalOptions { c_standard: None, cpp_standard: None, position_independent_code: None }
}

fn opts() -> GeneratorOpts {
    opts_with(toolchain(), no_options())
}

fn project(executables: Vec<Executable>, libs: Vec<LinkPtr>) -> Project {
    Project {
        info: info(),
        dependencies: Vec::new(),
        executables,
        static_libraries: libs,
        object_libraries: Vec::new(),
        interface_libraries: Vec::new(),
    }
}

#[test]
fn diamond_is_linked_once() {
    let mut graph = TargetGraph::new();
    let d = graph.add_static_library(lib("d", &["d.cpp"], vec![], vec![])).unwrap();
    let b = graph.add_static_library(lib("b", &["b.cpp"], vec![d], vec![])).unwrap();
    let c = graph.add_static_library(lib("c", &["c.cpp"], vec![], vec![d])).unwrap();
    let a = exe("a", &["a.cpp"], vec![b, c]);
    let project = project(vec![a], vec![d, b, c]);
    let mut state = NinjaState::new();
    Ninja::generate_inner(&project, &graph, &opts(), &mut state).unwrap();
    let link = state
        .build_lines
        .iter()
        .find(|x| x.output_targets == strings(&["build/proj/a"]))
        .unwrap();
    assert_eq!(
        link.inputs,
        strings(&[
            "build/proj/a.dir/a.cpp.o",
            "build/proj/b.a",
            "build/proj/d.a",
            "build/proj/c.a"
        ])
    );
    assert_eq!(link.inputs.iter().filter(|x| *x == "build/proj/d.a").count(), 1);
    assert_eq!(link.rule_name, "link_exe");
    assert_eq!(state.build_lines.len(), 3 * 3 + 3);
    assert_eq!(state.link_targets.get(&0), Some(&strings(&["build/proj/d.a"])));
}

#[test]
fn missing_link_is_reported_by_name() {
    let mut graph = TargetGraph::new();
    let d = graph.add_static_library(lib("deep", &["d.cpp"], vec![], vec![])).unwrap();
    let b = graph.add_static_library(lib("mid", &["b.cpp"], vec![d], vec![])).unwrap();
    let a = exe("a", &["a.cpp"], vec![b]);
    let options = opts();
    let mut state = NinjaState::new();
    let result = add_executable_target(&graph, &a, &options, &mut state);
    assert_eq!(result, Err("Output target not found: mid".to_owned()));
    let mut state = NinjaState::new();
    add_static_lib_target(&graph, b, &options, &mut state).unwrap();
    let result = add_executable_target(&graph, &a, &options, &mut state);
    assert_eq!(result, Err("Transitive output target not found: deep".to_owned()));
    let broken = project(vec![exe("a", &["a.cpp"], vec![b])], vec![b]);
    let mut state = NinjaState::new();
    assert_eq!(
        Ninja::generate_inner(&broken, &graph, &options, &mut state),
        Err("Transitive output target not found: deep".to_owned())
    );
}

#[test]
fn static_library_edges() {
    let mut graph = TargetGraph::new();
    let mut add = lib("add", &["add.cpp"], vec![], vec![]);
    add.sources = sources(&["x.c"], &["add.cpp"], &["fast.asm"]);
    add.include_dirs_public = paths(&["inc"]);
    add.include_dirs_private = paths(&["src"]);
    add.defines_public = strings(&["ADD=1"]);
    add.defines_private = strings(&["IMPL"]);
    add.output_name = Some("libadd".to_owned());
    let ptr = graph.add_static_library(add).unwrap();
    let options = opts_with(
        toolchain(),
        GlobalOptions {
            c_standard: Some("11".to_owned()),
            cpp_standard: Some("20".to_owned()),
            position_independent_code: Some(true),
        },
    );
    let mut state = NinjaState::new();
    let outputs = add_static_lib_target(&graph, ptr, &options, &mut state).unwrap();
    assert_eq!(outputs, strings(&["build/proj/libadd.a"]));
    assert_eq!(state.build_lines.len(), 5);
    let c = &state.build_lines[0];
    assert_eq!(c.inputs, strings(&["/src/x.c"]));
    assert_eq!(c.output_targets, strings(&["build/proj/add.dir/x.c.o"]));
    assert_eq!(c.rule_name, "compile_c_object");
    assert_eq!(c.get("FLAGS"), Some(&strings(&["-Wall", "-std=c11", "-fPIC"])));
    assert_eq!(c.get("DEFINES"), Some(&strings(&["-DADD=1", "-DIMPL"])));
    assert_eq!(c.get("INCLUDES"), Some(&strings(&["-I/src/inc", "-I/src/src"])));
    assert_eq!(c.get("DEP_FILE"), Some(&strings(&["build/proj/add.dir/x.c.o.d"])));
    let cpp = &state.build_lines[1];
    assert_eq!(cpp.get("FLAGS"), Some(&strings(&["-Wextra", "-std=c++20", "-fPIC"])));
    let assembled = &state.build_lines[2];
    assert_eq!(assembled.rule_name, "assemble_nasm_object");
    assert_eq!(assembled.get("FLAGS"), Some(&strings(&["-g"])));
    let archive = &state.build_lines[3];
    assert_eq!(archive.rule_name, "link_static_lib");
    assert_eq!(
        archive.inputs,
        strings(&[
            "build/proj/add.dir/x.c.o",
            "build/proj/add.dir/add.cpp.o",
            "build/proj/add.dir/fast.asm.o"
        ])
    );
    assert_eq!(archive.get("TARGET_FILE"), Some(&strings(&["build/proj/libadd.a"])));
    assert_eq!(archive.get("LINK_FLAGS"), Some(&Vec::new()));
    let phony = &state.build_lines[4];
    assert_eq!(phony.rule_name, "phony");
    assert_eq!(phony.inputs, strings(&["build/proj/libadd.a"]));
    assert_eq!(phony.output_targets, strings(&["add"]));
    let rule = state.rules.compile_c_object.as_ref().unwrap();
    assert_eq!(
        rule.command,
        strings(&[
            "g++", "$DEFINES", "$INCLUDES", "$FLAGS", "-MD", "-MT", "$out", "-MF", "$DEP_FILE",
            "-o", "$out", "-c", "$in"
        ])
    );
    let nasm_rule = state.rules.assemble_nasm_object.as_ref().unwrap();
    assert_eq!(
        nasm_rule.command,
        strings(&[
            "nasm", "$DEFINES", "$INCLUDES", "$FLAGS", "-MD", "$DEP_FILE", "-MT", "$out", "-o",
            "$out", "$in"
        ])
    );
    assert!(state.rules.link_exe.is_none());
}

#[test]
fn object_library_hands_on_objects_and_archives() {
    let mut graph = TargetGraph::new();
    let stat = graph.add_static_library(lib("stat", &["s.cpp"], vec![], vec![])).unwrap();
    let iface = graph
        .add_interface_library(InterfaceLibrary {
            project: info(),
            name: "iface".to_owned(),
            links: vec![stat],
            include_dirs: Vec::new(),
            defines: Vec::new(),
            link_flags: strings(&["-pthread"]),
        })
        .unwrap();
    let obj = graph
        .add_object_library(ObjectLibrary {
            project: info(),
            name: "obj".to_owned(),
            sources: sources(&[], &["o1.cpp", "o2.cpp"], &[]),
            link_private: vec![],
            link_public: vec![iface],
            include_dirs_public: Vec::new(),
            include_dirs_private: Vec::new(),
            defines_private: Vec::new(),
            defines_public: Vec::new(),
            link_flags_public: Vec::new(),
            generator_vars: None,
            output_name: None,
        })
        .unwrap();
    let options = opts();
    let mut state = NinjaState::new();
    let outputs = add_object_lib_target(&graph, obj, &options, &mut state).unwrap();
    assert_eq!(
        outputs,
        strings(&[
            "build/proj/obj.dir/o1.cpp.o",
            "build/proj/obj.dir/o2.cpp.o",
            "build/proj/stat.a"
        ])
    );
    assert_eq!(state.build_lines.len(), 2);
    let project = Project {
        info: info(),
        dependencies: Vec::new(),
        executables: vec![exe("main", &["main.cpp"], vec![obj])],
        static_libraries: vec![stat],
        object_libraries: vec![obj],
        interface_libraries: vec![iface],
    };
    let mut state = NinjaState::new();
    Ninja::generate_inner(&project, &graph, &options, &mut state).unwrap();
    let link = state.build_lines.iter().find(|x| x.rule_name == "link_exe").unwrap();
    assert_eq!(
        link.inputs,
        strings(&[
            "build/proj/main.dir/main.cpp.o",
            "build/proj/obj.dir/o1.cpp.o",
            "build/proj/obj.dir/o2.cpp.o",
            "build/proj/stat.a"
        ])
    );
    assert_eq!(link.get("LINK_FLAGS"), Some(&strings(&["-pthread"])));
    assert_eq!(state.link_targets.get(&1), Some(&Vec::new()));
}

#[test]
fn missing_tools_are_reported_with_the_target() {
    let mut graph = TargetGraph::new();
    let mut with_c = lib("clib", &[], vec![], vec![]);
    with_c.sources = sources(&["a.c"], &[], &[]);
    let c = graph.add_static_library(with_c).unwrap();
    let cpp = graph.add_static_library(lib("cpplib", &["a.cpp"], vec![], vec![])).unwrap();
    let mut with_nasm = lib("asmlib", &[], vec![], vec![]);
    with_nasm.sources = sources(&[], &[], &["a.asm"]);
    let nasm_lib = graph.add_static_library(with_nasm).unwrap();
    let mut none = Toolchain::default();
    none.exe_linker = Some(Box::new(gcc()));
    let options = opts_with(none, no_options());
    let mut state = NinjaState::new();
    assert_eq!(
        add_static_lib_target(&graph, c, &options, &mut state).unwrap_err(),
        "No C compiler specified in toolchain. A C compiler is required to build C sources in \"clib\"."
    );
    assert_eq!(
        add_static_lib_target(&graph, cpp, &options, &mut state).unwrap_err(),
        "No C++ compiler specified in toolchain. A C++ compiler is required to build C++ sources in \"cpplib\"."
    );
    assert_eq!(
        add_static_lib_target(&graph, nasm_lib, &options, &mut state).unwrap_err(),
        "No NASM assembler specified in toolchain. A NASM assembler is required to build NASM sources in \"asmlib\"."
    );
    let mut no_archiver = toolchain();
    no_archiver.static_linker = None;
    no_archiver.exe_linker = None;
    let options = opts_with(no_archiver, no_options());
    let mut state = NinjaState::new();
    assert_eq!(
        add_static_lib_target(&graph, cpp, &options, &mut state).unwrap_err(),
        "No static linker specified in toolchain. A static linker is required to build \"cpplib\"."
    );
    let mut state = NinjaState::new();
    assert_eq!(
        add_executable_target(&graph, &exe("main", &["m.cpp"], vec![]), &options, &mut state)
            .unwrap_err(),
        "No executable linker specified in toolchain. An executable linker is required to build \"main\"."
    );
    let options = opts_with(
        toolchain(),
        GlobalOptions {
            c_standard: None,
            cpp_standard: Some("03".to_owned()),
            position_independent_code: None,
        },
    );
    let mut state = NinjaState::new();
    assert_eq!(
        add_static_lib_target(&graph, cpp, &options, &mut state).unwrap_err(),
        "C++ standard not supported by compiler: 03. Accepted values are \"23\", \"20\", \"17\", \"14\", \"11\""
    );
}

#[test]
fn windows_clang_omits_position_independence() {
    let clang = || Clang {
        cmd: strings(&["clang"]),
        version: "16.0.1".to_owned(),
        target: "x86_64-pc-windows-msvc".to_owned(),
        target_windows: true,
    };
    let mut windows = toolchain();
    windows.cpp_compiler = Some(Box::new(clang()));
    windows.exe_linker = Some(Box::new(clang()));
    let options = opts_with(
        windows,
        GlobalOptions {
            c_standard: None,
            cpp_standard: None,
            position_independent_code: Some(true),
        },
    );
    let graph = TargetGraph::new();
    let mut state = NinjaState::new();
    add_executable_target(&graph, &exe("main", &["m.cpp"], vec![]), &options, &mut state).unwrap();
    assert_eq!(state.build_lines[0].get("FLAGS"), Some(&strings(&["-Wextra"])));
    assert_eq!(state.build_lines[1].get("LINK_FLAGS"), Some(&Vec::new()));
}

#[test]
fn generator_additions_are_taken_in() {
    let mut graph = TargetGraph::new();
    let mut generated = lib("gen", &["a.cpp"], vec![], vec![]);
    generated.generator_vars = Some(GeneratorVars {
        sources: paths(&["extra.cpp"]),
        include_dirs: paths(&["gen_inc"]),
        defines: strings(&["GENERATED"]),
        link_flags: Vec::new(),
    });
    let ptr = graph.add_static_library(generated).unwrap();
    let mut bad = lib("bad", &["a.cpp"], vec![], vec![]);
    bad.generator_vars = Some(GeneratorVars {
        sources: paths(&["extra.txt"]),
        include_dirs: Vec::new(),
        defines: Vec::new(),
        link_flags: Vec::new(),
    });
    let bad_ptr = graph.add_static_library(bad).unwrap();
    let options = opts();
    let mut state = NinjaState::new();
    add_static_lib_target(&graph, ptr, &options, &mut state).unwrap();
    assert_eq!(state.build_lines.len(), 4);
    assert_eq!(state.build_lines[1].inputs, strings(&["/src/extra.cpp"]));
    assert_eq!(state.build_lines[1].get("DEFINES"), Some(&strings(&["-DGENERATED"])));
    assert_eq!(state.build_lines[1].get("INCLUDES"), Some(&strings(&["-I/src/gen_inc"])));
    assert_eq!(
        add_static_lib_target(&graph, bad_ptr, &options, &mut state).unwrap_err(),
        "Unknown source type: extra.txt"
    );
}

#[test]
fn ninja_file_is_written_out() {
    let mut graph = TargetGraph::new();
    let add = graph.add_static_library(lib("add", &["add.cpp"], vec![], vec![])).unwrap();
    let project = project(vec![exe("main", &["main.cpp"], vec![add])], vec![add]);
    let file = Ninja::generate(
        &project,
        &graph,
        "C:/build".to_owned(),
        toolchain(),
        Profile::default(),
        no_options(),
        TargetPlatform {
            obj_ext: ".obj".to_owned(),
            static_lib_ext: ".lib".to_owned(),
            exe_ext: ".exe".to_owned(),
        },
    )
    .unwrap();
    assert_eq!(file.path, "C:/build/build.ninja");
    let expected = "rule compile_cpp_object\n  command = g++ $DEFINES $INCLUDES $FLAGS -MD -MT $out -MF $DEP_FILE -o $out -c $in\n  depfile = $DEP_FILE\n  deps = gcc\n  description = Compiling C++ object $out\n\nrule link_static_lib\n  command = ar rcs $TARGET_FILE $LINK_FLAGS $in\n  description = Linking static library $out\n\nrule link_exe\n  command = g++ $LINK_FLAGS $in -o $TARGET_FILE $LINK_PATH\n  description = Linking executable $out\n\nbuild C$:/build/proj/add.dir/add.cpp.obj: compile_cpp_object /src/add.cpp\n  DEP_FILE = C$:/build/proj/add.dir/add.cpp.obj.d\n\nbuild C$:/build/proj/add.lib: link_static_lib C$:/build/proj/add.dir/add.cpp.obj\n  TARGET_FILE = C$:/build/proj/add.lib\n\nbuild add: phony C$:/build/proj/add.lib\n\nbuild C$:/build/proj/main.dir/main.cpp.obj: compile_cpp_object /src/main.cpp\n  DEP_FILE = C$:/build/proj/main.dir/main.cpp.obj.d\n\nbuild C$:/build/proj/main.exe: link_exe C$:/build/proj/main.dir/main.cpp.obj C$:/build/proj/add.lib\n  TARGET_FILE = C$:/build/proj/main.exe\n\nbuild main: phony C$:/build/proj/main.exe\n\n";
    assert_eq!(file.content, expected);
}

#[test]
fn generator_picks_the_platform_of_the_toolchain() {
    let mut graph = TargetGraph::new();
    let add = graph.add_static_library(lib("add", &["add.cpp"], vec![], vec![])).unwrap();
    let project = project(vec![exe("main", &["main.cpp"], vec![add])], vec![add]);
    let out = Generator::Ninja
        .generate(&project, &graph, no_options(), "build".to_owned(), toolchain(), Profile::default())
        .unwrap();
    match out {
        Generated::Ninja(file) => {
            assert_eq!(file.path, "build/build.ninja");
            assert!(file.content.contains("build build/proj/add.a: link_static_lib"));
            assert!(file.content.contains("build build/proj/main: link_exe"));
        }
        Generated::Msvc(_) => panic!("the Ninja generator gave a solution"),
    }
}

#[test]
fn sub_projects_come_first_and_shared_libraries_once() {
    let mut graph = TargetGraph::new();
    let shared = graph.add_static_library(lib("shared", &["s.cpp"], vec![], vec![])).unwrap();
    let dep = Project {
        info: ProjectInfo { name: "dep".to_owned(), path: "/dep".to_owned() },
        dependencies: Vec::new(),
        executables: Vec::new(),
        static_libraries: vec![shared],
        object_libraries: Vec::new(),
        interface_libraries: Vec::new(),
    };
    let root = Project {
        info: info(),
        dependencies: vec![dep],
        executables: vec![exe("main", &["m.cpp"], vec![shared])],
        static_libraries: vec![shared],
        object_libraries: Vec::new(),
        interface_libraries: Vec::new(),
    };
    let mut state = NinjaState::new();
    Ninja::generate_inner(&root, &graph, &opts(), &mut state).unwrap();
    assert_eq!(state.build_lines.len(), 6);
    assert_eq!(state.build_lines[0].rule_name, "compile_cpp_object");
    assert_eq!(state.build_lines[1].rule_name, "link_static_lib");
    assert_eq!(state.build_lines[5].output_targets, strings(&["main"]));
}

#[test]
fn every_language_gets_its_rule_once() {
    let graph = TargetGraph::new();
    let mut program = exe("tool", &[], vec![]);
    program.sources = sources(&["a.c", "b.c"], &[], &["c.asm"]);
    let project = project(vec![program], vec![]);
    let mut state = NinjaState::new();
    Ninja::generate_inner(&project, &graph, &opts(), &mut state).unwrap();
    assert_eq!(
        state.rules.as_string(),
        "rule compile_c_object\n  command = g++ $DEFINES $INCLUDES $FLAGS -MD -MT $out -MF $DEP_FILE -o $out -c $in\n  depfile = $DEP_FILE\n  deps = gcc\n  description = Compiling C object $out\n\nrule assemble_nasm_object\n  command = nasm $DEFINES $INCLUDES $FLAGS -MD $DEP_FILE -MT $out -o $out $in\n  depfile = $DEP_FILE\n  deps = gcc\n  description = Assembling NASM object $out\n\nrule link_exe\n  command = g++ $LINK_FLAGS $in -o $TARGET_FILE $LINK_PATH\n  description = Linking executable $out\n\n"
    );
    let rules: Vec<&str> = state.build_lines.iter().map(|x| x.rule_name.as_str()).collect();
    assert_eq!(
        rules,
        vec!["compile_c_object", "compile_c_object", "assemble_nasm_object", "link_exe", "phony"]
    );
    assert_eq!(state.build_lines[0].get("FLAGS"), Some(&strings(&["-Wall"])));
    assert_eq!(state.build_lines[2].get("FLAGS"), Some(&strings(&["-g"])));
}

#[test]
fn a_target_that_fails_leaves_only_edges_that_compile() {
    let mut graph = TargetGraph::new();
    let d = graph.add_static_library(lib("deep", &["d.cpp"], vec![], vec![])).unwrap();
    let b = graph.add_static_library(lib("mid", &["b.cpp"], vec![d], vec![])).unwrap();
    let a = exe("a", &["a.cpp"], vec![b]);
    let options = opts();

    // A link that was not dealt with: the program is compiled, not linked.
    let mut state = NinjaState::new();
    add_static_lib_target(&graph, b, &options, &mut state).unwrap();
    let lines_before = state.build_lines.len();
    let outputs_before = state.link_targets.clone();
    assert!(add_executable_target(&graph, &a, &options, &mut state).is_err());
    assert_eq!(state.build_lines.len(), lines_before + 1);
    assert_eq!(state.build_lines[lines_before].rule_name, "compile_cpp_object");
    assert!(state.build_lines.iter().all(|x| x.rule_name != "link_exe"));
    assert!(state.build_lines.iter().all(|x| x.output_targets != strings(&["a"])));
    assert!(state.rules.link_exe.is_none());
    assert_eq!(state.link_targets, outputs_before);

    // No tool to archive with: the library is compiled, not archived.
    let mut without_archiver = toolchain();
    without_archiver.static_linker = None;
    let options = opts_with(without_archiver, no_options());
    let mut state = NinjaState::new();
    assert_eq!(
        add_static_lib_target(&graph, d, &options, &mut state),
        Err("No static linker specified in toolchain. A static linker is required to build \"deep\"."
            .to_owned())
    );
    assert_eq!(state.build_lines.len(), 1);
    assert_eq!(state.build_lines[0].rule_name, "compile_cpp_object");
    assert!(state.rules.link_static_lib.is_none());
    assert!(state.link_targets.is_empty());
    let listed = project(vec![], vec![d, b]);
    let mut state = NinjaState::new();
    assert!(Ninja::generate_inner(&listed, &graph, &options, &mut state).is_err());
    assert_eq!(state.build_lines.len(), 1);
    assert!(state.link_targets.is_empty());

    // No C compiler: nothing at all is written, though C++ could be
    // compiled. No C++ compiler: the C sources are compiled.
    let mut mixed = exe("m", &[], vec![]);
    mixed.sources = sources(&["x.c"], &["y.cpp"], &[]);
    let mut without_c = toolchain();
    without_c.c_compiler = None;
    let mut state = NinjaState::new();
    assert_eq!(
        add_executable_target(&graph, &mixed, &opts_with(without_c, no_options()), &mut state),
        Err("No C compiler specified in toolchain. A C compiler is required to build C sources in \"m\"."
            .to_owned())
    );
    assert!(state.build_lines.is_empty());
    assert!(state.rules.compile_c_object.is_none());
    assert!(state.rules.compile_cpp_object.is_none());
    let mut without_cpp = toolchain();
    without_cpp.cpp_compiler = None;
    let mut state = NinjaState::new();
    assert!(add_executable_target(
        &graph,
        &mixed,
        &opts_with(without_cpp, no_options()),
        &mut state
    )
    .is_err());
    assert_eq!(state.build_lines.len(), 1);
    assert_eq!(state.build_lines[0].rule_name, "compile_c_object");
    assert!(state.rules.compile_cpp_object.is_none());
}

#[test]
fn no_edge_has_a_variable_twice() {
    let mut graph = TargetGraph::new();
    let add = graph.add_static_library(lib("add", &["add.cpp"], vec![], vec![])).unwrap();
    let project = project(vec![exe("main", &["main.cpp"], vec![add])], vec![add]);
    let mut state = NinjaState::new();
    Ninja::generate_inner(&project, &graph, &opts(), &mut state).unwrap();
    assert_eq!(state.build_lines.len(), 6);
    assert!(state.build_lines.iter().all(|x| x.is_well_formed()));
    let mut twice = state.build_lines[0].clone();
    twice.keyval_set.push(("FLAGS".to_owned(), Vec::new()));
    assert!(!twice.is_well_formed());
}
