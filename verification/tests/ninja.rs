use catapult::executable::Executable;
use catapult::generator::ninja::targets::NinjaState;
use catapult::generator::ninja::walk::Ninja;
use catapult::generator::ninja::GeneratorOpts;
use catapult::generator::TargetPlatform;
use catapult::graph::TargetGraph;
use catapult::link_type::LinkPtr;
use catapult::misc::{SourcePath, Sources};
use catapult::project::{Project, ProjectInfo};
use catapult::static_library::StaticLibrary;
use catapult::toolchain::compiler::{Assembler, Compiler, ExeLinker};
use catapult::toolchain::{Profile, Toolchain};
use catapult::GlobalOptions;

struct TestAssembler {}

impl Assembler for TestAssembler {
    fn id(&self) -> String {
        "nasm".to_owned()
    }
    fn version(&self) -> String {
        "2.16.0".to_owned()
    }
    fn cmd(&self) -> Vec<String> {
        vec!["nasm".to_owned()]
    }
    fn out_flag(&self) -> String {
        "-o".to_owned()
    }
    fn depfile_flags(&self, out_file: &str, dep_file: &str) -> Vec<String> {
        vec![
            "-MD".to_owned(),
            dep_file.to_owned(),
            "-MT".to_owned(),
            out_file.to_owned(),
        ]
    }
}

struct TestCompiler {}

impl Compiler for TestCompiler {
    fn id(&self) -> String {
        "clang".to_owned()
    }
    fn version(&self) -> String {
        "17.0.0".to_owned()
    }
    fn target(&self) -> String {
        "x86_64-unknown-linux-gnu".to_owned()
    }
    fn cmd(&self) -> Vec<String> {
        vec!["clang".to_owned()]
    }
    fn out_flag(&self) -> String {
        "-o".to_owned()
    }
    fn depfile_flags(&self, out_file: &str, dep_file: &str) -> Vec<String> {
        vec![
            "-MD".to_owned(),
            "-MT".to_owned(),
            out_file.to_owned(),
            "-MF".to_owned(),
            dep_file.to_owned(),
        ]
    }
    fn c_std_flag(&self, std: &str) -> Result<String, String> {
        match std {
            "11" => Ok("-std=c11".to_owned()),
            "17" => Ok("-std=c17".to_owned()),
            _ => Err(format!("C standard not supported by compiler: {std}")),
        }
    }
    fn cpp_std_flag(&self, std: &str) -> Result<String, String> {
        match std {
            "11" => Ok("-std=c++11".to_owned()),
            "14" => Ok("-std=c++14".to_owned()),
            "17" => Ok("-std=c++17".to_owned()),
            "20" => Ok("-std=c++20".to_owned()),
            "23" => Ok("-std=c++23".to_owned()),
            _ => Err(format!("C++ standard not supported by compiler: {std}")),
        }
    }
    fn position_independent_code_flag(&self) -> Option<String> {
        Some("-fPIC".to_owned())
    }
    fn position_independent_executable_flag(&self) -> Option<String> {
        Some("-fPIE".to_owned())
    }
}

impl ExeLinker for TestCompiler {
    fn cmd(&self) -> Vec<String> {
        vec!["clang".to_owned()]
    }
    fn position_independent_executable_flag(&self) -> Option<String> {
        Some("-pie".to_owned())
    }
}

fn no_sources() -> Sources {
    Sources { c: Vec::new(), cpp: Vec::new(), nasm: Vec::new() }
}

#[test]
fn test_position_independent_code() {
    let info = ProjectInfo { name: "test_project".to_owned(), path: ".".to_owned() };
    let mut graph = TargetGraph::new();
    let add_lib = graph
        .add_static_library(StaticLibrary {
            project: info.clone(),
            name: "add".to_owned(),
            sources: Sources {
                cpp: vec![SourcePath { full: "add.cpp".to_owned(), name: "add.cpp".to_owned() }],
                ..no_sources()
            },
            link_public: Vec::new(),
            link_private: Vec::new(),
            include_dirs_public: Vec::new(),
            include_dirs_private: Vec::new(),
            defines_private: Vec::new(),
            defines_public: Vec::new(),
            link_flags_public: Vec::new(),
            generator_vars: None,
            output_name: None,
        })
        .unwrap();
    assert_eq!(add_lib, LinkPtr::Static(0));
    let project = Project {
        info: info.clone(),
        dependencies: Vec::new(),
        executables: vec![Executable {
            project: info.clone(),
            name: "main".to_owned(),
            sources: Sources {
                cpp: vec![SourcePath { full: "main.cpp".to_owned(), name: "main.cpp".to_owned() }],
                ..no_sources()
            },
            links: vec![add_lib],
            include_dirs: Vec::new(),
            defines: Vec::new(),
            link_flags: Vec::new(),
            generator_vars: None,
            output_name: None,
        }],
        static_libraries: vec![add_lib],
        object_libraries: Vec::new(),
        interface_libraries: Vec::new(),
    };
    let toolchain = Toolchain {
        msvc_platforms: vec!["x64".to_owned(), "Win32".to_owned(), "ARM64".to_owned()],
        c_compiler: Some(Box::new(TestCompiler {})),
        cpp_compiler: Some(Box::new(TestCompiler {})),
        nasm_assembler: Some(Box::new(TestAssembler {})),
        static_linker: Some(vec!["llvm-ar".to_owned()]),
        exe_linker: Some(Box::new(TestCompiler {})),
        profile: Vec::new(),
    };
    let profile = Profile::default();
    let global_opts = GlobalOptions {
        c_standard: Some("17".to_owned()),
        cpp_standard: Some("17".to_owned()),
        position_independent_code: Some(true),
    };
    let target_platform = TargetPlatform {
        obj_ext: ".o".to_owned(),
        static_lib_ext: ".a".to_owned(),
        exe_ext: String::new(),
    };
    let generator_opts = GeneratorOpts {
        build_dir: "build".to_owned(),
        profile,
        global_opts,
        target_platform,
        toolchain,
    };
    let mut state = NinjaState::new();
    let result = Ninja::generate_inner(&project, &graph, &generator_opts, &mut state);

    assert!(result.is_ok(), "{}", result.unwrap_err());

    let build_lines = &state.build_lines;
    assert_eq!(build_lines.len(), 6);

    let add_cpp_path = "./add.cpp".to_owned();
    let add_cpp_rules = build_lines
        .iter()
        .filter(|x| x.inputs.first().unwrap() == &add_cpp_path)
        .collect::<Vec<_>>();
    assert_eq!(add_cpp_rules.len(), 1);

    assert_eq!(
        add_cpp_rules
            .first()
            .unwrap()
            .get("FLAGS")
            .unwrap()
            .iter()
            .filter(|x| *x == "-fPIC")
            .count(),
        1
    );

    let main_cpp_path = "./main.cpp".to_owned();
    let main_cpp_rules = build_lines
        .iter()
        .filter(|x| x.inputs.first().unwrap() == &main_cpp_path)
        .collect::<Vec<_>>();
    assert_eq!(add_cpp_rules.len(), 1);

    assert_eq!(
        main_cpp_rules
            .first()
            .unwrap()
            .get("FLAGS")
            .unwrap()
            .iter()
            .filter(|x| *x == "-fPIE")
            .count(),
        1
    );

    let main_out_path = "build/test_project/main".to_owned();
    let main_exe_rules = build_lines
        .iter()
        .filter(|x| x.output_targets.first().unwrap() == &main_out_path)
        .collect::<Vec<_>>();
    assert_eq!(main_exe_rules.len(), 1);

    assert_eq!(
        main_exe_rules
            .first()
            .unwrap()
            .get("LINK_FLAGS")
            .unwrap()
            .iter()
            .filter(|x| *x == "-pie")
            .count(),
        1
    );
}
