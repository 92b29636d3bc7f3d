use catapult::cli::{parse_generator, parse_package_option, select_profile};
use catapult::generator::{target_platform, Generator};
use catapult::registry::{
    cache_is_current, decode_package_file, dependency_origin, package_cache_path, package_source,
    registry_request, DependencyOrigin, PackageFileError,
};
use catapult::starlark_fmt::{format_link_targets, format_strings};
use catapult::starlark_global::{StarToolchain, StarVersion};
use catapult::toolchain::compiler::detect::{
    identify_assembler, identify_compiler, identify_linker, DetectedCompiler, ProbeOutcome,
};
use catapult::toolchain::compiler::identify::{find_version, split_lines};
use catapult::toolchain::compiler::{Assembler, Compiler, ExeLinker};
use catapult::text::{is_ascending, is_before};
use catapult::toolchain::{
    are_in_order, read_toolchain, Probes, Profile, Tool, Toolchain, ToolchainFile, VcxprojProfile,
};

const CLANG_LINUX: &str = "Ubuntu clang version 17.0.0 (++20230911073219+0176e8729ea4-1~exp1~20230911073329.40)\nTarget: x86_64-pc-linux-gnu\nThread model: posix\nInstalledDir: /usr/bin\n";
const CLANG_WINDOWS: &str = "clang version 16.0.1\r\nTarget: x86_64-pc-windows-msvc\r\nThread model: posix\r\nInstalledDir: C:\\Program Files\\LLVM\\bin\r\n";
const GCC: &str = "Using built-in specs.\nCOLLECT_GCC=g++\nTarget: x86_64-linux-gnu\nThread model: posix\ngcc version 11.4.0 (Ubuntu 11.4.0-1ubuntu1~22.04)\n";

fn strings(names: &[&str]) -> Vec<String> {
    names.iter().map(|x| (*x).to_owned()).collect()
}

fn said(stderr: &str) -> ProbeOutcome {
    ProbeOutcome::Exited {
        success: true,
        status: "exit status: 0".to_owned(),
        stdout: String::new(),
        stderr: stderr.to_owned(),
    }
}

fn file_with_c_compiler() -> ToolchainFile {
    ToolchainFile {
        msvc_platforms: None,
        c_compiler: Some(strings(&["cc"])),
        cpp_compiler: None,
        nasm_assembler: None,
        static_linker: Some(strings(&["ar", "rcs"])),
        exe_linker: None,
        profile: None,
    }
}

fn probes_for_c(outcome: ProbeOutcome) -> Probes {
    Probes { nasm_assembler: None, c_compiler: Some(outcome), cpp_compiler: None, exe_linker: None }
}

#[test]
fn clang_for_linux_is_identified_with_pic_flags() {
    let file = file_with_c_compiler();
    let probes = probes_for_c(said(CLANG_LINUX));
    assert!(probes.covers(&file));
    let toolchain = read_toolchain(file, probes).unwrap();
    let compiler = toolchain.c_compiler.as_ref().unwrap();
    assert_eq!(compiler.id(), "clang");
    assert_eq!(compiler.version(), "17.0.0");
    assert!(!compiler.version().is_empty());
    assert_eq!(compiler.target(), "x86_64-pc-linux-gnu");
    assert_eq!(compiler.cmd(), strings(&["cc"]));
    assert_eq!(compiler.position_independent_code_flag(), Some("-fPIC".to_owned()));
    assert_eq!(compiler.position_independent_executable_flag(), Some("-fPIE".to_owned()));
    assert!(toolchain.cpp_compiler.is_none());
    assert_eq!(toolchain.static_linker, Some(strings(&["ar", "rcs"])));
    assert!(toolchain.msvc_platforms.is_empty());
}

#[test]
fn clang_for_windows_has_no_pic_flags() {
    let toolchain =
        read_toolchain(file_with_c_compiler(), probes_for_c(said(CLANG_WINDOWS))).unwrap();
    let compiler = toolchain.c_compiler.as_ref().unwrap();
    assert_eq!(compiler.id(), "clang");
    assert_eq!(compiler.version(), "16.0.1");
    assert_eq!(compiler.target(), "x86_64-pc-windows-msvc");
    assert_eq!(compiler.position_independent_code_flag(), None);
    assert_eq!(compiler.position_independent_executable_flag(), None);
    let linker = identify_linker(strings(&["clang"]), said(CLANG_WINDOWS)).unwrap();
    assert_eq!(ExeLinker::position_independent_executable_flag(&linker), None);
}

#[test]
fn gcc_is_identified() {
    let compiler = identify_compiler(strings(&["g++", "-pipe"]), said(GCC)).unwrap();
    assert!(matches!(compiler, DetectedCompiler::Gcc(_)));
    assert_eq!(compiler.id(), "gcc");
    assert_eq!(compiler.version(), "11.4.0");
    assert_eq!(compiler.target(), "x86_64-linux-gnu");
    assert_eq!(Compiler::cmd(&compiler), strings(&["g++", "-pipe"]));
    assert_eq!(compiler.out_flag(), "-o");
    assert_eq!(compiler.depfile_flags("a.o", "a.d"), strings(&["-MD", "-MT", "a.o", "-MF", "a.d"]));
    assert_eq!(compiler.c_std_flag("11"), Ok("-std=c11".to_owned()));
    assert_eq!(compiler.cpp_std_flag("23"), Ok("-std=c++23".to_owned()));
    assert_eq!(
        compiler.c_std_flag("99"),
        Err("C standard not supported by compiler: 99. Accepted values are \"17\", \"11\"".to_owned())
    );
    assert_eq!(
        compiler.cpp_std_flag("98"),
        Err("C++ standard not supported by compiler: 98. Accepted values are \"23\", \"20\", \"17\", \"14\", \"11\"".to_owned())
    );
    assert_eq!(
        ExeLinker::position_independent_executable_flag(&compiler),
        Some("-pie".to_owned())
    );
}

#[test]
fn emscripten_is_identified() {
    let banner = "emcc (Emscripten gcc/clang-like replacement + linker emulating GNU ld) 3.1.45 (ef3e4e3b044de98e1811546e0bc605c65d3412f4)\nTarget: wasm32-unknown-emscripten\n";
    let compiler = identify_compiler(strings(&["emcc"]), said(banner)).unwrap();
    assert_eq!(compiler.id(), "emscripten");
    assert_eq!(compiler.version(), "3.1.45");
    assert_eq!(compiler.target(), "wasm32-unknown-emscripten");
    assert_eq!(compiler.position_independent_code_flag(), None);
    let plain = identify_compiler(strings(&["emcc"]), said("emcc 1.2.3\nTarget: wasm32\n")).unwrap();
    assert_eq!(plain.version(), "1.2.3");
}

#[test]
fn first_family_wins() {
    let both = "clang version 1.0 gcc\nTarget: t\ngcc version 2.0\n";
    let compiler = identify_compiler(strings(&["cc"]), said(both)).unwrap();
    assert_eq!(compiler.id(), "clang");
    assert_eq!(compiler.version(), "1.0");
}

#[test]
fn nasm_is_identified_from_both_streams() {
    let outcome = ProbeOutcome::Exited {
        success: true,
        status: "exit status: 0".to_owned(),
        stdout: "NASM version 2.16.01 compiled on Jan  1 2023\n".to_owned(),
        stderr: String::new(),
    };
    let nasm = identify_assembler(strings(&["nasm"]), outcome).unwrap();
    assert_eq!(nasm.id(), "nasm");
    assert_eq!(nasm.version(), "2.16.01");
    assert_eq!(nasm.out_flag(), "-o");
    assert_eq!(nasm.depfile_flags("a.o", "a.d"), strings(&["-MD", "a.d", "-MT", "a.o"]));
    assert_eq!(
        identify_assembler(strings(&["yasm"]), said("yasm 1.3.0\n")).unwrap_err(),
        "Could not identify assembler \"yasm\""
    );
}

#[test]
fn identification_failures_name_role_and_command() {
    assert_eq!(
        identify_compiler(Vec::new(), said(GCC)).unwrap_err(),
        "Compiler command is empty"
    );
    assert_eq!(identify_linker(Vec::new(), said(GCC)).unwrap_err(), "Linker command is empty");
    assert_eq!(
        identify_compiler(strings(&["cc"]), ProbeOutcome::Failed("No such file".to_owned()))
            .unwrap_err(),
        "Error executing compiler command \"cc -v\": No such file"
    );
    let failed = ProbeOutcome::Exited {
        success: false,
        status: "exit status: 1".to_owned(),
        stdout: String::new(),
        stderr: GCC.to_owned(),
    };
    assert_eq!(
        identify_linker(strings(&["ld"]), failed).unwrap_err(),
        "Linker command returned non-success exit code: \"ld -v\": exit status: 1"
    );
    assert_eq!(
        identify_compiler(strings(&["cc"]), said("")).unwrap_err(),
        "Compiler command output empty. Could not identify compiler"
    );
    assert_eq!(
        identify_compiler(strings(&["cc"]), said("tcc version 0.9.27\n")).unwrap_err(),
        "Could not identify compiler \"cc\""
    );
    assert_eq!(
        identify_compiler(strings(&["cc"]), said("clang version 17.0.0\nThread model: posix\n"))
            .unwrap_err(),
        "Could not find \"Target: \" in compiler output"
    );
    assert_eq!(
        read_toolchain(file_with_c_compiler(), probes_for_c(said(""))).err().unwrap(),
        "Error identifying C compiler: Compiler command output empty. Could not identify compiler"
    );
}

#[test]
fn lines_and_versions() {
    assert_eq!(split_lines("a\r\nb\n\nc"), strings(&["a", "b", "", "c"]));
    assert_eq!(split_lines("a\n"), strings(&["a"]));
    assert_eq!(split_lines(""), Vec::<String>::new());
    assert_eq!(split_lines("a\rb\r"), strings(&["a\rb\r"]));
    assert_eq!(find_version("gcc version 11.4.0 (Ubuntu)", "gcc version "), "11.4.0");
    assert_eq!(find_version("clang version 16.0.1", "clang version "), "16.0.1");
}

#[test]
fn version_is_split_into_its_parts() {
    let v = StarVersion::from_str("17.0.6-rc2-x".to_owned());
    assert_eq!(v.str, "17.0.6-rc2-x");
    assert_eq!((v.major, v.minor, v.patch), (17, 0, 6));
    assert_eq!(v.revision, "rc2-x");
    let w = StarVersion::from_str("11.x".to_owned());
    assert_eq!((w.major, w.minor, w.patch), (11, 0, 0));
    assert_eq!(w.revision, "");
    let big = StarVersion::from_str("4294967295.4294967296.+7.9".to_owned());
    assert_eq!((big.major, big.minor, big.patch), (4294967295, 0, 7));
    let empty = StarVersion::from_str(String::new());
    assert_eq!((empty.major, empty.minor, empty.patch), (0, 0, 0));
}

#[test]
fn build_file_is_told_of_the_toolchain() {
    let toolchain = read_toolchain(file_with_c_compiler(), probes_for_c(said(GCC))).unwrap();
    let told = StarToolchain::new(&toolchain);
    let c = told.c_compiler.unwrap();
    assert_eq!(c.id, "gcc");
    assert_eq!(c.version.major, 11);
    assert_eq!(c.version.minor, 4);
    assert!(told.cpp_compiler.is_none());
    assert!(told.nasm_assembler.is_none());
}

#[test]
fn declarations_are_shown() {
    assert_eq!(format_strings(&Vec::new()), "");
    assert_eq!(format_strings(&strings(&["a.c"])), "\"a.c\"");
    assert_eq!(
        format_strings(&strings(&["a.c", "b.c"])),
        "\n      \"a.c\",\n      \"b.c\",\n   "
    );
    assert_eq!(format_link_targets(&Vec::new()), "");
    assert_eq!(format_link_targets(&strings(&["zstd"])), "zstd");
    assert_eq!(format_link_targets(&strings(&["a", "b"])), "\n    a,\n    b,\n  ");
}

#[test]
fn platform_follows_the_target_triple() {
    let windows = target_platform("x86_64-pc-windows-msvc");
    assert_eq!(windows.obj_ext, ".obj");
    assert_eq!(windows.static_lib_ext, ".lib");
    assert_eq!(windows.exe_ext, ".exe");
    assert_eq!(target_platform("aarch64-windows").exe_ext, ".exe");
    let linux = target_platform("x86_64-unknown-linux-gnu");
    assert_eq!(linux.obj_ext, ".o");
    assert_eq!(linux.static_lib_ext, ".a");
    assert_eq!(linux.exe_ext, "");
    assert_eq!(target_platform("").obj_ext, ".o");
}

#[test]
fn command_line_words() {
    let opt = parse_package_option("zstd:threads=4=x").unwrap();
    assert_eq!(opt.package, "zstd");
    assert_eq!(opt.option, "threads");
    assert_eq!(opt.value, "4=x");
    assert_eq!(
        parse_package_option("zstd=threads").unwrap_err(),
        "Invalid package-option. Option must be specified as <package name>:<package option>=<value>"
    );
    assert!(parse_package_option("a:b").is_err());
    assert_eq!(parse_generator("Ninja"), Ok(Generator::Ninja));
    assert_eq!(parse_generator("MSVC"), Ok(Generator::Msvc));
    assert_eq!(
        parse_generator("Make"),
        Err("Error: Not a valid generator 'Make'".to_owned())
    );
}

#[test]
fn profile_is_selected() {
    let mut toolchain = Toolchain::default();
    let mut release = Profile::default();
    release.c_compile_flags = strings(&["-O2"]);
    toolchain.profile = vec![("Debug".to_owned(), Profile::default()), ("Release".to_owned(), release)];
    let chosen = select_profile(&toolchain, &Some("Release".to_owned()), Generator::Ninja).unwrap();
    assert_eq!(chosen.c_compile_flags, strings(&["-O2"]));
    assert_eq!(
        select_profile(&toolchain, &Some("Fast".to_owned()), Generator::Ninja).unwrap_err(),
        "Selected profile is not provided by toolchain"
    );
    assert_eq!(
        select_profile(&toolchain, &Some("Release".to_owned()), Generator::Msvc).unwrap_err(),
        "--profile is incompatible with MSVC generator"
    );
    let none = select_profile(&toolchain, &None, Generator::Msvc).unwrap();
    assert!(none.c_compile_flags.is_empty());
    assert!(toolchain.find_profile("Debug").is_some());
    assert!(toolchain.find_profile("debug").is_none());
}

#[test]
fn registry_decisions() {
    let request = registry_request(
        "https://registry.example".to_owned(),
        "zstd",
        &Some("1.5.5".to_owned()),
        &Some("stable".to_owned()),
    )
    .unwrap();
    assert_eq!(request.base, "https://registry.example/");
    assert_eq!(request.path, "get/zstd/1.5.5/stable");
    let slashed =
        registry_request("r/".to_owned(), "z", &Some("1".to_owned()), &Some("c".to_owned()))
            .unwrap();
    assert_eq!(slashed.base, "r/");
    assert_eq!(
        registry_request("r".to_owned(), "zstd", &None, &Some("c".to_owned())).unwrap_err(),
        "Field \"version\" required for dependency \"zstd\""
    );
    assert_eq!(
        registry_request("r".to_owned(), "zstd", &Some("1".to_owned()), &None).unwrap_err(),
        "Field \"channel\" required for dependency \"zstd\""
    );
    assert_eq!(package_cache_path("/c", "zstd", "stable"), "/c/catapult/cache/zstd/stable");
    assert!(cache_is_current(" abc\n", "abc"));
    assert!(cache_is_current("abc", "\tabc "));
    assert!(!cache_is_current("abc", "abd"));
    assert!(!cache_is_current("a bc", "abc"));
    assert_eq!(package_source(Some("url".to_owned()), "zstd"), Ok("url".to_owned()));
    assert_eq!(
        package_source(None, "zstd"),
        Err("Dependency manifest did not contain source. (zstd)".to_owned())
    );
    assert!(matches!(
        dependency_origin(Some("r".to_owned()), true, Some("p".to_owned())),
        Ok(DependencyOrigin::Registry(_))
    ));
    assert!(matches!(
        dependency_origin(None, false, Some("p".to_owned())),
        Ok(DependencyOrigin::Path(_))
    ));
    assert_eq!(
        dependency_origin(None, false, None).unwrap_err(),
        "Dependency must specify either \"registry\" or \"git\" or \"path\""
    );
}

#[test]
fn package_files_are_decoded() {
    assert_eq!(decode_package_file("aGVsbG8"), Ok(b"hello".to_vec()));
    assert_eq!(decode_package_file(""), Ok(Vec::new()));
    assert_eq!(decode_package_file("aGVsbG8="), Err(PackageFileError::BadEncoding));
    assert_eq!(decode_package_file("a?b"), Err(PackageFileError::BadEncoding));
    assert_eq!(
        PackageFileError::BadEncoding.message(),
        "File of the package is not valid base64"
    );
}

#[test]
fn every_tool_is_named_when_it_cannot_be_identified() {
    let file = |cpp: bool, nasm: bool, linker: bool| ToolchainFile {
        msvc_platforms: None,
        c_compiler: None,
        cpp_compiler: if cpp { Some(strings(&["c++"])) } else { None },
        nasm_assembler: if nasm { Some(strings(&["nasm"])) } else { None },
        static_linker: None,
        exe_linker: if linker { Some(strings(&["ld"])) } else { None },
        profile: None,
    };
    let unknown = || Some(said("tcc version 0.9.27\n"));
    assert_eq!(
        read_toolchain(
            file(true, false, false),
            Probes { nasm_assembler: None, c_compiler: None, cpp_compiler: unknown(), exe_linker: None },
        )
        .err()
        .unwrap(),
        "Error identifying C++ compiler: Could not identify compiler \"c++\""
    );
    assert_eq!(
        read_toolchain(
            file(false, false, true),
            Probes { nasm_assembler: None, c_compiler: None, cpp_compiler: None, exe_linker: unknown() },
        )
        .err()
        .unwrap(),
        "Error identifying linker: Could not identify linker \"ld\""
    );
    let failed = read_toolchain(
        file(false, true, false),
        Probes {
            nasm_assembler: Some(ProbeOutcome::Failed("No such file".to_owned())),
            c_compiler: None,
            cpp_compiler: None,
            exe_linker: None,
        },
    )
    .err()
    .unwrap();
    assert!(failed.starts_with("Error identifying NASM assembler: "));
    assert!(failed.contains("nasm"));
    assert!(failed.contains("No such file"));
    // The assembler is asked first, then the compilers, then the linker.
    let all = read_toolchain(
        file(true, true, true),
        Probes {
            nasm_assembler: Some(ProbeOutcome::Failed("gone".to_owned())),
            c_compiler: None,
            cpp_compiler: unknown(),
            exe_linker: unknown(),
        },
    )
    .err()
    .unwrap();
    assert!(all.starts_with("Error identifying NASM assembler: "));
}

#[test]
fn tools_are_asked_in_turn_and_not_behind_a_failure() {
    let file = ToolchainFile {
        msvc_platforms: None,
        c_compiler: Some(strings(&["cc"])),
        cpp_compiler: None,
        nasm_assembler: Some(strings(&["nasm"])),
        static_linker: None,
        exe_linker: Some(strings(&["ld"])),
        profile: None,
    };
    let mut probes = Probes::new();
    assert_eq!(probes.next(&file), Some(Tool::NasmAssembler));
    probes.nasm_assembler = Some(said("NASM version 2.16.01 compiled on Jan 1 2024\n"));
    assert_eq!(probes.next(&file), Some(Tool::CCompiler));
    probes.c_compiler = Some(said(GCC));
    assert_eq!(probes.next(&file), Some(Tool::ExeLinker));
    probes.exe_linker = Some(said(GCC));
    assert_eq!(probes.next(&file), None);
    assert!(probes.covers(&file));
    assert!(read_toolchain(file.clone(), probes).is_ok());

    let mut probes = Probes::new();
    probes.nasm_assembler = Some(said("NASM version 2.16.01\n"));
    probes.c_compiler = Some(said("tcc version 0.9.27\n"));
    assert_eq!(probes.next(&file), None);
    assert!(!probes.covers(&file));
    assert_eq!(
        read_toolchain(file.clone(), probes).err().unwrap(),
        "Error identifying C compiler: Could not identify compiler \"cc\""
    );
    let mut probes = Probes::new();
    probes.nasm_assembler = Some(ProbeOutcome::Failed("gone".to_owned()));
    assert_eq!(probes.next(&file), None);
    let nothing = ToolchainFile { c_compiler: None, nasm_assembler: None, exe_linker: None, ..file };
    assert_eq!(Probes::new().next(&nothing), None);
}

#[test]
fn names_stand_in_order() {
    assert!(is_before("Debug", "Release"));
    assert!(is_before("a", "ab"));
    assert!(is_before("", "a"));
    assert!(is_before("Z", "a"));
    assert!(is_before("a", "\u{e9}"));
    assert!(!is_before("ab", "a"));
    assert!(!is_before("a", "a"));
    assert!(!is_before("", ""));
    for (a, b) in [("Debug", "Release"), ("ab", "a"), ("x", "x"), ("\u{e9}", "z")] {
        assert_eq!(is_before(a, b), a < b);
    }
    assert!(is_ascending(&strings(&["a", "b", "c"])));
    assert!(is_ascending(&Vec::new()));
    assert!(!is_ascending(&strings(&["a", "a"])));
    assert!(!is_ascending(&strings(&["b", "a"])));

    let pair = |k: &str| (k.to_owned(), "v".to_owned());
    let part = |keys: &[&str]| VcxprojProfile {
        preprocessor_definitions: Vec::new(),
        property_group: keys.iter().map(|k| pair(k)).collect(),
        cl_compile: Vec::new(),
        link: vec![pair("A"), pair("B")],
    };
    assert!(part(&["PlatformToolset", "UseDebugLibraries"]).is_well_formed());
    assert!(!part(&["UseDebugLibraries", "PlatformToolset"]).is_well_formed());
    let profile = |keys: &[&str]| {
        let mut p = Profile::default();
        p.vcxproj = Some(part(keys));
        p
    };
    let in_order = vec![("Debug".to_owned(), profile(&["a"])), ("Release".to_owned(), profile(&[]))];
    assert!(are_in_order(&in_order));
    let twice = vec![("Debug".to_owned(), profile(&[])), ("Debug".to_owned(), profile(&[]))];
    assert!(!are_in_order(&twice));
    let inner = vec![("Debug".to_owned(), profile(&["b", "a"]))];
    assert!(!are_in_order(&inner));
    let mut file = file_with_c_compiler();
    assert!(file.is_well_formed());
    file.profile = Some(twice);
    assert!(!file.is_well_formed());
    file.profile = Some(in_order);
    assert!(file.is_well_formed());
    let toolchain = read_toolchain(file, probes_for_c(said(GCC))).unwrap();
    let names: Vec<&str> = toolchain.profile.iter().map(|x| x.0.as_str()).collect();
    assert_eq!(names, vec!["Debug", "Release"]);
}
