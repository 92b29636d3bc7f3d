use catapult::generator::ninja::edge::{transform_defines, NinjaBuild};
use catapult::generator::ninja::paths::{input_path, output_path, output_subfolder_path};
use catapult::generator::ninja::rule::{link_static_lib, NinjaDeps, NinjaRspFile, NinjaRule};
use catapult::misc::{
    is_c_source, is_cpp_source, is_nasm_source, join_parent, join_path, strip_verbatim, SourcePath,
    Sources,
};
use catapult::text::{contains_whitespace, join_strings, to_ascii_uppercase};
use catapult::unique::deduplicate;

fn strings(names: &[&str]) -> Vec<String> {
    names.iter().map(|x| (*x).to_owned()).collect()
}

#[test]
fn defines_are_transformed() {
    let out = transform_defines(&strings(&["FOO=bar baz", "FOO", "FOO=bar"]));
    assert_eq!(out, strings(&["-DFOO=\"bar baz\"", "-DFOO", "-DFOO=bar"]));
}

#[test]
fn define_values_keep_later_equals_signs_and_escape_quotes() {
    let out = transform_defines(&strings(&["A=b=c", "S=\"x\"", "T=\"x y\"", "E="]));
    assert_eq!(out, strings(&["-DA=b=c", "-DS=\\\"x\\\"", "-DT=\"\\\"x y\\\"\"", "-DE="]));
}

#[test]
fn different_defines_give_different_flags() {
    let defines = strings(&[
        "A",
        "A=",
        "A=b",
        "A=b c",
        "A=\"b c\"",
        "A=\"b",
        "A=\\\"b",
        "A B",
        "A B=c",
        "A=b=c",
    ]);
    let flags = transform_defines(&defines);
    for i in 0..flags.len() {
        for j in 0..i {
            assert_ne!(flags[i], flags[j]);
        }
    }
}

#[test]
fn sources_are_told_apart_by_extension() {
    assert!(is_c_source("a.c"));
    assert!(is_c_source("a.C"));
    assert!(!is_c_source("a.cc"));
    assert!(is_cpp_source("a.cpp"));
    assert!(is_cpp_source("a.cc"));
    assert!(!is_cpp_source("a.c"));
    assert!(is_nasm_source("a.asm"));
    assert!(!is_nasm_source("a.s"));
}

#[test]
fn sources_are_sorted_by_language() {
    let path = |n: &str| SourcePath { full: format!("/p/{}", n), name: n.to_owned() };
    let sources =
        Sources::from_slice(vec![path("a.cpp"), path("b.c"), path("c.asm"), path("d.cc")]).unwrap();
    assert_eq!(sources.c.len(), 1);
    assert_eq!(sources.cpp.len(), 2);
    assert_eq!(sources.nasm.len(), 1);
    assert_eq!(sources.cpp[1].name, "d.cc");
    let names: Vec<String> = sources.iter().iter().map(|x| x.name.clone()).collect();
    assert_eq!(names, strings(&["b.c", "a.cpp", "d.cc", "c.asm"]));
    let refused = Sources::from_slice(vec![path("a.cpp"), path("b.txt"), path("c.rs")]);
    assert_eq!(refused.unwrap_err(), "Unknown source type: b.txt");
}

#[test]
fn source_path_is_resolved() {
    let found = join_parent("/p", "a.c", Some("/real/a.c".to_owned()));
    assert_eq!(found.full, "/real/a.c");
    assert_eq!(found.name, "a.c");
    let missing = join_parent("/p", "a.c", None);
    assert_eq!(missing.full, "/p/a.c");
}

#[test]
fn paths_are_joined() {
    assert_eq!(join_path("build", "proj"), "build/proj");
    assert_eq!(join_path("build/", "proj"), "build/proj");
    assert_eq!(join_path("", "proj"), "proj");
    assert_eq!(join_path("build", "/abs"), "/abs");
    assert_eq!(join_path("build", "C:\\abs"), "C:\\abs");
    assert_eq!(join_path(".", "add.cpp"), "./add.cpp");
    assert_eq!(strip_verbatim("\\\\?\\C:\\x"), "C:\\x");
    assert_eq!(strip_verbatim("\\\\?\\\\\\?\\C:\\x"), "C:\\x");
    assert_eq!(strip_verbatim("/usr"), "/usr");
}

#[test]
fn build_paths() {
    assert_eq!(input_path("main.cpp", "."), "./main.cpp");
    assert_eq!(input_path("/src/main.cpp", "/proj"), "/src/main.cpp");
    assert_eq!(output_path("build", "proj", "add", ".a"), "build/proj/add.a");
    assert_eq!(
        output_subfolder_path("build", "proj", "add", "add.cpp", ".o"),
        "build/proj/add.dir/add.cpp.o"
    );
}

#[test]
fn edge_is_written_with_escaped_colons() {
    let edge = NinjaBuild {
        inputs: strings(&["C:/src/a.cpp", "b.cpp"]),
        output_targets: strings(&["C:/out/a.o"]),
        rule_name: "compile_cpp_object".to_owned(),
        keyval_set: vec![
            ("FLAGS".to_owned(), strings(&["-O2", "-x:y"])),
            ("DEFINES".to_owned(), Vec::new()),
            ("DEP_FILE".to_owned(), strings(&["C:/out/a.o.d"])),
        ],
    };
    assert_eq!(
        edge.as_string(),
        "build C$:/out/a.o: compile_cpp_object C$:/src/a.cpp b.cpp\n  FLAGS = -O2 -x$:y\n  DEP_FILE = C$:/out/a.o.d\n\n"
    );
    assert_eq!(edge.get("FLAGS"), Some(&strings(&["-O2", "-x:y"])));
    assert_eq!(edge.get("MISSING"), None);
}

#[test]
fn rule_is_written() {
    let rule = link_static_lib(&strings(&["llvm-ar", "rcs"]));
    assert_eq!(
        rule.as_string(),
        "rule link_static_lib\n  command = llvm-ar rcs $TARGET_FILE $LINK_FLAGS $in\n  description = Linking static library $out\n\n"
    );
    let full = NinjaRule {
        name: "r".to_owned(),
        command: strings(&["cc"]),
        depfile: Some("$DEP_FILE".to_owned()),
        deps: Some(NinjaDeps::Msvc),
        description: None,
        dyndep: Some("dd".to_owned()),
        generator: true,
        restat: Some("1".to_owned()),
        rspfile: None,
    };
    assert_eq!(
        full.as_string(),
        "rule r\n  command = cc\n  depfile = $DEP_FILE\n  deps = msvc\n  dyndep = dd\n  generator = 1\n  restat = 1\n\n"
    );
    assert_eq!(NinjaDeps::Gcc.as_str(), "gcc");
    let with_response_file = NinjaRule {
        name: "link".to_owned(),
        command: strings(&["ld", "@$out.rsp"]),
        depfile: None,
        deps: None,
        description: None,
        dyndep: None,
        generator: false,
        restat: None,
        rspfile: Some(NinjaRspFile {
            rspfile: "$out.rsp".to_owned(),
            rspfilecontent: "$in".to_owned(),
        }),
    };
    assert_eq!(
        with_response_file.as_string(),
        "rule link\n  command = ld @$out.rsp\n  rspfile = $out.rsp\n  rspfilecontent = $in\n\n"
    );
}

#[test]
fn deduplicate_keeps_first_occurrences() {
    assert_eq!(deduplicate(strings(&["a", "b", "a", "c", "b"])), strings(&["a", "b", "c"]));
    assert_eq!(deduplicate(Vec::new()), Vec::<String>::new());
}

#[test]
fn strings_are_joined_and_put_in_upper_case() {
    assert_eq!(join_strings(&strings(&["a", "b", "c"]), ", "), "a, b, c");
    assert_eq!(join_strings(&strings(&["a"]), ", "), "a");
    assert_eq!(join_strings(&Vec::new(), ", "), "");
    assert_eq!(to_ascii_uppercase("ab-12-zZ\u{e9}"), "AB-12-ZZ\u{e9}");
}

#[test]
fn white_space_is_what_unicode_says() {
    let is_listed = |c: char| {
        matches!(
            c,
            '\u{9}'..='\u{d}'
                | ' '
                | '\u{85}'
                | '\u{a0}'
                | '\u{1680}'
                | '\u{2000}'..='\u{200a}'
                | '\u{2028}'
                | '\u{2029}'
                | '\u{202f}'
                | '\u{205f}'
                | '\u{3000}'
        )
    };
    let mut listed = 0;
    for code in 0..=0x10ffffu32 {
        if let Some(c) = char::from_u32(code) {
            assert_eq!(contains_whitespace(&vec!['a', c, 'b']), is_listed(c));
            if is_listed(c) {
                listed += 1;
            }
        }
    }
    assert_eq!(listed, 25);
    let quoted = transform_defines(&strings(&["A=x\u{2003}y", "A=x\u{200b}y"]));
    assert_eq!(quoted, strings(&["-DA=\"x\u{2003}y\"", "-DA=x\u{200b}y"]));
}
