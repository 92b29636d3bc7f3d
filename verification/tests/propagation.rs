use catapult::executable::Executable;
use catapult::graph::TargetGraph;
use catapult::interface_library::InterfaceLibrary;
use catapult::link_type::{LinkPtr, Property};
use catapult::misc::{SourcePath, Sources};
use catapult::object_library::ObjectLibrary;
use catapult::project::{Project, ProjectInfo};
use catapult::static_library::StaticLibrary;
use catapult::target::{LinkTarget, Target};

fn info() -> ProjectInfo {
    ProjectInfo { name: "p".to_owned(), path: "/p".to_owned() }
}

fn dirs(names: &[&str]) -> Vec<SourcePath> {
    names
        .iter()
        .map(|x| SourcePath { full: format!("/p/{}", x), name: (*x).to_owned() })
        .collect()
}

fn strings(names: &[&str]) -> Vec<String> {
    names.iter().map(|x| (*x).to_owned()).collect()
}

fn lib(
    name: &str,
    private: Vec<LinkPtr>,
    public: Vec<LinkPtr>,
    includes: &[&str],
    defines: &[&str],
) -> StaticLibrary {
    StaticLibrary {
        project: info(),
        name: name.to_owned(),
        sources: Sources { c: Vec::new(), cpp: Vec::new(), nasm: Vec::new() },
        link_private: private,
        link_public: public,
        include_dirs_public: dirs(includes),
        include_dirs_private: dirs(&["private"]),
        defines_private: strings(&["PRIVATE"]),
        defines_public: strings(defines),
        link_flags_public: strings(&["-lm"]),
        generator_vars: None,
        output_name: None,
    }
}

#[test]
fn includes_are_ordered_and_unique() {
    let mut graph = TargetGraph::new();
    let d = graph.add_static_library(lib("d", vec![], vec![], &["d", "common"], &["D"])).unwrap();
    let b = graph.add_static_library(lib("b", vec![], vec![d], &["b", "common"], &["B"])).unwrap();
    let c = graph.add_static_library(lib("c", vec![], vec![d], &["c", "common"], &["C"])).unwrap();
    let a = graph.add_static_library(lib("a", vec![], vec![b, c], &["a", "d"], &["A"])).unwrap();
    let expected = strings(&["/p/d", "/p/common", "/p/b", "/p/c", "/p/a"]);
    assert_eq!(graph.public_includes_recursive(a), expected);
    assert_eq!(graph.public_includes_recursive(a), expected);
    assert_eq!(graph.public_defines_recursive(a), strings(&["D", "B", "C", "A"]));
    assert_eq!(graph.public_link_flags_recursive(a), strings(&["-lm"]));
    assert_eq!(graph.public_recursive(d, Property::Includes), strings(&["/p/d", "/p/common"]));
}

#[test]
fn private_links_are_linked_but_hand_nothing_on() {
    let mut graph = TargetGraph::new();
    let library =
        graph.add_static_library(lib("library", vec![], vec![], &["library"], &["LIB"])).unwrap();
    let first = graph
        .add_static_library(lib("first", vec![library], vec![], &["first"], &["FIRST"]))
        .unwrap();
    let second =
        graph.add_static_library(lib("second", vec![], vec![first], &["second"], &[])).unwrap();
    assert_eq!(graph.public_links_recursive(first), vec![library]);
    assert_eq!(graph.public_links_recursive(second), vec![first, library]);
    assert_eq!(graph.public_includes_recursive(first), strings(&["/p/first"]));
    assert_eq!(graph.public_includes_recursive(second), strings(&["/p/first", "/p/second"]));
    assert_eq!(graph.public_defines_recursive(second), strings(&["FIRST"]));
}

#[test]
fn links_come_private_first_then_public_then_expanded() {
    let mut graph = TargetGraph::new();
    let x = graph.add_static_library(lib("x", vec![], vec![], &[], &[])).unwrap();
    let y = graph.add_static_library(lib("y", vec![], vec![], &[], &[])).unwrap();
    let p = graph.add_static_library(lib("p", vec![x], vec![], &[], &[])).unwrap();
    let q = graph.add_static_library(lib("q", vec![], vec![y, x], &[], &[])).unwrap();
    let top = graph.add_static_library(lib("top", vec![p], vec![q], &[], &[])).unwrap();
    assert_eq!(graph.public_links_recursive(top), vec![p, q, x, y]);
}

#[test]
fn interface_library_forwards_its_links() {
    let mut graph = TargetGraph::new();
    let inner = graph.add_static_library(lib("inner", vec![], vec![], &["inner"], &["IN"])).unwrap();
    let iface = graph
        .add_interface_library(InterfaceLibrary {
            project: info(),
            name: "iface".to_owned(),
            links: vec![inner],
            include_dirs: dirs(&["iface"]),
            defines: strings(&["IFACE"]),
            link_flags: strings(&["-liface"]),
        })
        .unwrap();
    assert_eq!(iface, LinkPtr::Interface(1));
    assert_eq!(graph.public_includes_recursive(iface), strings(&["/p/inner", "/p/iface"]));
    assert_eq!(graph.public_links_recursive(iface), vec![inner]);
    assert_eq!(graph.public_link_flags_recursive(iface), strings(&["-lm", "-liface"]));
    let node = graph.get(iface).unwrap();
    assert_eq!(node.name(), "iface");
    assert_eq!(node.output_name(), "iface");
    assert_eq!(node.public_defines(), strings(&["IFACE"]));
    assert_eq!(node.public_defines_recursive(&graph), strings(&["IN", "IFACE"]));
    assert_eq!(node.public_links(), vec![inner]);
}

#[test]
fn library_with_unknown_link_is_handed_back() {
    let mut graph = TargetGraph::new();
    let refused = graph.add_static_library(lib("a", vec![LinkPtr::Static(0)], vec![], &[], &[]));
    assert!(refused.is_err());
    assert_eq!(graph.len(), 0);
    let a = graph.add_static_library(lib("a", vec![], vec![], &[], &[])).unwrap();
    assert!(graph.contains(a));
    assert!(!graph.contains(LinkPtr::Object(0)));
    assert!(!graph.contains(LinkPtr::Static(1)));
    let wrong_kind = graph.add_object_library(ObjectLibrary {
        project: info(),
        name: "o".to_owned(),
        sources: Sources { c: Vec::new(), cpp: Vec::new(), nasm: Vec::new() },
        link_private: vec![LinkPtr::Interface(0)],
        link_public: vec![],
        include_dirs_public: vec![],
        include_dirs_private: vec![],
        defines_private: vec![],
        defines_public: vec![],
        link_flags_public: vec![],
        generator_vars: None,
        output_name: None,
    });
    assert!(wrong_kind.is_err());
}

#[test]
fn executable_sees_what_its_links_hand_on() {
    let mut graph = TargetGraph::new();
    let d = graph.add_static_library(lib("d", vec![], vec![], &["d"], &["D"])).unwrap();
    let b = graph.add_static_library(lib("b", vec![d], vec![], &["b"], &["B"])).unwrap();
    let exe = Executable {
        project: info(),
        name: "exe".to_owned(),
        sources: Sources { c: Vec::new(), cpp: Vec::new(), nasm: Vec::new() },
        links: vec![b, d],
        include_dirs: dirs(&["own", "b"]),
        defines: strings(&["OWN", "D"]),
        link_flags: strings(&["-s"]),
        generator_vars: None,
        output_name: Some("program".to_owned()),
    };
    assert_eq!(exe.public_includes_recursive(&graph), strings(&["/p/b", "/p/d", "/p/own"]));
    assert_eq!(exe.public_defines_recursive(&graph), strings(&["B", "D", "OWN"]));
    assert_eq!(exe.link_flags_recursive(&graph), strings(&["-lm", "-s"]));
    assert_eq!(exe.name(), "exe");
    assert_eq!(exe.output_name(), "program");
    assert_eq!(exe.project().name, "p");
}

#[test]
fn static_library_accessors() {
    let mut graph = TargetGraph::new();
    let d = graph.add_static_library(lib("d", vec![], vec![], &["d"], &["D"])).unwrap();
    let mut b = lib("b", vec![], vec![d], &["b"], &["B"]);
    b.output_name = Some("bee".to_owned());
    b.set_parent(ProjectInfo { name: "other".to_owned(), path: "/o".to_owned() });
    assert_eq!(b.name(), "b");
    assert_eq!(b.output_name(), "bee");
    assert_eq!(b.project().name, "other");
    assert_eq!(b.public_includes(), strings(&["/p/b"]));
    assert_eq!(b.public_includes_recursive(&graph), strings(&["/p/d", "/p/b"]));
    assert_eq!(b.private_includes(), strings(&["/p/private"]));
    assert_eq!(b.private_defines(), strings(&["PRIVATE"]));
    assert_eq!(b.public_link_flags(), strings(&["-lm"]));
    assert_eq!(b.public_links_recursive(&graph), vec![d]);
}

#[test]
fn executable_is_shown_with_the_names_of_its_links() {
    let mut graph = TargetGraph::new();
    let d = graph.add_static_library(lib("d", vec![], vec![], &["d"], &["D"])).unwrap();
    let b = graph.add_static_library(lib("b", vec![d], vec![], &["b"], &["B"])).unwrap();
    let source = |n: &str| SourcePath { full: format!("/p/{}", n), name: n.to_owned() };
    let exe = Executable {
        project: info(),
        name: "exe".to_owned(),
        sources: Sources {
            c: vec![source("one.c")],
            cpp: vec![source("two.cpp")],
            nasm: vec![source("three.asm")],
        },
        links: vec![b, d, LinkPtr::Static(7)],
        include_dirs: dirs(&["own", "b"]),
        defines: strings(&["OWN", "D"]),
        link_flags: strings(&["-s"]),
        generator_vars: None,
        output_name: None,
    };
    assert_eq!(
        exe.describe(&graph),
        "Executable{\n   name: exe,\n   sources: [, one.c, two.cpp, three.asm],\n   links: [b, d],\n   include_dirs: [, own, b],\n   defines: [OWN, D],\n   link_flags: [-s],\n   output_name: None,\n}"
    );
    let mut named = exe;
    named.output_name = Some("program".to_owned());
    named.links = Vec::new();
    assert!(named.describe(&graph).ends_with("   output_name: program,\n}"));
    assert!(named.describe(&graph).contains("   links: [],\n"));
}

#[test]
fn project_fits_a_graph_that_holds_its_libraries() {
    let mut graph = TargetGraph::new();
    let d = graph.add_static_library(lib("d", vec![], vec![], &["d"], &["D"])).unwrap();
    let exe = |links: Vec<LinkPtr>| Executable {
        project: info(),
        name: "exe".to_owned(),
        sources: Sources { c: Vec::new(), cpp: Vec::new(), nasm: Vec::new() },
        links,
        include_dirs: Vec::new(),
        defines: Vec::new(),
        link_flags: Vec::new(),
        generator_vars: None,
        output_name: None,
    };
    let project = |statics: Vec<LinkPtr>, objects: Vec<LinkPtr>, exes: Vec<Executable>| Project {
        info: info(),
        dependencies: Vec::new(),
        executables: exes,
        static_libraries: statics,
        object_libraries: objects,
        interface_libraries: Vec::new(),
    };
    assert!(project(vec![d], vec![], vec![exe(vec![d])]).fits(&graph));
    assert!(project(vec![], vec![], vec![]).fits(&graph));
    // A library listed under another kind, a library that is not there,
    // a program with a link that names nothing.
    assert!(!project(vec![], vec![d], vec![]).fits(&graph));
    assert!(!project(vec![LinkPtr::Static(1)], vec![], vec![]).fits(&graph));
    assert!(!project(vec![d], vec![], vec![exe(vec![LinkPtr::Static(3)])]).fits(&graph));
    let outer = Project {
        info: info(),
        dependencies: vec![project(vec![LinkPtr::Object(0)], vec![], vec![])],
        executables: Vec::new(),
        static_libraries: vec![d],
        object_libraries: Vec::new(),
        interface_libraries: Vec::new(),
    };
    assert!(!outer.fits(&graph));
}
