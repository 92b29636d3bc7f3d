use catapult::generator_vars::GeneratorVars;
use catapult::graph::LinkNode;
use catapult::link_type::LinkPtr;
use catapult::misc::SourcePath;
use catapult::parse_project;
use catapult::project::ProjectInfo;
use catapult::starlark_link_target::{
    PtrLinkTarget, StarExecutable, StarIfaceLibrary, StarLinkTarget, StarObjectLibrary,
    StarStaticLibrary,
};
use catapult::starlark_project::{StarLinkTargetCache, StarProject};
use catapult::target::Target;
use catapult::ManifestOptions;

fn info(name: &str) -> ProjectInfo {
    ProjectInfo { name: name.to_owned(), path: format!("/{}", name) }
}

fn paths(dir: &str, names: &[&str]) -> Vec<SourcePath> {
    names
        .iter()
        .map(|x| SourcePath { full: format!("/{}/{}", dir, x), name: (*x).to_owned() })
        .collect()
}

fn static_lib(
    project: &str,
    name: &str,
    sources: &[&str],
    private: &[usize],
    public: &[usize],
) -> StarLinkTarget {
    StarLinkTarget::Static(StarStaticLibrary {
        project: info(project),
        name: name.to_owned(),
        sources: paths(project, sources),
        link_private: private.iter().map(|x| PtrLinkTarget(*x)).collect(),
        link_public: public.iter().map(|x| PtrLinkTarget(*x)).collect(),
        include_dirs_public: Vec::new(),
        include_dirs_private: Vec::new(),
        defines_private: Vec::new(),
        defines_public: Vec::new(),
        link_flags_public: Vec::new(),
        generator_vars: None,
        output_name: None,
    })
}

fn executable(project: &str, name: &str, sources: &[&str], links: &[usize]) -> StarExecutable {
    StarExecutable {
        project: info(project),
        name: name.to_owned(),
        sources: paths(project, sources),
        links: links.iter().map(|x| PtrLinkTarget(*x)).collect(),
        include_dirs: Vec::new(),
        defines: Vec::new(),
        link_flags: Vec::new(),
        generator_vars: None,
        output_name: None,
    }
}

fn declared(name: &str, dependencies: Vec<StarProject>) -> StarProject {
    StarProject::new(name.to_owned(), format!("/{}", name), dependencies)
}

#[test]
fn test_01() {
    let decls = vec![
        static_lib("my_depend", "my_depend_lib", &["my_depend.cpp"], &[], &[]),
        static_lib("zstd", "zstd", &["zstd.c"], &[], &[]),
        static_lib("test_one", "mylib", &["mylib.cpp"], &[], &[]),
    ];
    let mut my_depend = declared("my_depend", Vec::new());
    my_depend.executables = vec![executable("my_depend", "my_depend_exe", &["main.cpp"], &[0])];
    my_depend.static_libraries = vec![PtrLinkTarget(0)];
    let mut zstd = declared("zstd", Vec::new());
    zstd.static_libraries = vec![PtrLinkTarget(1)];
    let mut root = declared("test_one", vec![my_depend, zstd]);
    root.executables = vec![executable("test_one", "myexe", &["main.cpp"], &[2, 0, 1])];
    root.static_libraries = vec![PtrLinkTarget(2)];
    let options = Some(ManifestOptions {
        c_standard: Some("17".to_owned()),
        cpp_standard: Some("17".to_owned()),
        position_independent_code: Some(true),
    });

    let (project, graph, global_options) =
        parse_project(options, root, &decls).expect("Could not parse project");
    assert_eq!(project.dependencies.len(), 2);

    assert_eq!(global_options.c_standard, Some("17".to_owned()));
    assert_eq!(global_options.cpp_standard, Some("17".to_owned()));
    assert_eq!(global_options.position_independent_code, Some(true));

    let my_depends =
        project.dependencies.iter().filter(|x| x.info.name == "my_depend").collect::<Vec<_>>();
    assert_eq!(my_depends.len(), 1);
    let my_depend = my_depends.first().unwrap();
    assert_eq!(my_depend.executables.len(), 1);
    assert_eq!(my_depend.static_libraries.len(), 1);

    let lib = match graph.get(*my_depend.static_libraries.first().unwrap()).unwrap() {
        LinkNode::Static(x) => x,
        _ => panic!("not a static library"),
    };
    assert_eq!(lib.name, "my_depend_lib");
    assert_eq!(lib.sources.cpp.len(), 1);
    assert_eq!(lib.sources.cpp[0].full, "/my_depend/my_depend.cpp");

    assert_eq!(project.info.name, "test_one");
    let test_one = project;
    assert_eq!(test_one.executables.len(), 1);
    assert_eq!(test_one.static_libraries.len(), 1);

    let exe = test_one.executables.first().unwrap();
    assert_eq!(exe.name, "myexe");
    assert_eq!(exe.sources.cpp.len(), 1);
    assert_eq!(exe.sources.cpp[0].full, "/test_one/main.cpp");
    assert_eq!(exe.links.len(), 3);
    assert_eq!(graph.get(exe.links[0]).unwrap().name(), "mylib");
    assert_eq!(graph.get(exe.links[1]).unwrap().name(), "my_depend_lib");
    assert_eq!(graph.get(exe.links[2]).unwrap().name(), "zstd");

    let lib = match graph.get(*test_one.static_libraries.first().unwrap()).unwrap() {
        LinkNode::Static(x) => x,
        _ => panic!("not a static library"),
    };
    assert_eq!(lib.name, "mylib");
    assert_eq!(lib.sources.cpp.len(), 1);
    assert_eq!(lib.sources.cpp[0].full, "/test_one/mylib.cpp");
}

#[test]
fn diamond_of_declarations_makes_each_library_once() {
    let decls = vec![
        static_lib("p", "d", &["d.cpp"], &[], &[]),
        static_lib("p", "b", &["b.cpp"], &[0], &[]),
        StarLinkTarget::Interface(StarIfaceLibrary {
            project: info("p"),
            name: "c".to_owned(),
            links: vec![PtrLinkTarget(0)],
            include_dirs: Vec::new(),
            defines: Vec::new(),
            link_flags: Vec::new(),
        }),
        StarLinkTarget::Object(StarObjectLibrary {
            project: info("p"),
            name: "o".to_owned(),
            sources: paths("p", &["o.c"]),
            link_private: vec![PtrLinkTarget(1)],
            link_public: vec![PtrLinkTarget(2)],
            include_dirs_public: Vec::new(),
            include_dirs_private: Vec::new(),
            defines_private: Vec::new(),
            defines_public: Vec::new(),
            link_flags_public: Vec::new(),
            generator_vars: None,
            output_name: None,
        }),
    ];
    let mut root = declared("p", Vec::new());
    root.executables = vec![executable("p", "a", &["a.cpp"], &[3, 1, 2])];
    root.static_libraries = vec![PtrLinkTarget(1), PtrLinkTarget(0)];
    root.object_libraries = vec![PtrLinkTarget(3)];
    root.interface_libraries = vec![PtrLinkTarget(2)];
    let (project, graph) = root.into_project(&decls).unwrap();
    assert_eq!(graph.len(), 4);
    let d = LinkPtr::Static(0);
    let b = LinkPtr::Static(1);
    let c = LinkPtr::Interface(2);
    let o = LinkPtr::Object(3);
    assert_eq!(project.executables[0].links, vec![o, b, c]);
    assert_eq!(project.static_libraries, vec![b, d]);
    assert_eq!(project.object_libraries, vec![o]);
    assert_eq!(project.interface_libraries, vec![c]);
    assert_eq!(graph.get(d).unwrap().name(), "d");
    assert_eq!(graph.public_links_recursive(o), vec![b, c, d]);
    match graph.get(o).unwrap() {
        LinkNode::Object(x) => {
            assert_eq!(x.sources.c[0].name, "o.c");
            assert_eq!(x.link_private, vec![b]);
            assert_eq!(x.link_public, vec![c]);
        }
        _ => panic!("not an object library"),
    }
}

#[test]
fn conversion_refusals() {
    let decls = vec![
        static_lib("p", "first", &["a.cpp"], &[], &[1]),
        static_lib("p", "second", &["b.cpp"], &[], &[]),
    ];
    let mut forward = declared("p", Vec::new());
    forward.static_libraries = vec![PtrLinkTarget(0)];
    assert_eq!(forward.into_project(&decls).unwrap_err(), "Link target is not declared");

    let decls = vec![static_lib("p", "lib", &["a.rs"], &[], &[])];
    let mut unknown = declared("p", Vec::new());
    unknown.static_libraries = vec![PtrLinkTarget(0)];
    assert_eq!(unknown.into_project(&decls).unwrap_err(), "Unknown source type: a.rs");

    let decls = vec![static_lib("p", "lib", &["a.c"], &[], &[])];
    let mut wrong = declared("p", Vec::new());
    wrong.object_libraries = vec![PtrLinkTarget(0)];
    assert_eq!(wrong.into_project(&decls).unwrap_err(), "\"lib\" is not an object library");

    let decls = vec![static_lib("p", "lib", &["a.c"], &[], &[])];
    let mut wrong = declared("p", Vec::new());
    wrong.interface_libraries = vec![PtrLinkTarget(0)];
    assert_eq!(wrong.into_project(&decls).unwrap_err(), "\"lib\" is not an interface library");

    let mut with_generator = match static_lib("p", "lib", &["a.c"], &[], &[]) {
        StarLinkTarget::Static(x) => x,
        _ => unreachable!(),
    };
    with_generator.generator_vars = Some("__gen_7".to_owned());
    let decls = vec![StarLinkTarget::Static(with_generator)];
    let mut missing = declared("p", Vec::new());
    missing.static_libraries = vec![PtrLinkTarget(0)];
    assert_eq!(
        missing.into_project(&decls).unwrap_err(),
        "Could not find generator id in map: __gen_7"
    );
    let mut found = declared("p", Vec::new());
    found.static_libraries = vec![PtrLinkTarget(0)];
    found.generator_names = vec![(
        "__gen_7".to_owned(),
        GeneratorVars {
            sources: Vec::new(),
            include_dirs: Vec::new(),
            defines: vec!["GEN".to_owned()],
            link_flags: Vec::new(),
        },
    )];
    let (_, graph) = found.into_project(&decls).unwrap();
    match graph.get(LinkPtr::Static(0)).unwrap() {
        LinkNode::Static(x) => assert_eq!(x.generator_vars.as_ref().unwrap().defines, vec!["GEN"]),
        _ => panic!("not a static library"),
    }
    let (_, _, defaults) = parse_project(None, declared("p", Vec::new()), &Vec::new()).unwrap();
    assert_eq!(defaults.c_standard, None);
    assert_eq!(defaults.position_independent_code, None);
}

#[test]
fn cache_remembers_by_identity() {
    let mut cache = StarLinkTargetCache::new();
    let key = PtrLinkTarget(5);
    assert_eq!(cache.get(&key), None);
    cache.insert_object(key, 9);
    assert_eq!(cache.get_static(&key), None);
    assert_eq!(cache.get_object(&key), Some(9));
    assert_eq!(cache.get(&key), Some(LinkPtr::Object(9)));
    cache.insert_static(PtrLinkTarget(6), 1);
    cache.insert_interface(PtrLinkTarget(7), 2);
    assert_eq!(cache.get(&PtrLinkTarget(6)), Some(LinkPtr::Static(1)));
    assert_eq!(cache.get_interface(&PtrLinkTarget(7)), Some(2));
    assert_eq!(cache.get(&PtrLinkTarget(7)), Some(LinkPtr::Interface(2)));
    assert_eq!(cache.get(&PtrLinkTarget(8)), None);
    cache.tidiness();
    // What is found first for a declaration stays what is found for it.
    cache.insert_interface(PtrLinkTarget(6), 4);
    assert_eq!(cache.get(&PtrLinkTarget(6)), Some(LinkPtr::Static(1)));
    assert_eq!(cache.get_interface(&PtrLinkTarget(6)), Some(4));
}

#[test]
fn an_unknown_source_behind_a_link_is_refused() {
    let decls = vec![
        static_lib("p", "good", &["g.cpp"], &[], &[]),
        static_lib("p", "bad", &["b.rs"], &[], &[]),
        static_lib("p", "top", &["t.cpp"], &[0], &[1]),
    ];
    let mut root = declared("p", Vec::new());
    root.static_libraries = vec![PtrLinkTarget(2)];
    assert_eq!(root.into_project(&decls).unwrap_err(), "Unknown source type: b.rs");
}

#[test]
fn declared_targets_are_shown() {
    let mut first = match static_lib("p", "first", &["a.cpp", "b.cpp"], &[], &[]) {
        StarLinkTarget::Static(x) => x,
        _ => unreachable!(),
    };
    first.include_dirs_private = paths("p", &["src"]);
    first.include_dirs_public = paths("p", &["inc", "gen"]);
    first.defines_public = vec!["FIRST".to_owned()];
    first.generator_vars = Some("__gen_0".to_owned());
    let object = StarObjectLibrary {
        project: info("p"),
        name: "objects".to_owned(),
        sources: paths("p", &["o.c"]),
        link_private: vec![PtrLinkTarget(0)],
        link_public: Vec::new(),
        include_dirs_public: Vec::new(),
        include_dirs_private: paths("p", &["priv"]),
        defines_private: Vec::new(),
        defines_public: Vec::new(),
        link_flags_public: vec!["-lm".to_owned()],
        generator_vars: None,
        output_name: None,
    };
    let iface = StarIfaceLibrary {
        project: info("p"),
        name: "all".to_owned(),
        links: vec![PtrLinkTarget(0), PtrLinkTarget(1), PtrLinkTarget(9)],
        include_dirs: paths("p", &["api"]),
        defines: Vec::new(),
        link_flags: Vec::new(),
    };
    let decls = vec![
        StarLinkTarget::Static(first),
        StarLinkTarget::Object(object),
        StarLinkTarget::Interface(iface),
    ];
    assert_eq!(
        decls[0].describe(&decls),
        "StaticLibrary{\n  name: \"first\",\n  sources: [\n      \"a.cpp\",\n      \"b.cpp\",\n   ],\n  link_private: [],\n  link_public: [],\n  include_dirs_public: [\n      \"inc\",\n      \"gen\",\n   ],\n  include_dirs_private: [\"src\"],\n  defines_private: [],\n  defines_public: [\"FIRST\"],\n  link_flags_public: [],\n  generator_vars: (generated),\n}"
    );
    assert_eq!(
        decls[1].describe(&decls),
        "ObjectLibrary{\n  name: \"objects\",\n  sources: [\"o.c\"],\n  link_private: [first],\n  link_public: [],\n  include_dirs_public: [],\n  include_dirs_private: [\"priv\"],\n  defines_public: [],\n  link_flags_public: [\"-lm\"],\n}"
    );
    assert_eq!(
        decls[2].describe(&decls),
        "InterfaceLibrary {\n  name: \"all\",\n  links: [\n    first,\n    objects,\n  ],\n  include_dirs: [\"api\"],\n  defines: [],\n  link_flags: [],\n}"
    );
    let mut program = executable("p", "tool", &["main.cpp"], &[2]);
    program.defines = vec!["A".to_owned(), "B".to_owned()];
    assert_eq!(
        program.describe(&decls),
        "Executable {\n  name: \"tool\",\n  sources: [\"main.cpp\"],\n  links: [all],\n  include_dirs: [],\n  defines: [\n      \"A\",\n      \"B\",\n   ],\n  link_flags: [],\n  generator_vars: None,\n}"
    );
    assert_eq!(StarLinkTarget::public_includes_recursive(&decls, 0), vec!["src"]);
    assert_eq!(StarLinkTarget::public_includes_recursive(&decls, 1), vec!["priv"]);
    assert_eq!(StarLinkTarget::public_includes_recursive(&decls, 2), vec!["api", "src", "priv"]);
    assert_eq!(StarLinkTarget::public_includes_recursive(&decls, 3), Vec::<String>::new());
}

#[test]
fn graph_holds_what_was_reached_and_nothing_else() {
    let decls = vec![
        static_lib("p", "used", &["u.cpp"], &[], &[]),
        static_lib("p", "unused", &["n.cpp"], &[], &[]),
        static_lib("p", "top", &["t.cpp"], &[0], &[0]),
    ];
    let mut root = declared("p", Vec::new());
    root.executables = vec![executable("p", "a", &["a.cpp"], &[2, 0, 2])];
    root.static_libraries = vec![PtrLinkTarget(2), PtrLinkTarget(0)];
    let (project, graph) = root.into_project(&decls).unwrap();
    assert_eq!(graph.len(), 2);
    assert_eq!(graph.get(LinkPtr::Static(0)).unwrap().name(), "used");
    assert_eq!(graph.get(LinkPtr::Static(1)).unwrap().name(), "top");
    assert_eq!(
        project.executables[0].links,
        vec![LinkPtr::Static(1), LinkPtr::Static(0), LinkPtr::Static(1)]
    );
    assert_eq!(project.static_libraries, vec![LinkPtr::Static(1), LinkPtr::Static(0)]);
}

#[test]
fn generator_functions_are_told_apart_by_name() {
    let vars = |define: &str| GeneratorVars {
        sources: Vec::new(),
        include_dirs: Vec::new(),
        defines: vec![define.to_owned()],
        link_flags: Vec::new(),
    };
    let mut project = declared("p", Vec::new());
    assert!(project.is_in_order());
    project.generator_names = vec![("__gen_0".to_owned(), vars("A")), ("__gen_1".to_owned(), vars("B"))];
    assert!(project.is_in_order());
    project.generator_names.push(("__gen_0".to_owned(), vars("C")));
    assert!(!project.is_in_order());
    let outer = declared("q", vec![project]);
    assert!(!outer.is_in_order());
    // Where a name stands twice, the first of that name counts.
    let mut with_generator = match static_lib("q", "lib", &["a.c"], &[], &[]) {
        StarLinkTarget::Static(x) => x,
        _ => unreachable!(),
    };
    with_generator.generator_vars = Some("__gen_0".to_owned());
    let decls = vec![StarLinkTarget::Static(with_generator)];
    let mut twice = declared("q", Vec::new());
    twice.static_libraries = vec![PtrLinkTarget(0)];
    twice.generator_names = vec![("__gen_0".to_owned(), vars("A")), ("__gen_0".to_owned(), vars("C"))];
    let (_, graph) = twice.into_project(&decls).unwrap();
    match graph.get(LinkPtr::Static(0)).unwrap() {
        LinkNode::Static(x) => assert_eq!(x.generator_vars.as_ref().unwrap().defines, vec!["A"]),
        _ => panic!("not a static library"),
    }
}
