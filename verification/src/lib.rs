//! A meta-build tool: a declared project of targets is turned into the build
//! scripts of a native build system.

pub mod cli;
pub mod executable;
pub mod generator;
pub mod generator_vars;
pub mod graph;
pub mod interface_library;
pub mod link_type;
pub mod misc;
pub mod object_library;
pub mod project;
pub mod propagation;
pub mod registry;
pub mod remembered;
pub mod starlark_fmt;
pub mod starlark_global;
pub mod starlark_link_target;
pub mod starlark_project;
pub mod starlark_reached;
pub mod static_library;
pub mod target;
pub mod text;
pub mod toolchain;
pub mod unique;

use vstd::prelude::*;
use graph::TargetGraph;
use project::{project_fits, Project};
use remembered::all_remembered;
use starlark_link_target::StarLinkTarget;
use starlark_project::{
    made_vars, project_agrees, project_made, well_kept, Conversion, StarProject,
};

verus! {

/// The options that hold for every target of a run.
#[derive(Clone, Debug)]
pub struct GlobalOptions {
    pub c_standard: Option<String>,
    pub cpp_standard: Option<String>,
    pub position_independent_code: Option<bool>,
}

/// The options as the manifest of a project declares them.
#[derive(Clone, Debug)]
pub struct ManifestOptions {
    pub c_standard: Option<String>,
    pub cpp_standard: Option<String>,
    pub position_independent_code: Option<bool>,
}

/// The options of a run: those that the manifest declares, or none where
/// it declares none.
pub open spec fn spec_global_options(options: Option<ManifestOptions>) -> GlobalOptions {
    match options {
        Some(o) => GlobalOptions {
            c_standard: o.c_standard,
            cpp_standard: o.cpp_standard,
            position_independent_code: o.position_independent_code,
        },
        None => GlobalOptions {
            c_standard: None,
            cpp_standard: None,
            position_independent_code: None,
        },
    }
}

/// The options of a run: those that the manifest declares, or none where
/// it declares none.
pub fn global_options(options: Option<ManifestOptions>) -> (r: GlobalOptions)
    ensures
        r == spec_global_options(options),
{
    match options {
        Some(o) => GlobalOptions {
            c_standard: o.c_standard,
            cpp_standard: o.cpp_standard,
            position_independent_code: o.position_independent_code,
        },
        None => GlobalOptions {
            c_standard: None,
            cpp_standard: None,
            position_independent_code: None,
        },
    }
}

/// Turns what was read of a project into what the generators take: the
/// options of the run from the options of the manifest, and the project
/// of targets with the graph of its libraries from the declared project.
/// Every declared library that is reached becomes exactly one library of
/// the graph, and the graph holds no other.
pub fn parse_project(
    options: Option<ManifestOptions>,
    declared: StarProject,
    decls: &Vec<StarLinkTarget>,
) -> (r: Result<(Project, TargetGraph, GlobalOptions), String>)
    ensures
        match project_made(decls@, declared, Conversion::start()) {
            Ok(c) => r matches Ok((made, graph, global_options)) && global_options
                == spec_global_options(options) && graph@.len() == c.next && made_vars(graph@)
                == c.vars && well_kept(
                decls@,
                c.cache,
                graph@,
            ) && project_agrees(c.cache, declared, made) && project_fits(graph@, made)
                && all_remembered(c),
            Err(e) => r matches Err(m) && m@ == e,
        },
{
    let global_options = self::global_options(options);
    match declared.into_project(decls) {
        Ok((made, graph)) => Ok((made, graph, global_options)),
        Err(e) => Err(e),
    }
}

} // verus!
