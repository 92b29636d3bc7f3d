//! The Ninja generator.

pub mod edge;
pub mod linking;
pub mod lossless;
pub mod paths;
pub mod program;
pub mod reached;
pub mod rule;
pub mod sources;
pub mod targets;
pub mod variables;
pub mod walk;

use vstd::prelude::*;
use crate::generator::TargetPlatform;
use crate::toolchain::{Profile, Toolchain};
use crate::GlobalOptions;

verus! {

/// What a run of the generator is given besides the project.
pub struct GeneratorOpts {
    pub build_dir: String,
    pub toolchain: Toolchain,
    pub profile: Profile,
    pub global_opts: GlobalOptions,
    pub target_platform: TargetPlatform,
}

} // verus!
