//! Where the inputs and outputs of a build lie.

use vstd::prelude::*;
use crate::misc::{join_path, spec_join_path, spec_strip_verbatim, strip_verbatim};

verus! {

/// Where a source lies: its own path, taken from the project's root where
/// it does not start at a root itself.
pub open spec fn spec_input_path(src: Seq<char>, project_path: Seq<char>) -> Seq<char> {
    spec_strip_verbatim(spec_join_path(project_path, src))
}

/// Where the product `src` with the extension `ext` of a project is put.
pub open spec fn spec_output_path(
    build_dir: Seq<char>,
    project_name: Seq<char>,
    src: Seq<char>,
    ext: Seq<char>,
) -> Seq<char> {
    spec_strip_verbatim(spec_join_path(spec_join_path(build_dir, project_name), src + ext))
}

/// Where the product `src` with the extension `ext` of one target of a
/// project is put: in a directory of the target's own, so that sources of
/// the same name in two targets do not collide.
pub open spec fn spec_output_subfolder_path(
    build_dir: Seq<char>,
    project_name: Seq<char>,
    subfolder: Seq<char>,
    src: Seq<char>,
    ext: Seq<char>,
) -> Seq<char> {
    spec_strip_verbatim(
        spec_join_path(
            spec_join_path(spec_join_path(build_dir, project_name), subfolder + ".dir"@),
            src + ext,
        ),
    )
}

/// Where a source lies.
pub fn input_path(src: &str, project_path: &str) -> (r: String)
    ensures
        r@ == spec_input_path(src@, project_path@),
{
    let joined = join_path(project_path, src);
    strip_verbatim(joined.as_str())
}

/// Where the product `src` with the extension `ext` of a project is put.
pub fn output_path(build_dir: &str, project_name: &str, src: &str, ext: &str) -> (r: String)
    ensures
        r@ == spec_output_path(build_dir@, project_name@, src@, ext@),
{
    let dir = join_path(build_dir, project_name);
    let mut file: String = src.to_owned();
    file.append(ext);
    let joined = join_path(dir.as_str(), file.as_str());
    strip_verbatim(joined.as_str())
}

/// Where the product `src` with the extension `ext` of one target of a
/// project is put.
pub fn output_subfolder_path(
    build_dir: &str,
    project_name: &str,
    subfolder: &str,
    src: &str,
    ext: &str,
) -> (r: String)
    ensures
        r@ == spec_output_subfolder_path(build_dir@, project_name@, subfolder@, src@, ext@),
{
    let dir = join_path(build_dir, project_name);
    let mut sub: String = subfolder.to_owned();
    sub.append(".dir");
    let target_dir = join_path(dir.as_str(), sub.as_str());
    let mut file: String = src.to_owned();
    file.append(ext);
    let joined = join_path(target_dir.as_str(), file.as_str());
    strip_verbatim(joined.as_str())
}

} // verus!
