//! gcc.

use vstd::prelude::*;
use super::{
    gnu_c_std_flag, gnu_cpp_std_flag, gnu_depfile_flags, spec_gnu_c_std_flag,
    spec_gnu_cpp_std_flag, spec_gnu_depfile_flags, Compiler, ExeLinker,
};
use crate::text::texts;
use crate::unique::clone_strings;

verus! {

/// gcc, as compiler and as linker of programs.
#[derive(Debug)]
pub struct Gcc {
    pub cmd: Vec<String>,
    pub version: String,
    pub target: String,
}

/// The mathematical value of [`Gcc`].
pub struct GccView {
    pub cmd: Seq<Seq<char>>,
    pub version: Seq<char>,
    pub target: Seq<char>,
}

impl View for Gcc {
    type V = GccView;

    open spec fn view(&self) -> GccView {
        GccView { cmd: texts(self.cmd@), version: self.version@, target: self.target@ }
    }
}

impl Compiler for Gcc {
    open spec fn spec_id(&self) -> Seq<char> {
        "gcc"@
    }

    open spec fn spec_version(&self) -> Seq<char> {
        self.version@
    }

    open spec fn spec_target(&self) -> Seq<char> {
        self.target@
    }

    open spec fn spec_cmd(&self) -> Seq<Seq<char>> {
        texts(self.cmd@)
    }

    open spec fn spec_out_flag(&self) -> Seq<char> {
        "-o"@
    }

    open spec fn spec_depfile_flags(&self, out_file: Seq<char>, dep_file: Seq<char>) -> Seq<
        Seq<char>,
    > {
        spec_gnu_depfile_flags(out_file, dep_file)
    }

    open spec fn spec_c_std_flag(&self, std: Seq<char>) -> Result<Seq<char>, Seq<char>> {
        spec_gnu_c_std_flag(std)
    }

    open spec fn spec_cpp_std_flag(&self, std: Seq<char>) -> Result<Seq<char>, Seq<char>> {
        spec_gnu_cpp_std_flag(std)
    }

    open spec fn spec_position_independent_code_flag(&self) -> Option<Seq<char>> {
        Some("-fPIC"@)
    }

    open spec fn spec_position_independent_executable_flag(&self) -> Option<Seq<char>> {
        Some("-fPIE"@)
    }

    fn id(&self) -> (r: String) {
        "gcc".to_owned()
    }

    fn version(&self) -> (r: String) {
        self.version.clone()
    }

    fn target(&self) -> (r: String) {
        self.target.clone()
    }

    fn cmd(&self) -> (r: Vec<String>) {
        clone_strings(&self.cmd)
    }

    fn out_flag(&self) -> (r: String) {
        "-o".to_owned()
    }

    fn depfile_flags(&self, out_file: &str, dep_file: &str) -> (r: Vec<String>) {
        gnu_depfile_flags(out_file, dep_file)
    }

    fn c_std_flag(&self, std: &str) -> (r: Result<String, String>) {
        gnu_c_std_flag(std)
    }

    fn cpp_std_flag(&self, std: &str) -> (r: Result<String, String>) {
        gnu_cpp_std_flag(std)
    }

    fn position_independent_code_flag(&self) -> (r: Option<String>) {
        Some("-fPIC".to_owned())
    }

    fn position_independent_executable_flag(&self) -> (r: Option<String>) {
        Some("-fPIE".to_owned())
    }
}

impl ExeLinker for Gcc {
    open spec fn spec_cmd(&self) -> Seq<Seq<char>> {
        texts(self.cmd@)
    }

    open spec fn spec_position_independent_executable_flag(&self) -> Option<Seq<char>> {
        Some("-pie"@)
    }

    fn cmd(&self) -> (r: Vec<String>) {
        clone_strings(&self.cmd)
    }

    fn position_independent_executable_flag(&self) -> (r: Option<String>) {
        Some("-pie".to_owned())
    }
}

} // verus!
