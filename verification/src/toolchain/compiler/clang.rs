//! clang.

use vstd::prelude::*;
use super::{
    gnu_c_std_flag, gnu_cpp_std_flag, gnu_depfile_flags, spec_gnu_c_std_flag,
    spec_gnu_cpp_std_flag, spec_gnu_depfile_flags, Compiler, ExeLinker,
};
use crate::text::texts;
use crate::unique::clone_strings;

verus! {

/// clang, as compiler and as linker of programs.
#[derive(Debug)]
pub struct Clang {
    pub cmd: Vec<String>,
    pub version: String,
    pub target: String,
    pub target_windows: bool,
}

/// The mathematical value of [`Clang`].
pub struct ClangView {
    pub cmd: Seq<Seq<char>>,
    pub version: Seq<char>,
    pub target: Seq<char>,
    pub target_windows: bool,
}

impl View for Clang {
    type V = ClangView;

    open spec fn view(&self) -> ClangView {
        ClangView {
            cmd: texts(self.cmd@),
            version: self.version@,
            target: self.target@,
            target_windows: self.target_windows,
        }
    }
}

impl Compiler for Clang {
    open spec fn spec_id(&self) -> Seq<char> {
        "clang"@
    }

    open spec fn spec_version(&self) -> Seq<char> {
        self.version@
    }

    open spec fn spec_target(&self) -> Seq<char> {
        self.target@
    }

    open spec fn spec_cmd(&self) -> Seq<Seq<char>> {
        texts(self.cmd@)
    }

    open spec fn spec_out_flag(&self) -> Seq<char> {
        "-o"@
    }

    open spec fn spec_depfile_flags(&self, out_file: Seq<char>, dep_file: Seq<char>) -> Seq<
        Seq<char>,
    > {
        spec_gnu_depfile_flags(out_file, dep_file)
    }

    open spec fn spec_c_std_flag(&self, std: Seq<char>) -> Result<Seq<char>, Seq<char>> {
        spec_gnu_c_std_flag(std)
    }

    open spec fn spec_cpp_std_flag(&self, std: Seq<char>) -> Result<Seq<char>, Seq<char>> {
        spec_gnu_cpp_std_flag(std)
    }

    open spec fn spec_position_independent_code_flag(&self) -> Option<Seq<char>> {
        if self.target_windows {
            None
        } else {
            Some("-fPIC"@)
        }
    }

    open spec fn spec_position_independent_executable_flag(&self) -> Option<Seq<char>> {
        if self.target_windows {
            None
        } else {
            Some("-fPIE"@)
        }
    }

    fn id(&self) -> (r: String) {
        "clang".to_owned()
    }

    fn version(&self) -> (r: String) {
        self.version.clone()
    }

    fn target(&self) -> (r: String) {
        self.target.clone()
    }

    fn cmd(&self) -> (r: Vec<String>) {
        clone_strings(&self.cmd)
    }

    fn out_flag(&self) -> (r: String) {
        "-o".to_owned()
    }

    fn depfile_flags(&self, out_file: &str, dep_file: &str) -> (r: Vec<String>) {
        gnu_depfile_flags(out_file, dep_file)
    }

    fn c_std_flag(&self, std: &str) -> (r: Result<String, String>) {
        gnu_c_std_flag(std)
    }

    fn cpp_std_flag(&self, std: &str) -> (r: Result<String, String>) {
        gnu_cpp_std_flag(std)
    }

    fn position_independent_code_flag(&self) -> (r: Option<String>) {
        match self.target_windows {
            true => None,
            false => Some("-fPIC".to_owned()),
        }
    }

    fn position_independent_executable_flag(&self) -> (r: Option<String>) {
        match self.target_windows {
            true => None,
            false => Some("-fPIE".to_owned()),
        }
    }
}

impl ExeLinker for Clang {
    open spec fn spec_cmd(&self) -> Seq<Seq<char>> {
        texts(self.cmd@)
    }

    open spec fn spec_position_independent_executable_flag(&self) -> Option<Seq<char>> {
        if self.target_windows {
            None
        } else {
            Some("-pie"@)
        }
    }

    fn cmd(&self) -> (r: Vec<String>) {
        clone_strings(&self.cmd)
    }

    fn position_independent_executable_flag(&self) -> (r: Option<String>) {
        match self.target_windows {
            true => None,
            false => Some("-pie".to_owned()),
        }
    }
}

} // verus!
