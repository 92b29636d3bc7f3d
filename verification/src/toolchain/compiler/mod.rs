//! The tools of a toolchain and how each is told apart from its banner.

pub mod clang;
pub mod detect;
pub mod emscripten;
pub mod gcc;
pub mod identify;
pub mod nasm;

use vstd::prelude::*;
use crate::text::{str_eq, texts};

verus! {

/// The text of an optional string.
pub open spec fn option_text(o: Option<String>) -> Option<Seq<char>> {
    match o {
        Some(s) => Some(s@),
        None => None,
    }
}

/// The texts of a flag or of the message that refuses it.
pub open spec fn result_text(r: Result<String, String>) -> Result<Seq<char>, Seq<char>> {
    match r {
        Ok(s) => Ok(s@),
        Err(e) => Err(e@),
    }
}

/// An assembler.
pub trait Assembler {
    /// The family the assembler belongs to.
    open spec fn spec_id(&self) -> Seq<char> {
        arbitrary()
    }

    /// The version the assembler reports.
    open spec fn spec_version(&self) -> Seq<char> {
        arbitrary()
    }

    /// The command line that starts the assembler.
    open spec fn spec_cmd(&self) -> Seq<Seq<char>> {
        arbitrary()
    }

    /// The flag that names the output file.
    open spec fn spec_out_flag(&self) -> Seq<char> {
        arbitrary()
    }

    /// The flags that make the assembler write, next to `out_file`, the
    /// list of files that `out_file` depends on into `dep_file`.
    open spec fn spec_depfile_flags(&self, out_file: Seq<char>, dep_file: Seq<char>) -> Seq<Seq<char>> {
        arbitrary()
    }

    fn id(&self) -> (r: String)
        ensures
            r@ == self.spec_id(),
    ;

    fn version(&self) -> (r: String)
        ensures
            r@ == self.spec_version(),
    ;

    fn cmd(&self) -> (r: Vec<String>)
        ensures
            texts(r@) == self.spec_cmd(),
    ;

    fn out_flag(&self) -> (r: String)
        ensures
            r@ == self.spec_out_flag(),
    ;

    fn depfile_flags(&self, out_file: &str, dep_file: &str) -> (r: Vec<String>)
        ensures
            texts(r@) == self.spec_depfile_flags(out_file@, dep_file@),
    ;
}

/// A compiler for C and C++.
pub trait Compiler {
    /// The family the compiler belongs to.
    open spec fn spec_id(&self) -> Seq<char> {
        arbitrary()
    }

    /// The version the compiler reports.
    open spec fn spec_version(&self) -> Seq<char> {
        arbitrary()
    }

    /// The target triple the compiler builds for.
    open spec fn spec_target(&self) -> Seq<char> {
        arbitrary()
    }

    /// The command line that starts the compiler.
    open spec fn spec_cmd(&self) -> Seq<Seq<char>> {
        arbitrary()
    }

    /// The flag that names the output file.
    open spec fn spec_out_flag(&self) -> Seq<char> {
        arbitrary()
    }

    /// The flags that make the compiler write, next to `out_file`, the
    /// list of files that `out_file` depends on into `dep_file`.
    open spec fn spec_depfile_flags(&self, out_file: Seq<char>, dep_file: Seq<char>) -> Seq<Seq<char>> {
        arbitrary()
    }

    /// The flag that selects a standard of C, or the message that refuses
    /// a standard the compiler does not know.
    open spec fn spec_c_std_flag(&self, std: Seq<char>) -> Result<Seq<char>, Seq<char>> {
        arbitrary()
    }

    /// The flag that selects a standard of C++, or the message that
    /// refuses a standard the compiler does not know.
    open spec fn spec_cpp_std_flag(&self, std: Seq<char>) -> Result<Seq<char>, Seq<char>> {
        arbitrary()
    }

    /// The flag for position-independent code in a library; `None` where
    /// the target has no use for one.
    open spec fn spec_position_independent_code_flag(&self) -> Option<Seq<char>> {
        arbitrary()
    }

    /// The flag for position-independent code in a program; `None` where
    /// the target has no use for one.
    open spec fn spec_position_independent_executable_flag(&self) -> Option<Seq<char>> {
        arbitrary()
    }

    fn id(&self) -> (r: String)
        ensures
            r@ == self.spec_id(),
    ;

    fn version(&self) -> (r: String)
        ensures
            r@ == self.spec_version(),
    ;

    fn target(&self) -> (r: String)
        ensures
            r@ == self.spec_target(),
    ;

    fn cmd(&self) -> (r: Vec<String>)
        ensures
            texts(r@) == self.spec_cmd(),
    ;

    fn out_flag(&self) -> (r: String)
        ensures
            r@ == self.spec_out_flag(),
    ;

    fn depfile_flags(&self, out_file: &str, dep_file: &str) -> (r: Vec<String>)
        ensures
            texts(r@) == self.spec_depfile_flags(out_file@, dep_file@),
    ;

    fn c_std_flag(&self, std: &str) -> (r: Result<String, String>)
        ensures
            result_text(r) == self.spec_c_std_flag(std@),
    ;

    fn cpp_std_flag(&self, std: &str) -> (r: Result<String, String>)
        ensures
            result_text(r) == self.spec_cpp_std_flag(std@),
    ;

    fn position_independent_code_flag(&self) -> (r: Option<String>)
        ensures
            option_text(r) == self.spec_position_independent_code_flag(),
    ;

    fn position_independent_executable_flag(&self) -> (r: Option<String>)
        ensures
            option_text(r) == self.spec_position_independent_executable_flag(),
    ;
}

/// A tool that puts object files into an archive.
pub trait StaticLinker {
    /// The command line that starts the tool.
    open spec fn spec_cmd(&self) -> Seq<Seq<char>> {
        arbitrary()
    }

    fn cmd(&self) -> (r: Vec<String>)
        ensures
            texts(r@) == self.spec_cmd(),
    ;
}

/// A tool that links programs.
pub trait ExeLinker {
    /// The command line that starts the linker.
    open spec fn spec_cmd(&self) -> Seq<Seq<char>> {
        arbitrary()
    }

    /// The flag that makes the linked program position independent;
    /// `None` where the target has no use for one.
    open spec fn spec_position_independent_executable_flag(&self) -> Option<Seq<char>> {
        arbitrary()
    }

    fn cmd(&self) -> (r: Vec<String>)
        ensures
            texts(r@) == self.spec_cmd(),
    ;

    fn position_independent_executable_flag(&self) -> (r: Option<String>)
        ensures
            option_text(r) == self.spec_position_independent_executable_flag(),
    ;
}

/// A command line standing for the tool it starts.
impl StaticLinker for Vec<String> {
    open spec fn spec_cmd(&self) -> Seq<Seq<char>> {
        texts(self@)
    }

    fn cmd(&self) -> (r: Vec<String>) {
        crate::unique::clone_strings(self)
    }
}

/// The flag by which compilers in the tradition of gcc select a standard
/// of C.
pub open spec fn spec_gnu_c_std_flag(std: Seq<char>) -> Result<Seq<char>, Seq<char>> {
    if std == "11"@ {
        Ok("-std=c11"@)
    } else if std == "17"@ {
        Ok("-std=c17"@)
    } else {
        Err(
            "C standard not supported by compiler: "@ + std
                + ". Accepted values are \"17\", \"11\""@,
        )
    }
}

/// The flag by which compilers in the tradition of gcc select a standard
/// of C++.
pub open spec fn spec_gnu_cpp_std_flag(std: Seq<char>) -> Result<Seq<char>, Seq<char>> {
    if std == "11"@ {
        Ok("-std=c++11"@)
    } else if std == "14"@ {
        Ok("-std=c++14"@)
    } else if std == "17"@ {
        Ok("-std=c++17"@)
    } else if std == "20"@ {
        Ok("-std=c++20"@)
    } else if std == "23"@ {
        Ok("-std=c++23"@)
    } else {
        Err(
            "C++ standard not supported by compiler: "@ + std
                + ". Accepted values are \"23\", \"20\", \"17\", \"14\", \"11\""@,
        )
    }
}

/// The flags by which compilers in the tradition of gcc are told to write
/// a list of dependencies.
pub open spec fn spec_gnu_depfile_flags(out_file: Seq<char>, dep_file: Seq<char>) -> Seq<
    Seq<char>,
> {
    seq!["-MD"@, "-MT"@, out_file, "-MF"@, dep_file]
}

/// The flag by which compilers in the tradition of gcc select a standard
/// of C.
pub fn gnu_c_std_flag(std: &str) -> (r: Result<String, String>)
    ensures
        result_text(r) == spec_gnu_c_std_flag(std@),
{
    if str_eq(std, "11") {
        Ok("-std=c11".to_owned())
    } else if str_eq(std, "17") {
        Ok("-std=c17".to_owned())
    } else {
        let mut msg = "C standard not supported by compiler: ".to_owned();
        msg.append(std);
        msg.append(". Accepted values are \"17\", \"11\"");
        Err(msg)
    }
}

/// The flag by which compilers in the tradition of gcc select a standard
/// of C++.
pub fn gnu_cpp_std_flag(std: &str) -> (r: Result<String, String>)
    ensures
        result_text(r) == spec_gnu_cpp_std_flag(std@),
{
    if str_eq(std, "11") {
        Ok("-std=c++11".to_owned())
    } else if str_eq(std, "14") {
        Ok("-std=c++14".to_owned())
    } else if str_eq(std, "17") {
        Ok("-std=c++17".to_owned())
    } else if str_eq(std, "20") {
        Ok("-std=c++20".to_owned())
    } else if str_eq(std, "23") {
        Ok("-std=c++23".to_owned())
    } else {
        let mut msg = "C++ standard not supported by compiler: ".to_owned();
        msg.append(std);
        msg.append(". Accepted values are \"23\", \"20\", \"17\", \"14\", \"11\"");
        Err(msg)
    }
}

/// The flags by which compilers in the tradition of gcc are told to write
/// a list of dependencies.
pub fn gnu_depfile_flags(out_file: &str, dep_file: &str) -> (r: Vec<String>)
    ensures
        texts(r@) == spec_gnu_depfile_flags(out_file@, dep_file@),
{
    let mut v: Vec<String> = Vec::new();
    v.push("-MD".to_owned());
    v.push("-MT".to_owned());
    v.push(out_file.to_owned());
    v.push("-MF".to_owned());
    v.push(dep_file.to_owned());
    assert(texts(v@) =~= spec_gnu_depfile_flags(out_file@, dep_file@));
    v
}

} // verus!
