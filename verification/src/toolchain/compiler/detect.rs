//! Telling a tool apart from the outcome of asking it for its version.

use vstd::prelude::*;
use super::clang::{Clang, ClangView};
use super::emscripten::{Emscripten, EmscriptenView};
use super::gcc::{Gcc, GccView};
use super::identify::{
    find_version, identify_clang, identify_emscripten, identify_gcc, lemma_starts_is_held, lines_of,
    nasm_id, spec_find_version, spec_identify_clang, spec_identify_emscripten, spec_identify_gcc,
    split_lines,
};
use super::nasm::{Nasm, NasmView};
use super::{
    spec_gnu_c_std_flag, spec_gnu_cpp_std_flag, spec_gnu_depfile_flags, Compiler, ExeLinker,
};
use crate::text::{starts_with, str_starts_with, texts};

verus! {

/// What a tool is asked to be.
#[derive(Clone, Copy, Debug, PartialEq, Eq, Structural)]
pub enum Role {
    Compiler,
    Linker,
    Assembler,
}

impl Role {
    /// The name of the role at the beginning of a sentence.
    pub open spec fn spec_title(self) -> Seq<char> {
        match self {
            Role::Compiler => "Compiler"@,
            Role::Linker => "Linker"@,
            Role::Assembler => "Assembler"@,
        }
    }

    /// The name of the role within a sentence.
    pub open spec fn spec_noun(self) -> Seq<char> {
        match self {
            Role::Compiler => "compiler"@,
            Role::Linker => "linker"@,
            Role::Assembler => "assembler"@,
        }
    }

    /// The name of the role at the beginning of a sentence.
    pub fn title(&self) -> (r: &'static str)
        ensures
            r@ == self.spec_title(),
    {
        match self {
            Role::Compiler => "Compiler",
            Role::Linker => "Linker",
            Role::Assembler => "Assembler",
        }
    }

    /// The name of the role within a sentence.
    pub fn noun(&self) -> (r: &'static str)
        ensures
            r@ == self.spec_noun(),
    {
        match self {
            Role::Compiler => "compiler",
            Role::Linker => "linker",
            Role::Assembler => "assembler",
        }
    }
}

/// What came of starting a tool with the flag that makes it print its
/// version.
#[derive(Clone, Debug)]
pub enum ProbeOutcome {
    /// The tool could not be started; the reason is given.
    Failed(String),
    /// The tool ran to its end.
    Exited { success: bool, status: String, stdout: String, stderr: String },
}

impl ProbeOutcome {
    /// A copy of the outcome.
    pub fn duplicate(&self) -> (r: Self)
        ensures
            r == *self,
    {
        match self {
            ProbeOutcome::Failed(e) => ProbeOutcome::Failed(e.clone()),
            ProbeOutcome::Exited { success, status, stdout, stderr } => ProbeOutcome::Exited {
                success: *success,
                status: status.clone(),
                stdout: stdout.clone(),
                stderr: stderr.clone(),
            },
        }
    }
}

/// The text in which a tool says what it is. A command without words is
/// refused, and so is a tool that could not be started or did not end
/// well. Compilers and linkers speak on the error stream; of an assembler
/// both streams are read.
pub open spec fn probe_text(role: Role, cmd: Seq<Seq<char>>, outcome: ProbeOutcome) -> Result<
    Seq<char>,
    Seq<char>,
> {
    if cmd.len() == 0 {
        Err(role.spec_title() + " command is empty"@)
    } else {
        match outcome {
            ProbeOutcome::Failed(e) => Err(
                "Error executing "@ + role.spec_noun() + " command \""@ + cmd[0] + " -v\": "@
                    + e@,
            ),
            ProbeOutcome::Exited { success, status, stdout, stderr } => if !success {
                Err(
                    role.spec_title() + " command returned non-success exit code: \""@ + cmd[0]
                        + " -v\": "@ + status@,
                )
            } else if role == Role::Assembler {
                Ok(stdout@ + stderr@)
            } else {
                Ok(stderr@)
            },
        }
    }
}

/// The message for a tool that said nothing.
pub open spec fn empty_output_message(role: Role) -> Seq<char> {
    role.spec_title() + " command output empty. Could not identify "@ + role.spec_noun()
}

/// The message for a tool of no known family.
pub open spec fn unidentified_message(role: Role, exe: Seq<char>) -> Seq<char> {
    "Could not identify "@ + role.spec_noun() + " \""@ + exe + "\""@
}

/// The text in which a tool says what it is.
pub fn read_probe(role: Role, cmd: &Vec<String>, outcome: ProbeOutcome) -> (r: Result<
    String,
    String,
>)
    ensures
        match probe_text(role, texts(cmd@), outcome) {
            Ok(v) => r matches Ok(x) && x@ == v,
            Err(e) => r matches Err(m) && m@ == e,
        },
{
    if cmd.len() == 0 {
        let mut msg: String = role.title().to_owned();
        msg.append(" command is empty");
        return Err(msg);
    }
    let exe = &cmd[0];
    assert(texts(cmd@)[0] == exe@);
    match outcome {
        ProbeOutcome::Failed(e) => {
            let mut msg: String = "Error executing ".to_owned();
            msg.append(role.noun());
            msg.append(" command \"");
            msg.append(exe.as_str());
            msg.append(" -v\": ");
            msg.append(e.as_str());
            Err(msg)
        },
        ProbeOutcome::Exited { success, status, stdout, stderr } => {
            if !success {
                let mut msg: String = role.title().to_owned();
                msg.append(" command returned non-success exit code: \"");
                msg.append(exe.as_str());
                msg.append(" -v\": ");
                msg.append(status.as_str());
                Err(msg)
            } else {
                match role {
                    Role::Assembler => {
                        let mut text = stdout;
                        text.append(stderr.as_str());
                        Ok(text)
                    },
                    _ => Ok(stderr),
                }
            }
        },
    }
}

/// A compiler of a known family. It serves as linker of programs too.
#[derive(Debug)]
pub enum DetectedCompiler {
    Clang(Clang),
    Gcc(Gcc),
    Emscripten(Emscripten),
}

/// The mathematical value of [`DetectedCompiler`].
pub enum DetectedCompilerView {
    Clang(ClangView),
    Gcc(GccView),
    Emscripten(EmscriptenView),
}

impl View for DetectedCompiler {
    type V = DetectedCompilerView;

    open spec fn view(&self) -> DetectedCompilerView {
        match self {
            DetectedCompiler::Clang(x) => DetectedCompilerView::Clang(x@),
            DetectedCompiler::Gcc(x) => DetectedCompilerView::Gcc(x@),
            DetectedCompiler::Emscripten(x) => DetectedCompilerView::Emscripten(x@),
        }
    }
}

impl DetectedCompilerView {
    /// The family of the compiler.
    pub open spec fn id(self) -> Seq<char> {
        match self {
            DetectedCompilerView::Clang(_) => "clang"@,
            DetectedCompilerView::Gcc(_) => "gcc"@,
            DetectedCompilerView::Emscripten(_) => "emscripten"@,
        }
    }

    /// The version that the compiler reported.
    pub open spec fn version(self) -> Seq<char> {
        match self {
            DetectedCompilerView::Clang(x) => x.version,
            DetectedCompilerView::Gcc(x) => x.version,
            DetectedCompilerView::Emscripten(x) => x.version,
        }
    }

    /// The target triple that the compiler builds for.
    pub open spec fn target(self) -> Seq<char> {
        match self {
            DetectedCompilerView::Clang(x) => x.target,
            DetectedCompilerView::Gcc(x) => x.target,
            DetectedCompilerView::Emscripten(x) => x.target,
        }
    }

    /// The command line that starts the compiler.
    pub open spec fn cmd(self) -> Seq<Seq<char>> {
        match self {
            DetectedCompilerView::Clang(x) => x.cmd,
            DetectedCompilerView::Gcc(x) => x.cmd,
            DetectedCompilerView::Emscripten(x) => x.cmd,
        }
    }

    /// Whether the target has a use for position-independent code:
    /// clang has none where it builds for Windows, and the Emscripten
    /// compiler has none at all.
    pub open spec fn position_independent(self) -> bool {
        match self {
            DetectedCompilerView::Clang(x) => !x.target_windows,
            DetectedCompilerView::Gcc(_) => true,
            DetectedCompilerView::Emscripten(_) => false,
        }
    }

    /// The flag for position-independent code in a library.
    pub open spec fn pic_flag(self) -> Option<Seq<char>> {
        if self.position_independent() {
            Some("-fPIC"@)
        } else {
            None
        }
    }

    /// The flag for position-independent code in a program.
    pub open spec fn pie_flag(self) -> Option<Seq<char>> {
        if self.position_independent() {
            Some("-fPIE"@)
        } else {
            None
        }
    }

    /// The flag that makes the linked program position independent.
    pub open spec fn link_pie_flag(self) -> Option<Seq<char>> {
        if self.position_independent() {
            Some("-pie"@)
        } else {
            None
        }
    }
}

impl Compiler for DetectedCompiler {
    open spec fn spec_id(&self) -> Seq<char> {
        self@.id()
    }

    open spec fn spec_version(&self) -> Seq<char> {
        self@.version()
    }

    open spec fn spec_target(&self) -> Seq<char> {
        self@.target()
    }

    open spec fn spec_cmd(&self) -> Seq<Seq<char>> {
        self@.cmd()
    }

    open spec fn spec_out_flag(&self) -> Seq<char> {
        "-o"@
    }

    open spec fn spec_depfile_flags(&self, out_file: Seq<char>, dep_file: Seq<char>) -> Seq<
        Seq<char>,
    > {
        spec_gnu_depfile_flags(out_file, dep_file)
    }

    open spec fn spec_c_std_flag(&self, std: Seq<char>) -> Result<Seq<char>, Seq<char>> {
        spec_gnu_c_std_flag(std)
    }

    open spec fn spec_cpp_std_flag(&self, std: Seq<char>) -> Result<Seq<char>, Seq<char>> {
        spec_gnu_cpp_std_flag(std)
    }

    open spec fn spec_position_independent_code_flag(&self) -> Option<Seq<char>> {
        self@.pic_flag()
    }

    open spec fn spec_position_independent_executable_flag(&self) -> Option<Seq<char>> {
        self@.pie_flag()
    }

    fn id(&self) -> (r: String) {
        match self {
            DetectedCompiler::Clang(x) => x.id(),
            DetectedCompiler::Gcc(x) => x.id(),
            DetectedCompiler::Emscripten(x) => x.id(),
        }
    }

    fn version(&self) -> (r: String) {
        match self {
            DetectedCompiler::Clang(x) => x.version(),
            DetectedCompiler::Gcc(x) => x.version(),
            DetectedCompiler::Emscripten(x) => x.version(),
        }
    }

    fn target(&self) -> (r: String) {
        match self {
            DetectedCompiler::Clang(x) => x.target(),
            DetectedCompiler::Gcc(x) => x.target(),
            DetectedCompiler::Emscripten(x) => x.target(),
        }
    }

    fn cmd(&self) -> (r: Vec<String>) {
        match self {
            DetectedCompiler::Clang(x) => Compiler::cmd(x),
            DetectedCompiler::Gcc(x) => Compiler::cmd(x),
            DetectedCompiler::Emscripten(x) => Compiler::cmd(x),
        }
    }

    fn out_flag(&self) -> (r: String) {
        match self {
            DetectedCompiler::Clang(x) => x.out_flag(),
            DetectedCompiler::Gcc(x) => x.out_flag(),
            DetectedCompiler::Emscripten(x) => x.out_flag(),
        }
    }

    fn depfile_flags(&self, out_file: &str, dep_file: &str) -> (r: Vec<String>) {
        match self {
            DetectedCompiler::Clang(x) => x.depfile_flags(out_file, dep_file),
            DetectedCompiler::Gcc(x) => x.depfile_flags(out_file, dep_file),
            DetectedCompiler::Emscripten(x) => x.depfile_flags(out_file, dep_file),
        }
    }

    fn c_std_flag(&self, std: &str) -> (r: Result<String, String>) {
        match self {
            DetectedCompiler::Clang(x) => x.c_std_flag(std),
            DetectedCompiler::Gcc(x) => x.c_std_flag(std),
            DetectedCompiler::Emscripten(x) => x.c_std_flag(std),
        }
    }

    fn cpp_std_flag(&self, std: &str) -> (r: Result<String, String>) {
        match self {
            DetectedCompiler::Clang(x) => x.cpp_std_flag(std),
            DetectedCompiler::Gcc(x) => x.cpp_std_flag(std),
            DetectedCompiler::Emscripten(x) => x.cpp_std_flag(std),
        }
    }

    fn position_independent_code_flag(&self) -> (r: Option<String>) {
        match self {
            DetectedCompiler::Clang(x) => x.position_independent_code_flag(),
            DetectedCompiler::Gcc(x) => x.position_independent_code_flag(),
            DetectedCompiler::Emscripten(x) => x.position_independent_code_flag(),
        }
    }

    fn position_independent_executable_flag(&self) -> (r: Option<String>) {
        match self {
            DetectedCompiler::Clang(x) => Compiler::position_independent_executable_flag(x),
            DetectedCompiler::Gcc(x) => Compiler::position_independent_executable_flag(x),
            DetectedCompiler::Emscripten(x) => Compiler::position_independent_executable_flag(x),
        }
    }
}

impl ExeLinker for DetectedCompiler {
    open spec fn spec_cmd(&self) -> Seq<Seq<char>> {
        self@.cmd()
    }

    open spec fn spec_position_independent_executable_flag(&self) -> Option<Seq<char>> {
        self@.link_pie_flag()
    }

    fn cmd(&self) -> (r: Vec<String>) {
        match self {
            DetectedCompiler::Clang(x) => ExeLinker::cmd(x),
            DetectedCompiler::Gcc(x) => ExeLinker::cmd(x),
            DetectedCompiler::Emscripten(x) => ExeLinker::cmd(x),
        }
    }

    fn position_independent_executable_flag(&self) -> (r: Option<String>) {
        match self {
            DetectedCompiler::Clang(x) => ExeLinker::position_independent_executable_flag(x),
            DetectedCompiler::Gcc(x) => ExeLinker::position_independent_executable_flag(x),
            DetectedCompiler::Emscripten(x) => ExeLinker::position_independent_executable_flag(x),
        }
    }
}

/// The compiler or linker that the outcome of asking for its version
/// shows: clang is tried first, then gcc, then the Emscripten compiler,
/// and the first family whose marker is found is taken.
pub open spec fn spec_identify(role: Role, cmd: Seq<Seq<char>>, outcome: ProbeOutcome) -> Result<
    DetectedCompilerView,
    Seq<char>,
> {
    match probe_text(role, cmd, outcome) {
        Err(e) => Err(e),
        Ok(text) => {
            let lines = lines_of(text);
            if lines.len() == 0 {
                Err(empty_output_message(role))
            } else {
                match spec_identify_clang(lines[0], lines, cmd) {
                    Err(e) => Err(e),
                    Ok(Some(c)) => Ok(DetectedCompilerView::Clang(c)),
                    Ok(None) => match spec_identify_gcc(lines, cmd) {
                        Err(e) => Err(e),
                        Ok(Some(c)) => Ok(DetectedCompilerView::Gcc(c)),
                        Ok(None) => match spec_identify_emscripten(lines[0], lines, cmd) {
                            Err(e) => Err(e),
                            Ok(Some(c)) => Ok(DetectedCompilerView::Emscripten(c)),
                            Ok(None) => Err(unidentified_message(role, cmd[0])),
                        },
                    },
                }
            }
        },
    }
}

/// Tells a compiler or linker apart.
pub fn identify(role: Role, cmd: Vec<String>, outcome: ProbeOutcome) -> (r: Result<
    DetectedCompiler,
    String,
>)
    ensures
        match spec_identify(role, texts(cmd@), outcome) {
            Ok(v) => r matches Ok(x) && x@ == v,
            Err(e) => r matches Err(m) && m@ == e,
        },
{
    let version_output = match read_probe(role, &cmd, outcome) {
        Ok(x) => x,
        Err(e) => {
            return Err(e);
        },
    };
    let lines = split_lines(version_output.as_str());
    if lines.len() == 0 {
        let mut msg: String = role.title().to_owned();
        msg.append(" command output empty. Could not identify ");
        msg.append(role.noun());
        return Err(msg);
    }
    let first_line = &lines[0];
    assert(texts(lines@)[0] == first_line@);
    assert(texts(cmd@)[0] == cmd@[0]@);
    match identify_clang(first_line.as_str(), &lines, &cmd) {
        Err(e) => {
            return Err(e);
        },
        Ok(Some(clang)) => {
            return Ok(DetectedCompiler::Clang(clang));
        },
        Ok(None) => {},
    }
    match identify_gcc(&lines, &cmd) {
        Err(e) => {
            return Err(e);
        },
        Ok(Some(gcc)) => {
            return Ok(DetectedCompiler::Gcc(gcc));
        },
        Ok(None) => {},
    }
    match identify_emscripten(first_line.as_str(), &lines, &cmd) {
        Err(e) => {
            return Err(e);
        },
        Ok(Some(emcc)) => {
            return Ok(DetectedCompiler::Emscripten(emcc));
        },
        Ok(None) => {},
    }
    let mut msg: String = "Could not identify ".to_owned();
    msg.append(role.noun());
    msg.append(" \"");
    msg.append(cmd[0].as_str());
    msg.append("\"");
    Err(msg)
}

/// Tells a compiler apart from the outcome of asking it for its version.
pub fn identify_compiler(cmd: Vec<String>, outcome: ProbeOutcome) -> (r: Result<
    DetectedCompiler,
    String,
>)
    ensures
        match spec_identify(Role::Compiler, texts(cmd@), outcome) {
            Ok(v) => r matches Ok(x) && x@ == v,
            Err(e) => r matches Err(m) && m@ == e,
        },
{
    identify(Role::Compiler, cmd, outcome)
}

/// Tells a linker apart from the outcome of asking it for its version.
pub fn identify_linker(cmd: Vec<String>, outcome: ProbeOutcome) -> (r: Result<
    DetectedCompiler,
    String,
>)
    ensures
        match spec_identify(Role::Linker, texts(cmd@), outcome) {
            Ok(v) => r matches Ok(x) && x@ == v,
            Err(e) => r matches Err(m) && m@ == e,
        },
{
    identify(Role::Linker, cmd, outcome)
}

/// The assembler that the outcome of asking for its version shows: NASM
/// where the first line begins with its marker.
pub open spec fn spec_identify_assembler(cmd: Seq<Seq<char>>, outcome: ProbeOutcome) -> Result<
    NasmView,
    Seq<char>,
> {
    match probe_text(Role::Assembler, cmd, outcome) {
        Err(e) => Err(e),
        Ok(text) => {
            let lines = lines_of(text);
            if lines.len() == 0 {
                Err(empty_output_message(Role::Assembler))
            } else if starts_with(lines[0], nasm_id()) {
                Ok(NasmView { cmd, version: spec_find_version(lines[0], nasm_id()) })
            } else {
                Err(unidentified_message(Role::Assembler, cmd[0]))
            }
        },
    }
}

/// Tells an assembler apart from the outcome of asking it for its
/// version.
pub fn identify_assembler(cmd: Vec<String>, outcome: ProbeOutcome) -> (r: Result<Nasm, String>)
    ensures
        match spec_identify_assembler(texts(cmd@), outcome) {
            Ok(v) => r matches Ok(x) && x@ == v,
            Err(e) => r matches Err(m) && m@ == e,
        },
{
    let version_output = match read_probe(Role::Assembler, &cmd, outcome) {
        Ok(x) => x,
        Err(e) => {
            return Err(e);
        },
    };
    let lines = split_lines(version_output.as_str());
    if lines.len() == 0 {
        let mut msg: String = Role::Assembler.title().to_owned();
        msg.append(" command output empty. Could not identify ");
        msg.append(Role::Assembler.noun());
        return Err(msg);
    }
    let first_line = &lines[0];
    assert(texts(lines@)[0] == first_line@);
    assert(texts(cmd@)[0] == cmd@[0]@);
    if str_starts_with(first_line.as_str(), "NASM version ") {
        proof {
            lemma_starts_is_held(first_line@, nasm_id());
        }
        let version = find_version(first_line.as_str(), "NASM version ");
        return Ok(Nasm { cmd, version });
    }
    let mut msg: String = "Could not identify ".to_owned();
    msg.append(Role::Assembler.noun());
    msg.append(" \"");
    msg.append(cmd[0].as_str());
    msg.append("\"");
    Err(msg)
}

} // verus!
