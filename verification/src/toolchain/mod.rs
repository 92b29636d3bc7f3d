//! Toolchains: the tools a project is built with, and named sets of flags.

pub mod compiler;

use vstd::prelude::*;
use crate::text::{ascending, is_ascending, str_eq, texts};
use crate::unique::clone_strings;
use compiler::detect::{
    identify_assembler, identify_compiler, identify_linker, spec_identify,
    spec_identify_assembler, DetectedCompilerView, ProbeOutcome, Role,
};
use compiler::nasm::NasmView;
use compiler::{
    spec_gnu_c_std_flag, spec_gnu_cpp_std_flag, spec_gnu_depfile_flags, Assembler, Compiler,
    ExeLinker,
};

verus! {

/// A list of keys with their values, in the order in which they are
/// written out.
pub open spec fn pair_texts(v: Seq<(String, String)>) -> Seq<(Seq<char>, Seq<char>)> {
    Seq::new(v.len(), |i: int| (v[i].0@, v[i].1@))
}

/// The part of a profile that only the Visual Studio generator reads.
/// Its three lists of keys with their values are written out in the
/// order in which they stand. In a part that is in order the keys of a
/// list stand in ascending order, and so none stands twice.
#[derive(Clone, Debug)]
pub struct VcxprojProfile {
    pub preprocessor_definitions: Vec<String>,
    pub property_group: Vec<(String, String)>,
    pub cl_compile: Vec<(String, String)>,
    pub link: Vec<(String, String)>,
}

/// The mathematical value of [`VcxprojProfile`].
pub struct VcxprojProfileView {
    pub preprocessor_definitions: Seq<Seq<char>>,
    pub property_group: Seq<(Seq<char>, Seq<char>)>,
    pub cl_compile: Seq<(Seq<char>, Seq<char>)>,
    pub link: Seq<(Seq<char>, Seq<char>)>,
}

impl View for VcxprojProfile {
    type V = VcxprojProfileView;

    open spec fn view(&self) -> VcxprojProfileView {
        VcxprojProfileView {
            preprocessor_definitions: texts(self.preprocessor_definitions@),
            property_group: pair_texts(self.property_group@),
            cl_compile: pair_texts(self.cl_compile@),
            link: pair_texts(self.link@),
        }
    }
}

/// A named set of flags.
#[derive(Clone, Debug)]
pub struct Profile {
    pub c_compile_flags: Vec<String>,
    pub cpp_compile_flags: Vec<String>,
    pub nasm_assemble_flags: Vec<String>,
    pub vcxproj: Option<VcxprojProfile>,
}

/// The mathematical value of [`Profile`].
pub struct ProfileView {
    pub c_compile_flags: Seq<Seq<char>>,
    pub cpp_compile_flags: Seq<Seq<char>>,
    pub nasm_assemble_flags: Seq<Seq<char>>,
    pub vcxproj: Option<VcxprojProfileView>,
}

impl View for Profile {
    type V = ProfileView;

    open spec fn view(&self) -> ProfileView {
        ProfileView {
            c_compile_flags: texts(self.c_compile_flags@),
            cpp_compile_flags: texts(self.cpp_compile_flags@),
            nasm_assemble_flags: texts(self.nasm_assemble_flags@),
            vcxproj: match self.vcxproj {
                Some(v) => Some(v@),
                None => None,
            },
        }
    }
}

impl Default for Profile {
    fn default() -> (r: Self)
        ensures
            r@.c_compile_flags == Seq::<Seq<char>>::empty(),
            r@.cpp_compile_flags == Seq::<Seq<char>>::empty(),
            r@.nasm_assemble_flags == Seq::<Seq<char>>::empty(),
            r@.vcxproj is None,
    {
        let r = Profile {
            c_compile_flags: Vec::new(),
            cpp_compile_flags: Vec::new(),
            nasm_assemble_flags: Vec::new(),
            vcxproj: None,
        };
        assert(r@.c_compile_flags =~= Seq::<Seq<char>>::empty());
        assert(r@.cpp_compile_flags =~= Seq::<Seq<char>>::empty());
        assert(r@.nasm_assemble_flags =~= Seq::<Seq<char>>::empty());
        r
    }
}

/// A toolchain as its file declares it: the command line of each tool,
/// and the profiles by name. In a file that is in order the names of the
/// profiles stand in ascending order, and so none stands twice.
#[derive(Clone, Debug)]
pub struct ToolchainFile {
    pub msvc_platforms: Option<Vec<String>>,
    pub c_compiler: Option<Vec<String>>,
    pub cpp_compiler: Option<Vec<String>>,
    pub nasm_assembler: Option<Vec<String>>,
    pub static_linker: Option<Vec<String>>,
    pub exe_linker: Option<Vec<String>>,
    pub profile: Option<Vec<(String, Profile)>>,
}

/// A toolchain whose tools have been told apart. In a toolchain that is
/// in order the names of the profiles stand in ascending order, and so
/// none stands twice.
pub struct Toolchain {
    pub msvc_platforms: Vec<String>,
    pub c_compiler: Option<Box<dyn Compiler>>,
    pub cpp_compiler: Option<Box<dyn Compiler>>,
    pub nasm_assembler: Option<Box<dyn Assembler>>,
    pub static_linker: Option<Vec<String>>,
    pub exe_linker: Option<Box<dyn ExeLinker>>,
    pub profile: Vec<(String, Profile)>,
}

impl Default for Toolchain {
    fn default() -> (r: Self)
        ensures
            r.msvc_platforms@.len() == 0,
            r.c_compiler is None,
            r.cpp_compiler is None,
            r.nasm_assembler is None,
            r.static_linker is None,
            r.exe_linker is None,
            r.profile@.len() == 0,
            r.well_formed(),
    {
        Toolchain {
            msvc_platforms: Vec::new(),
            c_compiler: None,
            cpp_compiler: None,
            nasm_assembler: None,
            static_linker: None,
            exe_linker: None,
            profile: Vec::new(),
        }
    }
}

/// The position of the first profile called `name`.
pub open spec fn profile_position(profiles: Seq<(String, Profile)>, name: Seq<char>) -> Option<
    int,
>
    decreases profiles.len(),
{
    if profiles.len() == 0 {
        None
    } else if profile_position(profiles.drop_last(), name) is Some {
        profile_position(profiles.drop_last(), name)
    } else if profiles.last().0@ == name {
        Some(profiles.len() - 1)
    } else {
        None
    }
}

impl Toolchain {
    /// The first profile called `name`.
    pub fn find_profile(&self, name: &str) -> (r: Option<&Profile>)
        ensures
            match profile_position(self.profile@, name@) {
                Some(i) => 0 <= i < self.profile@.len() && r == Some(&self.profile@[i].1),
                None => r is None,
            },
    {
        let mut i: usize = 0;
        while i < self.profile.len()
            invariant
                i <= self.profile@.len(),
                profile_position(self.profile@.take(i as int), name@) is None,
            decreases self.profile@.len() - i,
        {
            proof {
                assert(self.profile@.take(i + 1).drop_last() =~= self.profile@.take(i as int));
            }
            if str_eq(self.profile[i].0.as_str(), name) {
                proof {
                    lemma_profile_position_prefix(self.profile@, name@, i + 1);
                }
                return Some(&self.profile[i].1);
            }
            i += 1;
        }
        assert(self.profile@.take(self.profile@.len() as int) =~= self.profile@);
        None
    }
}

/// A profile found among the first `n` is the first of that name overall.
pub proof fn lemma_profile_position_prefix(
    profiles: Seq<(String, Profile)>,
    name: Seq<char>,
    n: int,
)
    requires
        0 <= n <= profiles.len(),
        profile_position(profiles.take(n), name) is Some,
    ensures
        profile_position(profiles, name) == profile_position(profiles.take(n), name),
    decreases profiles.len() - n,
{
    if n < profiles.len() {
        assert(profiles.take(n + 1).drop_last() =~= profiles.take(n));
        lemma_profile_position_prefix(profiles, name, n + 1);
    } else {
        assert(profiles.take(n) =~= profiles);
    }
}


/// For every tool of a toolchain that has to be told apart, what came of
/// asking it for its version.
#[derive(Clone, Debug)]
pub struct Probes {
    pub nasm_assembler: Option<ProbeOutcome>,
    pub c_compiler: Option<ProbeOutcome>,
    pub cpp_compiler: Option<ProbeOutcome>,
    pub exe_linker: Option<ProbeOutcome>,
}

/// The names and values of the profiles.
pub open spec fn profile_views(v: Seq<(String, Profile)>) -> Seq<(Seq<char>, ProfileView)> {
    Seq::new(v.len(), |i: int| (v[i].0@, v[i].1@))
}

/// The texts of an optional command line.
pub open spec fn command_view(cmd: Option<Vec<String>>) -> Option<Seq<Seq<char>>> {
    match cmd {
        Some(c) => Some(texts(c@)),
        None => None,
    }
}

/// What a toolchain is once its tools are told apart.
pub struct ToolchainView {
    pub msvc_platforms: Seq<Seq<char>>,
    pub c_compiler: Option<DetectedCompilerView>,
    pub cpp_compiler: Option<DetectedCompilerView>,
    pub nasm_assembler: Option<NasmView>,
    pub static_linker: Option<Seq<Seq<char>>>,
    pub exe_linker: Option<DetectedCompilerView>,
    pub profile: Seq<(Seq<char>, ProfileView)>,
}

/// Whether `tool` answers as the compiler `v` does.
pub open spec fn same_compiler(tool: Option<Box<dyn Compiler>>, v: DetectedCompilerView) -> bool {
    &&& tool is Some
    &&& tool->0.spec_id() == v.id()
    &&& tool->0.spec_version() == v.version()
    &&& tool->0.spec_target() == v.target()
    &&& tool->0.spec_cmd() == v.cmd()
    &&& tool->0.spec_out_flag() == "-o"@
    &&& forall|out_file: Seq<char>, dep_file: Seq<char>| #[trigger]
        tool->0.spec_depfile_flags(out_file, dep_file) == spec_gnu_depfile_flags(
            out_file,
            dep_file,
        )
    &&& forall|std: Seq<char>| #[trigger]
        tool->0.spec_c_std_flag(std) == spec_gnu_c_std_flag(std)
    &&& forall|std: Seq<char>| #[trigger]
        tool->0.spec_cpp_std_flag(std) == spec_gnu_cpp_std_flag(std)
    &&& tool->0.spec_position_independent_code_flag() == v.pic_flag()
    &&& tool->0.spec_position_independent_executable_flag() == v.pie_flag()
}

/// Whether `tool` answers as the linker `v` does.
pub open spec fn same_linker(tool: Option<Box<dyn ExeLinker>>, v: DetectedCompilerView) -> bool {
    &&& tool is Some
    &&& tool->0.spec_cmd() == v.cmd()
    &&& tool->0.spec_position_independent_executable_flag() == v.link_pie_flag()
}

/// Whether `tool` answers as the assembler `v` does.
pub open spec fn same_assembler(tool: Option<Box<dyn Assembler>>, v: NasmView) -> bool {
    &&& tool is Some
    &&& tool->0.spec_id() == "nasm"@
    &&& tool->0.spec_version() == v.version
    &&& tool->0.spec_cmd() == v.cmd
    &&& tool->0.spec_out_flag() == "-o"@
    &&& forall|out_file: Seq<char>, dep_file: Seq<char>| #[trigger]
        tool->0.spec_depfile_flags(out_file, dep_file) == seq![
            "-MD"@,
            dep_file,
            "-MT"@,
            out_file,
        ]
}

impl Toolchain {
    /// Whether the toolchain is what `v` describes.
    pub open spec fn agrees(&self, v: ToolchainView) -> bool {
        &&& texts(self.msvc_platforms@) == v.msvc_platforms
        &&& match v.c_compiler {
            Some(c) => same_compiler(self.c_compiler, c),
            None => self.c_compiler is None,
        }
        &&& match v.cpp_compiler {
            Some(c) => same_compiler(self.cpp_compiler, c),
            None => self.cpp_compiler is None,
        }
        &&& match v.nasm_assembler {
            Some(a) => same_assembler(self.nasm_assembler, a),
            None => self.nasm_assembler is None,
        }
        &&& command_view(self.static_linker) == v.static_linker
        &&& match v.exe_linker {
            Some(l) => same_linker(self.exe_linker, l),
            None => self.exe_linker is None,
        }
        &&& profile_views(self.profile@) == v.profile
    }
}

/// The tool that a declared command line turns out to be: none where
/// none is declared; else what the outcome of asking for its version
/// shows. A failure is reported under the name of the tool.
pub open spec fn told_apart(
    role: Role,
    label: Seq<char>,
    cmd: Option<Vec<String>>,
    probe: Option<ProbeOutcome>,
) -> Result<Option<DetectedCompilerView>, Seq<char>> {
    match cmd {
        None => Ok(None),
        Some(c) => match spec_identify(role, texts(c@), probe->0) {
            Ok(v) => Ok(Some(v)),
            Err(e) => Err(label + e),
        },
    }
}

/// The assembler that a declared command line turns out to be.
pub open spec fn assembler_told_apart(
    cmd: Option<Vec<String>>,
    probe: Option<ProbeOutcome>,
) -> Result<Option<NasmView>, Seq<char>> {
    match cmd {
        None => Ok(None),
        Some(c) => match spec_identify_assembler(texts(c@), probe->0) {
            Ok(v) => Ok(Some(v)),
            Err(e) => Err("Error identifying NASM assembler: "@ + e),
        },
    }
}

/// Whether there is an outcome for every tool that the file declares and
/// that has to be told apart.
pub open spec fn covers(probes: Probes, file: ToolchainFile) -> bool {
    &&& file.nasm_assembler is Some ==> probes.nasm_assembler is Some
    &&& file.c_compiler is Some ==> probes.c_compiler is Some
    &&& file.cpp_compiler is Some ==> probes.cpp_compiler is Some
    &&& file.exe_linker is Some ==> probes.exe_linker is Some
}

/// A tool of a toolchain that has to be told apart.
#[derive(Clone, Copy, Debug, PartialEq, Eq, Structural)]
pub enum Tool {
    NasmAssembler,
    CCompiler,
    CppCompiler,
    ExeLinker,
}

/// Whether a declared tool cannot be told apart by the outcome at hand.
pub open spec fn not_told(
    role: Role,
    cmd: Option<Vec<String>>,
    probe: Option<ProbeOutcome>,
) -> bool {
    cmd matches Some(c) && (if role == Role::Assembler {
        spec_identify_assembler(texts(c@), probe->0) is Err
    } else {
        spec_identify(role, texts(c@), probe->0) is Err
    })
}

/// The tool that has to be asked for its version next: the first of the
/// assembler, the C compiler, the C++ compiler and the linker that is
/// declared and was not asked yet. No tool is asked once a tool before it
/// could not be told apart, for that failure ends the reading of the
/// toolchain.
pub open spec fn next_tool(file: ToolchainFile, probes: Probes) -> Option<Tool> {
    if file.nasm_assembler is Some && probes.nasm_assembler is None {
        Some(Tool::NasmAssembler)
    } else if not_told(Role::Assembler, file.nasm_assembler, probes.nasm_assembler) {
        None
    } else if file.c_compiler is Some && probes.c_compiler is None {
        Some(Tool::CCompiler)
    } else if not_told(Role::Compiler, file.c_compiler, probes.c_compiler) {
        None
    } else if file.cpp_compiler is Some && probes.cpp_compiler is None {
        Some(Tool::CppCompiler)
    } else if not_told(Role::Compiler, file.cpp_compiler, probes.cpp_compiler) {
        None
    } else if file.exe_linker is Some && probes.exe_linker is None {
        Some(Tool::ExeLinker)
    } else {
        None
    }
}

/// Whether the outcomes at hand are all that reading the toolchain
/// needs: no tool is left to be asked. An outcome for every declared tool
/// is enough, and so are the outcomes up to a tool that cannot be told
/// apart.
pub open spec fn suffices(probes: Probes, file: ToolchainFile) -> bool {
    next_tool(file, probes) is None
}

/// Whether a declared tool cannot be told apart by the outcome at hand.
fn cannot_be_told(role: Role, cmd: &Option<Vec<String>>, probe: &Option<ProbeOutcome>) -> (r:
    bool)
    requires
        cmd is Some ==> probe is Some,
    ensures
        r == not_told(role, *cmd, *probe),
{
    match cmd {
        Some(c) => match probe {
            Some(p) => match role {
                Role::Assembler => identify_assembler(clone_strings(c), p.duplicate()).is_err(),
                Role::Compiler => identify_compiler(clone_strings(c), p.duplicate()).is_err(),
                Role::Linker => identify_linker(clone_strings(c), p.duplicate()).is_err(),
            },
            None => false,
        },
        None => false,
    }
}

/// The toolchain that a file declares: the assembler, the C compiler,
/// the C++ compiler and the linker are told apart in that order and the
/// first failure ends it; the tool that archives is taken as declared;
/// platforms and profiles that are not declared are none.
pub open spec fn spec_read_toolchain(file: ToolchainFile, probes: Probes) -> Result<
    ToolchainView,
    Seq<char>,
> {
    match assembler_told_apart(file.nasm_assembler, probes.nasm_assembler) {
        Err(e) => Err(e),
        Ok(nasm_assembler) => match told_apart(
            Role::Compiler,
            "Error identifying C compiler: "@,
            file.c_compiler,
            probes.c_compiler,
        ) {
            Err(e) => Err(e),
            Ok(c_compiler) => match told_apart(
                Role::Compiler,
                "Error identifying C++ compiler: "@,
                file.cpp_compiler,
                probes.cpp_compiler,
            ) {
                Err(e) => Err(e),
                Ok(cpp_compiler) => match told_apart(
                    Role::Linker,
                    "Error identifying linker: "@,
                    file.exe_linker,
                    probes.exe_linker,
                ) {
                    Err(e) => Err(e),
                    Ok(exe_linker) => Ok(
                        ToolchainView {
                            msvc_platforms: match file.msvc_platforms {
                                Some(p) => texts(p@),
                                None => Seq::empty(),
                            },
                            c_compiler,
                            cpp_compiler,
                            nasm_assembler,
                            static_linker: command_view(file.static_linker),
                            exe_linker,
                            profile: match file.profile {
                                Some(p) => profile_views(p@),
                                None => Seq::empty(),
                            },
                        },
                    ),
                },
            },
        },
    }
}

/// Tells a declared compiler apart and keeps it behind the trait.
fn tell_compiler_apart(label: &str, cmd: Option<Vec<String>>, probe: Option<ProbeOutcome>) -> (r:
    Result<Option<Box<dyn Compiler>>, String>)
    requires
        cmd is Some ==> probe is Some,
    ensures
        match told_apart(Role::Compiler, label@, cmd, probe) {
            Ok(Some(v)) => r matches Ok(tool) && same_compiler(tool, v),
            Ok(None) => r matches Ok(None),
            Err(e) => r matches Err(m) && m@ == e,
        },
{
    match cmd {
        None => Ok(None),
        Some(c) => {
            let outcome = match probe {
                Some(p) => p,
                None => vstd::pervasive::unreached(),
            };
            match identify_compiler(c, outcome) {
                Ok(tool) => Ok(Some(Box::new(tool))),
                Err(e) => {
                    let mut msg: String = label.to_owned();
                    msg.append(e.as_str());
                    Err(msg)
                },
            }
        },
    }
}

/// Tells a declared linker apart and keeps it behind the trait.
fn tell_linker_apart(label: &str, cmd: Option<Vec<String>>, probe: Option<ProbeOutcome>) -> (r:
    Result<Option<Box<dyn ExeLinker>>, String>)
    requires
        cmd is Some ==> probe is Some,
    ensures
        match told_apart(Role::Linker, label@, cmd, probe) {
            Ok(Some(v)) => r matches Ok(tool) && same_linker(tool, v),
            Ok(None) => r matches Ok(None),
            Err(e) => r matches Err(m) && m@ == e,
        },
{
    match cmd {
        None => Ok(None),
        Some(c) => {
            let outcome = match probe {
                Some(p) => p,
                None => vstd::pervasive::unreached(),
            };
            match identify_linker(c, outcome) {
                Ok(tool) => Ok(Some(Box::new(tool))),
                Err(e) => {
                    let mut msg: String = label.to_owned();
                    msg.append(e.as_str());
                    Err(msg)
                },
            }
        },
    }
}

/// Tells a declared assembler apart and keeps it behind the trait.
fn tell_assembler_apart(cmd: Option<Vec<String>>, probe: Option<ProbeOutcome>) -> (r: Result<
    Option<Box<dyn Assembler>>,
    String,
>)
    requires
        cmd is Some ==> probe is Some,
    ensures
        match assembler_told_apart(cmd, probe) {
            Ok(Some(v)) => r matches Ok(tool) && same_assembler(tool, v),
            Ok(None) => r matches Ok(None),
            Err(e) => r matches Err(m) && m@ == e,
        },
{
    match cmd {
        None => Ok(None),
        Some(c) => {
            let outcome = match probe {
                Some(p) => p,
                None => vstd::pervasive::unreached(),
            };
            match identify_assembler(c, outcome) {
                Ok(tool) => Ok(Some(Box::new(tool))),
                Err(e) => {
                    let mut msg: String = "Error identifying NASM assembler: ".to_owned();
                    msg.append(e.as_str());
                    Err(msg)
                },
            }
        },
    }
}

impl Probes {
    /// No outcome yet.
    pub fn new() -> (r: Self)
        ensures
            r.nasm_assembler is None,
            r.c_compiler is None,
            r.cpp_compiler is None,
            r.exe_linker is None,
    {
        Probes { nasm_assembler: None, c_compiler: None, cpp_compiler: None, exe_linker: None }
    }

    /// The tool that has to be asked for its version next, if any.
    pub fn next(&self, file: &ToolchainFile) -> (r: Option<Tool>)
        ensures
            r == next_tool(*file, *self),
    {
        if file.nasm_assembler.is_some() && self.nasm_assembler.is_none() {
            Some(Tool::NasmAssembler)
        } else if cannot_be_told(Role::Assembler, &file.nasm_assembler, &self.nasm_assembler) {
            None
        } else if file.c_compiler.is_some() && self.c_compiler.is_none() {
            Some(Tool::CCompiler)
        } else if cannot_be_told(Role::Compiler, &file.c_compiler, &self.c_compiler) {
            None
        } else if file.cpp_compiler.is_some() && self.cpp_compiler.is_none() {
            Some(Tool::CppCompiler)
        } else if cannot_be_told(Role::Compiler, &file.cpp_compiler, &self.cpp_compiler) {
            None
        } else if file.exe_linker.is_some() && self.exe_linker.is_none() {
            Some(Tool::ExeLinker)
        } else {
            None
        }
    }

    /// Whether there is an outcome for every tool that the file declares
    /// and that has to be told apart.
    pub fn covers(&self, file: &ToolchainFile) -> (r: bool)
        ensures
            r == covers(*self, *file),
    {
        (file.nasm_assembler.is_none() || self.nasm_assembler.is_some()) && (
        file.c_compiler.is_none() || self.c_compiler.is_some()) && (file.cpp_compiler.is_none()
            || self.cpp_compiler.is_some()) && (file.exe_linker.is_none()
            || self.exe_linker.is_some())
    }
}

/// The names of a list of keys with their values.
pub open spec fn pair_names(pairs: Seq<(Seq<char>, Seq<char>)>) -> Seq<Seq<char>> {
    Seq::new(pairs.len(), |i: int| pairs[i].0)
}

/// The names of the profiles.
pub open spec fn profile_names(profiles: Seq<(String, Profile)>) -> Seq<Seq<char>> {
    Seq::new(profiles.len(), |i: int| profiles[i].0@)
}

impl VcxprojProfileView {
    /// Whether the part is in order: in each of its three lists the keys
    /// stand in ascending order, so that no key stands twice.
    pub open spec fn well_formed(self) -> bool {
        &&& ascending(pair_names(self.property_group))
        &&& ascending(pair_names(self.cl_compile))
        &&& ascending(pair_names(self.link))
    }
}

/// Whether profiles are in order: their names stand in ascending order,
/// so that no name stands twice, and the part of each for Visual Studio
/// is in order.
pub open spec fn profiles_in_order(profiles: Seq<(String, Profile)>) -> bool {
    &&& ascending(profile_names(profiles))
    &&& forall|i: int|
        0 <= i < profiles.len() ==> ((#[trigger] profiles[i]).1.vcxproj matches Some(v) ==> v@
            .well_formed())
}

impl ToolchainFile {
    /// Whether the file is in order: its profiles are.
    pub open spec fn well_formed(&self) -> bool {
        match self.profile {
            Some(p) => profiles_in_order(p@),
            None => true,
        }
    }

    /// Whether the file is in order.
    pub fn is_well_formed(&self) -> (r: bool)
        ensures
            r == self.well_formed(),
    {
        match &self.profile {
            Some(p) => are_in_order(p),
            None => true,
        }
    }
}

impl Toolchain {
    /// Whether the toolchain is in order: its profiles are.
    pub open spec fn well_formed(&self) -> bool {
        profiles_in_order(self.profile@)
    }
}

/// The names of a list of keys with their values.
pub fn pair_name_list(pairs: &Vec<(String, String)>) -> (r: Vec<String>)
    ensures
        texts(r@) == pair_names(pair_texts(pairs@)),
{
    let mut out: Vec<String> = Vec::new();
    let mut i: usize = 0;
    while i < pairs.len()
        invariant
            i <= pairs@.len(),
            texts(out@) == pair_names(pair_texts(pairs@)).take(i as int),
        decreases pairs@.len() - i,
    {
        let ghost before = out@;
        out.push(pairs[i].0.clone());
        i += 1;
        proof {
            let all = pair_names(pair_texts(pairs@));
            assert(texts(out@) =~= texts(before).push(all[i - 1]));
            assert(all.take(i as int) =~= all.take(i - 1).push(all[i - 1]));
        }
    }
    assert(pair_names(pair_texts(pairs@)).take(pairs@.len() as int) =~= pair_names(
        pair_texts(pairs@),
    ));
    out
}

impl VcxprojProfile {
    /// Whether the part is in order.
    pub fn is_well_formed(&self) -> (r: bool)
        ensures
            r == self@.well_formed(),
    {
        is_ascending(&pair_name_list(&self.property_group)) && is_ascending(
            &pair_name_list(&self.cl_compile),
        ) && is_ascending(&pair_name_list(&self.link))
    }
}

/// Whether profiles are in order.
pub fn are_in_order(profiles: &Vec<(String, Profile)>) -> (r: bool)
    ensures
        r == profiles_in_order(profiles@),
{
    let mut names: Vec<String> = Vec::new();
    let mut i: usize = 0;
    while i < profiles.len()
        invariant
            i <= profiles@.len(),
            texts(names@) == profile_names(profiles@).take(i as int),
            forall|k: int|
                0 <= k < i ==> ((#[trigger] profiles@[k]).1.vcxproj matches Some(v) ==> v@
                    .well_formed()),
        decreases profiles@.len() - i,
    {
        if let Some(v) = &profiles[i].1.vcxproj {
            if !v.is_well_formed() {
                return false;
            }
        }
        let ghost before = names@;
        names.push(profiles[i].0.clone());
        i += 1;
        proof {
            let all = profile_names(profiles@);
            assert(texts(names@) =~= texts(before).push(all[i - 1]));
            assert(all.take(i as int) =~= all.take(i - 1).push(all[i - 1]));
        }
    }
    assert(profile_names(profiles@).take(profiles@.len() as int) =~= profile_names(profiles@));
    is_ascending(&names)
}

/// Makes the toolchain that a file declares, given what came of asking
/// its tools for their versions: there has to be an outcome for every
/// declared tool, or for every declared tool up to one that cannot be
/// told apart. The profiles of a file that is in order are handed on in
/// order.
pub fn read_toolchain(file: ToolchainFile, probes: Probes) -> (r: Result<Toolchain, String>)
    requires
        suffices(probes, file),
        file.well_formed(),
    ensures
        match spec_read_toolchain(file, probes) {
            Ok(v) => r matches Ok(t) && t.agrees(v) && t.well_formed(),
            Err(e) => r matches Err(m) && m@ == e,
        },
{
    let msvc_platforms: Vec<String> = match file.msvc_platforms {
        Some(p) => p,
        None => {
            let v: Vec<String> = Vec::new();
            assert(texts(v@) =~= Seq::<Seq<char>>::empty());
            v
        },
    };
    let nasm_assembler = match tell_assembler_apart(file.nasm_assembler, probes.nasm_assembler) {
        Ok(x) => x,
        Err(e) => {
            return Err(e);
        },
    };
    let c_compiler = match tell_compiler_apart(
        "Error identifying C compiler: ",
        file.c_compiler,
        probes.c_compiler,
    ) {
        Ok(x) => x,
        Err(e) => {
            return Err(e);
        },
    };
    let cpp_compiler = match tell_compiler_apart(
        "Error identifying C++ compiler: ",
        file.cpp_compiler,
        probes.cpp_compiler,
    ) {
        Ok(x) => x,
        Err(e) => {
            return Err(e);
        },
    };
    let static_linker = file.static_linker;
    let exe_linker = match tell_linker_apart(
        "Error identifying linker: ",
        file.exe_linker,
        probes.exe_linker,
    ) {
        Ok(x) => x,
        Err(e) => {
            return Err(e);
        },
    };
    let profile: Vec<(String, Profile)> = match file.profile {
        Some(p) => p,
        None => {
            let v: Vec<(String, Profile)> = Vec::new();
            assert(profile_views(v@) =~= Seq::empty());
            v
        },
    };
    Ok(
        Toolchain {
            msvc_platforms,
            nasm_assembler,
            c_compiler,
            cpp_compiler,
            static_linker,
            exe_linker,
            profile,
        },
    )
}

/// A copy of a list of keys with their values.
pub fn clone_pair_list(pairs: &Vec<(String, String)>) -> (r: Vec<(String, String)>)
    ensures
        pair_texts(r@) == pair_texts(pairs@),
{
    let mut out: Vec<(String, String)> = Vec::new();
    let mut i: usize = 0;
    while i < pairs.len()
        invariant
            i <= pairs@.len(),
            pair_texts(out@) == pair_texts(pairs@).take(i as int),
        decreases pairs@.len() - i,
    {
        let ghost before = out@;
        out.push((pairs[i].0.clone(), pairs[i].1.clone()));
        i += 1;
        proof {
            let all = pair_texts(pairs@);
            assert(pair_texts(out@) =~= pair_texts(before).push(all[i - 1]));
            assert(all.take(i as int) =~= all.take(i - 1).push(all[i - 1]));
        }
    }
    assert(pair_texts(pairs@).take(pairs@.len() as int) =~= pair_texts(pairs@));
    out
}

impl VcxprojProfile {
    /// A copy with the same value.
    pub fn duplicate(&self) -> (r: Self)
        ensures
            r@ == self@,
    {
        VcxprojProfile {
            preprocessor_definitions: clone_strings(&self.preprocessor_definitions),
            property_group: clone_pair_list(&self.property_group),
            cl_compile: clone_pair_list(&self.cl_compile),
            link: clone_pair_list(&self.link),
        }
    }
}

impl Profile {
    /// A copy with the same value.
    pub fn duplicate(&self) -> (r: Self)
        ensures
            r@ == self@,
    {
        Profile {
            c_compile_flags: clone_strings(&self.c_compile_flags),
            cpp_compile_flags: clone_strings(&self.cpp_compile_flags),
            nasm_assemble_flags: clone_strings(&self.nasm_assemble_flags),
            vcxproj: match &self.vcxproj {
                Some(v) => Some(v.duplicate()),
                None => None,
            },
        }
    }
}

} // verus!
