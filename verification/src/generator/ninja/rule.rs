//! Rules of a Ninja file.

use vstd::prelude::*;
use crate::text::{join, join_strings, texts};
use crate::toolchain::compiler::{option_text, Assembler, Compiler, ExeLinker};
use crate::unique::{clone_strings, extend_strings};

verus! {

/// How the build tool learns of the headers a compilation read.
#[derive(Clone, Copy, Debug, PartialEq, Eq, Structural)]
pub enum NinjaDeps {
    Gcc,
    Msvc,
}

impl NinjaDeps {
    /// The word that stands for `self` in a Ninja file.
    pub open spec fn spec_as_str(self) -> Seq<char> {
        match self {
            NinjaDeps::Gcc => "gcc"@,
            NinjaDeps::Msvc => "msvc"@,
        }
    }

    /// The word that stands for `self` in a Ninja file.
    pub fn as_str(&self) -> (r: &'static str)
        ensures
            r@ == self.spec_as_str(),
    {
        match self {
            NinjaDeps::Gcc => "gcc",
            NinjaDeps::Msvc => "msvc",
        }
    }
}

/// A response file of a rule.
#[derive(Clone, Debug)]
pub struct NinjaRspFile {
    pub rspfile: String,
    pub rspfilecontent: String,
}

/// A rule: how one kind of step is carried out.
#[derive(Clone, Debug)]
pub struct NinjaRule {
    pub name: String,
    pub command: Vec<String>,
    pub depfile: Option<String>,
    pub deps: Option<NinjaDeps>,
    pub description: Option<String>,
    pub dyndep: Option<String>,
    pub generator: bool,
    pub restat: Option<String>,
    pub rspfile: Option<NinjaRspFile>,
}

/// The mathematical value of [`NinjaRule`].
pub struct NinjaRuleView {
    pub name: Seq<char>,
    pub command: Seq<Seq<char>>,
    pub depfile: Option<Seq<char>>,
    pub deps: Option<NinjaDeps>,
    pub description: Option<Seq<char>>,
    pub dyndep: Option<Seq<char>>,
    pub generator: bool,
    pub restat: Option<Seq<char>>,
    pub rspfile: Option<(Seq<char>, Seq<char>)>,
}

impl View for NinjaRule {
    type V = NinjaRuleView;

    open spec fn view(&self) -> NinjaRuleView {
        NinjaRuleView {
            name: self.name@,
            command: texts(self.command@),
            depfile: option_text(self.depfile),
            deps: self.deps,
            description: option_text(self.description),
            dyndep: option_text(self.dyndep),
            generator: self.generator,
            restat: option_text(self.restat),
            rspfile: match self.rspfile {
                Some(f) => Some((f.rspfile@, f.rspfilecontent@)),
                None => None,
            },
        }
    }
}

/// The line for an optional setting of a rule.
pub open spec fn setting_line(key: Seq<char>, value: Option<Seq<char>>) -> Seq<char> {
    match value {
        Some(v) => "\n  "@ + key + " = "@ + v,
        None => Seq::empty(),
    }
}

impl NinjaRuleView {
    /// The rule as it stands in a Ninja file.
    pub open spec fn as_string(self) -> Seq<char> {
        "rule "@ + self.name + "\n  command = "@ + join(self.command, " "@) + setting_line(
            "depfile"@,
            self.depfile,
        ) + setting_line(
            "deps"@,
            match self.deps {
                Some(d) => Some(d.spec_as_str()),
                None => None,
            },
        ) + setting_line("description"@, self.description) + setting_line("dyndep"@, self.dyndep)
            + (if self.generator {
            "\n  generator = 1"@
        } else {
            Seq::empty()
        }) + setting_line("restat"@, self.restat) + (match self.rspfile {
            Some(f) => "\n  rspfile = "@ + f.0 + "\n  rspfilecontent = "@ + f.1,
            None => Seq::empty(),
        }) + "\n\n"@
    }

    /// A rule with a name and a command and nothing else.
    pub open spec fn plain(name: Seq<char>, command: Seq<Seq<char>>) -> NinjaRuleView {
        NinjaRuleView {
            name,
            command,
            depfile: None,
            deps: None,
            description: None,
            dyndep: None,
            generator: false,
            restat: None,
            rspfile: None,
        }
    }
}

/// Appends the line for an optional setting of a rule.
fn append_setting(out: &mut String, key: &str, value: &Option<String>)
    ensures
        final(out)@ == old(out)@ + setting_line(key@, option_text(*value)),
{
    match value {
        Some(v) => {
            let ghost before = out@;
            out.append("\n  ");
            out.append(key);
            out.append(" = ");
            out.append(v.as_str());
            assert(out@ =~= before + ("\n  "@ + key@ + " = "@ + v@));
        },
        None => {
            assert(out@ + Seq::<char>::empty() =~= out@);
        },
    }
}

impl NinjaRule {
    /// The rule as it stands in a Ninja file.
    pub fn as_string(&self) -> (r: String)
        ensures
            r@ == self@.as_string(),
    {
        let mut ret: String = "rule ".to_owned();
        ret.append(self.name.as_str());
        ret.append("\n  command = ");
        let command = join_strings(&self.command, " ");
        ret.append(command.as_str());
        append_setting(&mut ret, "depfile", &self.depfile);
        match &self.deps {
            Some(dep) => {
                let ghost before = ret@;
                ret.append("\n  ");
                ret.append("deps");
                ret.append(" = ");
                ret.append(dep.as_str());
                assert(ret@ =~= before + ("\n  "@ + "deps"@ + " = "@ + dep.spec_as_str()));
            },
            None => {
                assert(ret@ + Seq::<char>::empty() =~= ret@);
            },
        }
        append_setting(&mut ret, "description", &self.description);
        append_setting(&mut ret, "dyndep", &self.dyndep);
        if self.generator {
            ret.append("\n  generator = 1");
        } else {
            assert(ret@ + Seq::<char>::empty() =~= ret@);
        }
        append_setting(&mut ret, "restat", &self.restat);
        match &self.rspfile {
            Some(rspfile) => {
                let ghost before = ret@;
                ret.append("\n  rspfile = ");
                ret.append(rspfile.rspfile.as_str());
                ret.append("\n  rspfilecontent = ");
                ret.append(rspfile.rspfilecontent.as_str());
                assert(ret@ =~= before + ("\n  rspfile = "@ + rspfile.rspfile@
                    + "\n  rspfilecontent = "@ + rspfile.rspfilecontent@));
            },
            None => {
                assert(ret@ + Seq::<char>::empty() =~= ret@);
            },
        }
        ret.append("\n\n");
        ret
    }

    /// A copy with the same value.
    pub fn duplicate(&self) -> (r: NinjaRule)
        ensures
            r@ == self@,
    {
        NinjaRule {
            name: self.name.clone(),
            command: clone_strings(&self.command),
            depfile: self.depfile.clone(),
            deps: self.deps,
            description: self.description.clone(),
            dyndep: self.dyndep.clone(),
            generator: self.generator,
            restat: self.restat.clone(),
            rspfile: match &self.rspfile {
                Some(f) => Some(
                    NinjaRspFile {
                        rspfile: f.rspfile.clone(),
                        rspfilecontent: f.rspfilecontent.clone(),
                    },
                ),
                None => None,
            },
        }
    }
}

/// The command of a rule that compiles: the tool, the three variables of
/// the edge, the flags for the list of dependencies, the output, and the
/// input after `tail`.
pub open spec fn compile_command(
    cmd: Seq<Seq<char>>,
    depfile_flags: Seq<Seq<char>>,
    out_flag: Seq<char>,
    tail: Seq<Seq<char>>,
) -> Seq<Seq<char>> {
    cmd + seq!["$DEFINES"@, "$INCLUDES"@, "$FLAGS"@] + depfile_flags + seq![out_flag, "$out"@]
        + tail
}

/// A rule that compiles and reports the headers it read.
pub open spec fn compile_rule(
    name: Seq<char>,
    command: Seq<Seq<char>>,
    description: Seq<char>,
) -> NinjaRuleView {
    NinjaRuleView {
        name,
        command,
        depfile: Some("$DEP_FILE"@),
        deps: Some(NinjaDeps::Gcc),
        description: Some(description),
        dyndep: None,
        generator: false,
        restat: None,
        rspfile: None,
    }
}

/// The rule that compiles C with a compiler that is started by `cmd`,
/// asked for a list of dependencies by `depfile_flags` and told its output
/// by `out_flag`.
pub open spec fn spec_compile_c_object(
    cmd: Seq<Seq<char>>,
    depfile_flags: Seq<Seq<char>>,
    out_flag: Seq<char>,
) -> NinjaRuleView {
    compile_rule(
        "compile_c_object"@,
        compile_command(cmd, depfile_flags, out_flag, seq!["-c"@, "$in"@]),
        "Compiling C object $out"@,
    )
}

/// The rule that compiles C++ with such a compiler.
pub open spec fn spec_compile_cpp_object(
    cmd: Seq<Seq<char>>,
    depfile_flags: Seq<Seq<char>>,
    out_flag: Seq<char>,
) -> NinjaRuleView {
    compile_rule(
        "compile_cpp_object"@,
        compile_command(cmd, depfile_flags, out_flag, seq!["-c"@, "$in"@]),
        "Compiling C++ object $out"@,
    )
}

/// The rule that assembles with such an assembler.
pub open spec fn spec_assemble_nasm_object(
    cmd: Seq<Seq<char>>,
    depfile_flags: Seq<Seq<char>>,
    out_flag: Seq<char>,
) -> NinjaRuleView {
    compile_rule(
        "assemble_nasm_object"@,
        compile_command(cmd, depfile_flags, out_flag, seq!["$in"@]),
        "Assembling NASM object $out"@,
    )
}

/// The rule that archives with the tool started by `static_linker`.
pub open spec fn spec_link_static_lib(static_linker: Seq<Seq<char>>) -> NinjaRuleView {
    NinjaRuleView {
        description: Some("Linking static library $out"@),
        ..NinjaRuleView::plain(
            "link_static_lib"@,
            static_linker + seq!["$TARGET_FILE"@, "$LINK_FLAGS"@, "$in"@],
        )
    }
}

/// The rule that links programs with the linker started by `cmd`.
pub open spec fn spec_link_exe(cmd: Seq<Seq<char>>) -> NinjaRuleView {
    NinjaRuleView {
        description: Some("Linking executable $out"@),
        ..NinjaRuleView::plain(
            "link_exe"@,
            cmd + seq!["$LINK_FLAGS"@, "$in"@, "-o"@, "$TARGET_FILE"@, "$LINK_PATH"@],
        )
    }
}

/// Puts the command of a compiling rule together.
fn make_compile_command(
    cmd: Vec<String>,
    depfile_flags: Vec<String>,
    out_flag: String,
    compile_only: bool,
) -> (r: Vec<String>)
    ensures
        texts(r@) == compile_command(
            texts(cmd@),
            texts(depfile_flags@),
            out_flag@,
            if compile_only {
                seq!["-c"@, "$in"@]
            } else {
                seq!["$in"@]
            },
        ),
{
    let mut command = cmd;
    let ghost c0 = texts(command@);
    command.push("$DEFINES".to_owned());
    command.push("$INCLUDES".to_owned());
    command.push("$FLAGS".to_owned());
    assert(texts(command@) =~= c0 + seq!["$DEFINES"@, "$INCLUDES"@, "$FLAGS"@]);
    extend_strings(&mut command, &depfile_flags);
    let ghost c1 = texts(command@);
    command.push(out_flag);
    command.push("$out".to_owned());
    assert(texts(command@) =~= c1 + seq![out_flag@, "$out"@]);
    let ghost c2 = texts(command@);
    if compile_only {
        command.push("-c".to_owned());
        command.push("$in".to_owned());
        assert(texts(command@) =~= c2 + seq!["-c"@, "$in"@]);
    } else {
        command.push("$in".to_owned());
        assert(texts(command@) =~= c2 + seq!["$in"@]);
    }
    command
}

/// Makes a rule that compiles and reports the headers it read.
fn make_compile_rule(name: &str, command: Vec<String>, description: &str) -> (r: NinjaRule)
    ensures
        r@ == compile_rule(name@, texts(command@), description@),
{
    NinjaRule {
        name: name.to_owned(),
        command,
        depfile: Some("$DEP_FILE".to_owned()),
        deps: Some(NinjaDeps::Gcc),
        description: Some(description.to_owned()),
        dyndep: None,
        generator: false,
        restat: None,
        rspfile: None,
    }
}

/// The rule that compiles C with `compiler`.
pub fn compile_c_object(compiler: &Box<dyn Compiler>) -> (r: NinjaRule)
    ensures
        r@ == spec_compile_c_object(
            compiler.spec_cmd(),
            compiler.spec_depfile_flags("$out"@, "$DEP_FILE"@),
            compiler.spec_out_flag(),
        ),
{
    let command = make_compile_command(
        compiler.cmd(),
        compiler.depfile_flags("$out", "$DEP_FILE"),
        compiler.out_flag(),
        true,
    );
    make_compile_rule("compile_c_object", command, "Compiling C object $out")
}

/// The rule that compiles C++ with `compiler`.
pub fn compile_cpp_object(compiler: &Box<dyn Compiler>) -> (r: NinjaRule)
    ensures
        r@ == spec_compile_cpp_object(
            compiler.spec_cmd(),
            compiler.spec_depfile_flags("$out"@, "$DEP_FILE"@),
            compiler.spec_out_flag(),
        ),
{
    let command = make_compile_command(
        compiler.cmd(),
        compiler.depfile_flags("$out", "$DEP_FILE"),
        compiler.out_flag(),
        true,
    );
    make_compile_rule("compile_cpp_object", command, "Compiling C++ object $out")
}

/// The rule that assembles with `assembler`.
pub fn assemble_nasm_object(assembler: &Box<dyn Assembler>) -> (r: NinjaRule)
    ensures
        r@ == spec_assemble_nasm_object(
            assembler.spec_cmd(),
            assembler.spec_depfile_flags("$out"@, "$DEP_FILE"@),
            assembler.spec_out_flag(),
        ),
{
    let command = make_compile_command(
        assembler.cmd(),
        assembler.depfile_flags("$out", "$DEP_FILE"),
        assembler.out_flag(),
        false,
    );
    make_compile_rule("assemble_nasm_object", command, "Assembling NASM object $out")
}

/// The rule that archives with the tool started by `static_linker`.
pub fn link_static_lib(static_linker: &Vec<String>) -> (r: NinjaRule)
    ensures
        r@ == spec_link_static_lib(texts(static_linker@)),
{
    let mut command = clone_strings(static_linker);
    let ghost c0 = texts(command@);
    command.push("$TARGET_FILE".to_owned());
    command.push("$LINK_FLAGS".to_owned());
    command.push("$in".to_owned());
    assert(texts(command@) =~= c0 + seq!["$TARGET_FILE"@, "$LINK_FLAGS"@, "$in"@]);
    NinjaRule {
        name: "link_static_lib".to_owned(),
        command,
        depfile: None,
        deps: None,
        description: Some("Linking static library $out".to_owned()),
        dyndep: None,
        generator: false,
        restat: None,
        rspfile: None,
    }
}

/// The rule that links programs with `exe_linker`.
pub fn link_exe(exe_linker: &Box<dyn ExeLinker>) -> (r: NinjaRule)
    ensures
        r@ == spec_link_exe(exe_linker.spec_cmd()),
{
    let mut command = exe_linker.cmd();
    let ghost c0 = texts(command@);
    command.push("$LINK_FLAGS".to_owned());
    command.push("$in".to_owned());
    command.push("-o".to_owned());
    command.push("$TARGET_FILE".to_owned());
    command.push("$LINK_PATH".to_owned());
    assert(texts(command@) =~= c0 + seq![
        "$LINK_FLAGS"@,
        "$in"@,
        "-o"@,
        "$TARGET_FILE"@,
        "$LINK_PATH"@,
    ]);
    NinjaRule {
        name: "link_exe".to_owned(),
        command,
        depfile: None,
        deps: None,
        description: Some("Linking executable $out".to_owned()),
        dyndep: None,
        generator: false,
        restat: None,
        rspfile: None,
    }
}

/// The rules of a Ninja file: at most one for each kind of step, made
/// when a step of that kind is first needed.
#[derive(Debug)]
pub struct NinjaRules {
    pub compile_c_object: Option<NinjaRule>,
    pub compile_cpp_object: Option<NinjaRule>,
    pub assemble_nasm_object: Option<NinjaRule>,
    pub link_static_lib: Option<NinjaRule>,
    pub link_exe: Option<NinjaRule>,
}

/// The value of an optional rule.
pub open spec fn rule_view(r: Option<NinjaRule>) -> Option<NinjaRuleView> {
    match r {
        Some(x) => Some(x@),
        None => None,
    }
}

/// The mathematical value of [`NinjaRules`].
pub struct NinjaRulesView {
    pub compile_c_object: Option<NinjaRuleView>,
    pub compile_cpp_object: Option<NinjaRuleView>,
    pub assemble_nasm_object: Option<NinjaRuleView>,
    pub link_static_lib: Option<NinjaRuleView>,
    pub link_exe: Option<NinjaRuleView>,
}

/// The text of an optional rule.
pub open spec fn rule_text(r: Option<NinjaRuleView>) -> Seq<char> {
    match r {
        Some(x) => x.as_string(),
        None => Seq::empty(),
    }
}

impl NinjaRulesView {
    /// No rules.
    pub open spec fn empty() -> NinjaRulesView {
        NinjaRulesView {
            compile_c_object: None,
            compile_cpp_object: None,
            assemble_nasm_object: None,
            link_static_lib: None,
            link_exe: None,
        }
    }

    /// The rules as they stand in a Ninja file.
    pub open spec fn as_string(self) -> Seq<char> {
        rule_text(self.compile_c_object) + rule_text(self.compile_cpp_object) + rule_text(
            self.assemble_nasm_object,
        ) + rule_text(self.link_static_lib) + rule_text(self.link_exe)
    }
}

impl View for NinjaRules {
    type V = NinjaRulesView;

    open spec fn view(&self) -> NinjaRulesView {
        NinjaRulesView {
            compile_c_object: rule_view(self.compile_c_object),
            compile_cpp_object: rule_view(self.compile_cpp_object),
            assemble_nasm_object: rule_view(self.assemble_nasm_object),
            link_static_lib: rule_view(self.link_static_lib),
            link_exe: rule_view(self.link_exe),
        }
    }
}

/// Appends the text of an optional rule.
fn append_rule(out: &mut String, rule: &Option<NinjaRule>)
    ensures
        final(out)@ == old(out)@ + rule_text(rule_view(*rule)),
{
    match rule {
        Some(r) => {
            let text = r.as_string();
            out.append(text.as_str());
        },
        None => {
            assert(out@ + Seq::<char>::empty() =~= out@);
        },
    }
}

impl Default for NinjaRules {
    fn default() -> (r: Self)
        ensures
            r@ == NinjaRulesView::empty(),
    {
        NinjaRules {
            compile_c_object: None,
            compile_cpp_object: None,
            assemble_nasm_object: None,
            link_static_lib: None,
            link_exe: None,
        }
    }
}

impl NinjaRules {
    /// The rules as they stand in a Ninja file.
    pub fn as_string(&self) -> (r: String)
        ensures
            r@ == self@.as_string(),
    {
        let mut out = String::new();
        assert(out@ + rule_text(rule_view(self.compile_c_object)) =~= rule_text(
            rule_view(self.compile_c_object),
        ));
        append_rule(&mut out, &self.compile_c_object);
        append_rule(&mut out, &self.compile_cpp_object);
        append_rule(&mut out, &self.assemble_nasm_object);
        append_rule(&mut out, &self.link_static_lib);
        append_rule(&mut out, &self.link_exe);
        out
    }
}

} // verus!
