//! The settings of one configuration of a Visual Studio project.

use vstd::prelude::*;
use crate::misc::{Sources, SourcesView};
use crate::text::{
    append_prefixed, append_suffixed, join, join_strings, prefixed_all, str_eq, suffixed_all,
    texts,
};
use crate::toolchain::{pair_texts, VcxprojProfile, VcxprojProfileView};
use crate::unique::{clone_strings, extend_strings};

verus! {

/// The standards of C that Visual Studio knows.
#[derive(Clone, Copy, Debug, PartialEq, Eq, Structural)]
pub enum CStd {
    C11,
    C17,
}

impl CStd {
    /// The word that stands for the standard in a project file.
    pub open spec fn spec_as_str(self) -> Seq<char> {
        match self {
            CStd::C11 => "stdc11"@,
            CStd::C17 => "stdc17"@,
        }
    }

    /// The word that stands for the standard in a project file.
    pub fn as_str(&self) -> (r: &'static str)
        ensures
            r@ == self.spec_as_str(),
    {
        match self {
            CStd::C11 => "stdc11",
            CStd::C17 => "stdc17",
        }
    }
}

/// The standards of C++ that Visual Studio knows.
#[derive(Clone, Copy, Debug, PartialEq, Eq, Structural)]
pub enum CppStd {
    Cpp11,
    Cpp14,
    Cpp17,
    Cpp20,
}

impl CppStd {
    /// The word that stands for the standard in a project file.
    pub open spec fn spec_as_str(self) -> Seq<char> {
        match self {
            CppStd::Cpp11 => "stdcpp11"@,
            CppStd::Cpp14 => "stdcpp14"@,
            CppStd::Cpp17 => "stdcpp17"@,
            CppStd::Cpp20 => "stdcpp20"@,
        }
    }

    /// The word that stands for the standard in a project file.
    pub fn as_str(&self) -> (r: &'static str)
        ensures
            r@ == self.spec_as_str(),
    {
        match self {
            CppStd::Cpp11 => "stdcpp11",
            CppStd::Cpp14 => "stdcpp14",
            CppStd::Cpp17 => "stdcpp17",
            CppStd::Cpp20 => "stdcpp20",
        }
    }
}

/// The language standards that were asked for.
#[derive(Clone, Copy, Debug)]
pub struct Options {
    pub c_standard: Option<CStd>,
    pub cpp_standard: Option<CppStd>,
}

/// The standard of C that `std` asks for, or the message that refuses
/// what Visual Studio does not know.
pub open spec fn spec_parse_c_standard(std: Option<Seq<char>>) -> Result<Option<CStd>, Seq<char>> {
    match std {
        None => Ok(None),
        Some(x) => if x == "11"@ {
            Ok(Some(CStd::C11))
        } else if x == "17"@ {
            Ok(Some(CStd::C17))
        } else {
            Err(
                "Unrecognized value for option for \"c_standard\": \""@ + x
                    + "\". Accepted values are \"17\", \"11\""@,
            )
        },
    }
}

/// The standard of C++ that `std` asks for, or the message that refuses
/// what Visual Studio does not know.
pub open spec fn spec_parse_cpp_standard(std: Option<Seq<char>>) -> Result<
    Option<CppStd>,
    Seq<char>,
> {
    match std {
        None => Ok(None),
        Some(x) => if x == "11"@ {
            Ok(Some(CppStd::Cpp11))
        } else if x == "14"@ {
            Ok(Some(CppStd::Cpp14))
        } else if x == "17"@ {
            Ok(Some(CppStd::Cpp17))
        } else if x == "20"@ {
            Ok(Some(CppStd::Cpp20))
        } else {
            Err(
                "Unrecognized value for option for \"cpp_standard\": \""@ + x
                    + "\". Accepted values are \"20\", \"17\", \"14\", \"11\""@,
            )
        },
    }
}

/// The standard of C that `std` asks for.
pub fn parse_c_standard(std: &Option<String>) -> (r: Result<Option<CStd>, String>)
    ensures
        match spec_parse_c_standard(crate::toolchain::compiler::option_text(*std)) {
            Ok(v) => r == Ok::<Option<CStd>, String>(v),
            Err(e) => r matches Err(m) && m@ == e,
        },
{
    match std {
        None => Ok(None),
        Some(x) => {
            if str_eq(x.as_str(), "11") {
                Ok(Some(CStd::C11))
            } else if str_eq(x.as_str(), "17") {
                Ok(Some(CStd::C17))
            } else {
                let mut msg: String = "Unrecognized value for option for \"c_standard\": \"".to_owned();
                msg.append(x.as_str());
                msg.append("\". Accepted values are \"17\", \"11\"");
                Err(msg)
            }
        },
    }
}

/// The standard of C++ that `std` asks for.
pub fn parse_cpp_standard(std: &Option<String>) -> (r: Result<Option<CppStd>, String>)
    ensures
        match spec_parse_cpp_standard(crate::toolchain::compiler::option_text(*std)) {
            Ok(v) => r == Ok::<Option<CppStd>, String>(v),
            Err(e) => r matches Err(m) && m@ == e,
        },
{
    match std {
        None => Ok(None),
        Some(x) => {
            if str_eq(x.as_str(), "11") {
                Ok(Some(CppStd::Cpp11))
            } else if str_eq(x.as_str(), "14") {
                Ok(Some(CppStd::Cpp14))
            } else if str_eq(x.as_str(), "17") {
                Ok(Some(CppStd::Cpp17))
            } else if str_eq(x.as_str(), "20") {
                Ok(Some(CppStd::Cpp20))
            } else {
                let mut msg: String = "Unrecognized value for option for \"cpp_standard\": \"".to_owned();
                msg.append(x.as_str());
                msg.append("\". Accepted values are \"20\", \"17\", \"14\", \"11\"");
                Err(msg)
            }
        },
    }
}

/// What the generator reads of a profile.
#[derive(Clone, Debug)]
pub struct ProfileFragment {
    pub vcxproj: VcxprojProfile,
    pub nasm_assemble_flags: Vec<String>,
}

/// The mathematical value of [`ProfileFragment`].
pub struct ProfileFragmentView {
    pub vcxproj: VcxprojProfileView,
    pub nasm_assemble_flags: Seq<Seq<char>>,
}

impl View for ProfileFragment {
    type V = ProfileFragmentView;

    open spec fn view(&self) -> ProfileFragmentView {
        ProfileFragmentView {
            vcxproj: self.vcxproj@,
            nasm_assemble_flags: texts(self.nasm_assemble_flags@),
        }
    }
}

/// One element for each pair: the key as its name, the value as its
/// content, `indent` in front.
pub open spec fn element_lines(pairs: Seq<(Seq<char>, Seq<char>)>, indent: Seq<char>) -> Seq<char>
    decreases pairs.len(),
{
    if pairs.len() == 0 {
        Seq::empty()
    } else {
        element_lines(pairs.drop_last(), indent) + indent + "<"@ + pairs.last().0 + ">"@
            + pairs.last().1 + "</"@ + pairs.last().0 + ">\n"@
    }
}

/// Appends one element for each pair.
pub fn append_elements(out: &mut String, pairs: &Vec<(String, String)>, indent: &str)
    ensures
        final(out)@ == old(out)@ + element_lines(pair_texts(pairs@), indent@),
{
    let ghost all = pair_texts(pairs@);
    let mut i: usize = 0;
    assert(out@ =~= old(out)@ + element_lines(all.take(0), indent@));
    while i < pairs.len()
        invariant
            i <= pairs@.len(),
            all == pair_texts(pairs@),
            out@ == old(out)@ + element_lines(all.take(i as int), indent@),
        decreases pairs@.len() - i,
    {
        proof {
            assert(all.take(i + 1).drop_last() =~= all.take(i as int));
            assert(all.take(i + 1).last() == all[i as int]);
        }
        out.append(indent);
        out.append("<");
        out.append(pairs[i].0.as_str());
        out.append(">");
        out.append(pairs[i].1.as_str());
        out.append("</");
        out.append(pairs[i].0.as_str());
        out.append(">\n");
        i += 1;
        assert(out@ =~= old(out)@ + element_lines(all.take(i as int), indent@));
    }
    assert(all.take(all.len() as int) =~= all);
}

/// The setting of the language standard for the compiler.
pub open spec fn standard_lines(opts: Options, compile_as_c: bool) -> Seq<char> {
    if compile_as_c {
        match opts.c_standard {
            Some(c_std) => "      <LanguageStandard_C>"@ + c_std.spec_as_str()
                + "</LanguageStandard_C>\n"@ + "      <CompileAs>CompileAsC</CompileAs>\n"@,
            None => Seq::empty(),
        }
    } else {
        match opts.cpp_standard {
            Some(cpp_std) => "      <LanguageStandard>"@ + cpp_std.spec_as_str()
                + "</LanguageStandard>\n"@,
            None => Seq::empty(),
        }
    }
}

/// The settings of the compiler.
pub open spec fn spec_cl_compile(
    profile: VcxprojProfileView,
    include_dirs: Seq<Seq<char>>,
    defines: Seq<Seq<char>>,
    opts: Options,
    compile_as_c: bool,
) -> Seq<char> {
    "    <ClCompile>\n"@ + element_lines(profile.cl_compile, "      "@) + standard_lines(
        opts,
        compile_as_c,
    ) + "      <AdditionalIncludeDirectories>"@ + prefixed_all(
        include_dirs + seq!["%(AdditionalIncludeDirectories)"@],
        ";"@,
    ) + "</AdditionalIncludeDirectories>\n"@ + "      <ConformanceMode>true</ConformanceMode>\n"@
        + "      <PreprocessorDefinitions>"@ + suffixed_all(
        profile.preprocessor_definitions + defines + seq!["%(PreprocessorDefinitions)"@],
        ";"@,
    ) + "</PreprocessorDefinitions>\n"@ + "    </ClCompile>\n"@
}

/// The settings of the compiler.
pub fn cl_compile(
    profile: &VcxprojProfile,
    include_dirs: &Vec<String>,
    defines: &Vec<String>,
    opts: &Options,
    compile_as_c: bool,
) -> (r: String)
    ensures
        r@ == spec_cl_compile(profile@, texts(include_dirs@), texts(defines@), *opts, compile_as_c),
{
    let mut ret: String = "    <ClCompile>\n".to_owned();
    append_elements(&mut ret, &profile.cl_compile, "      ");
    let ghost before = ret@;
    if compile_as_c {
        if let Some(c_std) = &opts.c_standard {
            ret.append("      <LanguageStandard_C>");
            ret.append(c_std.as_str());
            ret.append("</LanguageStandard_C>\n");
            ret.append("      <CompileAs>CompileAsC</CompileAs>\n");
        }
    } else if let Some(cpp_std) = &opts.cpp_standard {
        ret.append("      <LanguageStandard>");
        ret.append(cpp_std.as_str());
        ret.append("</LanguageStandard>\n");
    }
    assert(ret@ =~= before + standard_lines(*opts, compile_as_c));
    ret.append("      <AdditionalIncludeDirectories>");
    let mut dirs = clone_strings(include_dirs);
    dirs.push("%(AdditionalIncludeDirectories)".to_owned());
    assert(texts(dirs@) =~= texts(include_dirs@) + seq!["%(AdditionalIncludeDirectories)"@]);
    append_prefixed(&mut ret, &dirs, ";");
    ret.append("</AdditionalIncludeDirectories>\n");
    ret.append("      <ConformanceMode>true</ConformanceMode>\n");
    ret.append("      <PreprocessorDefinitions>");
    let mut defs = clone_strings(&profile.preprocessor_definitions);
    extend_strings(&mut defs, defines);
    let ghost d0 = texts(defs@);
    defs.push("%(PreprocessorDefinitions)".to_owned());
    assert(texts(defs@) =~= d0 + seq!["%(PreprocessorDefinitions)"@]);
    append_suffixed(&mut ret, &defs, ";");
    ret.append("</PreprocessorDefinitions>\n");
    ret.append("    </ClCompile>\n");
    ret
}

/// The object format that NASM writes for a platform, or the message
/// that refuses a platform it has none for.
pub open spec fn spec_map_platform_to_nasm_format(platform: Seq<char>) -> Result<
    Seq<char>,
    Seq<char>,
> {
    if platform == "Win32"@ {
        Ok("win32"@)
    } else if platform == "x64"@ {
        Ok("win64"@)
    } else {
        Err("Unknown platform: "@ + platform + ". Known platforms are \"Win32\", \"x64\""@)
    }
}

/// The object format that NASM writes for a platform.
pub fn map_platform_to_nasm_format(platform: &str) -> (r: Result<&'static str, String>)
    ensures
        match spec_map_platform_to_nasm_format(platform@) {
            Ok(v) => r matches Ok(x) && x@ == v,
            Err(e) => r matches Err(m) && m@ == e,
        },
{
    if str_eq(platform, "Win32") {
        Ok("win32")
    } else if str_eq(platform, "x64") {
        Ok("win64")
    } else {
        let mut msg: String = "Unknown platform: ".to_owned();
        msg.append(platform);
        msg.append(". Known platforms are \"Win32\", \"x64\"");
        Err(msg)
    }
}

/// The settings of the assembler.
pub open spec fn spec_nasm_compile(
    profile: ProfileFragmentView,
    platform: Seq<char>,
    include_dirs: Seq<Seq<char>>,
    defines: Seq<Seq<char>>,
) -> Result<Seq<char>, Seq<char>> {
    match spec_map_platform_to_nasm_format(platform) {
        Err(e) => Err(e),
        Ok(format) => Ok(
            "    <NASM>\n"@ + "      <Format>"@ + format + "</Format>\n"@
                + "      <IncludePaths>"@ + join(include_dirs, ";"@) + "</IncludePaths>\n"@
                + "      <Define>"@ + suffixed_all(
                profile.vcxproj.preprocessor_definitions + defines,
                ";"@,
            ) + "%(PreprocessorDefinitions)</Define>\n"@ + "      <AdditionalOptions>"@ + join(
                profile.nasm_assemble_flags,
                " "@,
            ) + "</AdditionalOptions>\n"@ + "    </NASM>\n"@,
        ),
    }
}

/// The settings of the assembler.
pub fn nasm_compile(
    profile: &ProfileFragment,
    platform: &str,
    include_dirs: &Vec<String>,
    defines: &Vec<String>,
) -> (r: Result<String, String>)
    ensures
        match spec_nasm_compile(profile@, platform@, texts(include_dirs@), texts(defines@)) {
            Ok(v) => r matches Ok(x) && x@ == v,
            Err(e) => r matches Err(m) && m@ == e,
        },
{
    let mut ret: String = "    <NASM>\n".to_owned();
    ret.append("      <Format>");
    let format = match map_platform_to_nasm_format(platform) {
        Ok(x) => x,
        Err(e) => {
            return Err(e);
        },
    };
    ret.append(format);
    ret.append("</Format>\n");
    ret.append("      <IncludePaths>");
    let dirs = join_strings(include_dirs, ";");
    ret.append(dirs.as_str());
    ret.append("</IncludePaths>\n");
    ret.append("      <Define>");
    let mut defs = clone_strings(&profile.vcxproj.preprocessor_definitions);
    extend_strings(&mut defs, defines);
    append_suffixed(&mut ret, &defs, ";");
    ret.append("%(PreprocessorDefinitions)</Define>\n");
    ret.append("      <AdditionalOptions>");
    let flags = join_strings(&profile.nasm_assemble_flags, " ");
    ret.append(flags.as_str());
    ret.append("</AdditionalOptions>\n");
    ret.append("    </NASM>\n");
    Ok(ret)
}

/// The settings of the linker; none where the profile has none.
pub open spec fn link_lines(link: Seq<(Seq<char>, Seq<char>)>) -> Seq<char> {
    if link.len() == 0 {
        Seq::empty()
    } else {
        "    <Link>\n"@ + element_lines(link, "      "@) + "    </Link>\n"@
    }
}

/// The settings of one configuration: those of the compiler where there
/// are sources in C or C++, those of the assembler where there are
/// assembly sources, and those of the linker.
pub open spec fn spec_item_definition_group(
    platform: Seq<char>,
    profile_name: Seq<char>,
    profile: ProfileFragmentView,
    sources: SourcesView,
    include_dirs: Seq<Seq<char>>,
    defines: Seq<Seq<char>>,
    opts: Options,
) -> Result<Seq<char>, Seq<char>> {
    let head = "  <ItemDefinitionGroup Condition=\"'$(Configuration)|$(Platform)'=='"@
        + profile_name + "|"@ + platform + "'\">\n"@;
    let compile = if sources.c.len() != 0 || sources.cpp.len() != 0 {
        spec_cl_compile(profile.vcxproj, include_dirs, defines, opts, sources.cpp.len() == 0)
    } else {
        Seq::empty()
    };
    let assemble = if sources.nasm.len() != 0 {
        spec_nasm_compile(profile, platform, include_dirs, defines)
    } else {
        Ok(Seq::empty())
    };
    match assemble {
        Err(e) => Err(e),
        Ok(a) => Ok(
            head + compile + a + link_lines(profile.vcxproj.link) + "  </ItemDefinitionGroup>\n"@,
        ),
    }
}

/// The settings of one configuration.
pub fn item_definition_group(
    platform: &str,
    profile_name: &str,
    profile: &ProfileFragment,
    sources: &Sources,
    include_dirs: &Vec<String>,
    defines: &Vec<String>,
    opts: &Options,
) -> (r: Result<String, String>)
    ensures
        match spec_item_definition_group(
            platform@,
            profile_name@,
            profile@,
            sources@,
            texts(include_dirs@),
            texts(defines@),
            *opts,
        ) {
            Ok(v) => r matches Ok(x) && x@ == v,
            Err(e) => r matches Err(m) && m@ == e,
        },
{
    let mut ret: String =
        "  <ItemDefinitionGroup Condition=\"'$(Configuration)|$(Platform)'=='".to_owned();
    ret.append(profile_name);
    ret.append("|");
    ret.append(platform);
    ret.append("'\">\n");
    let ghost head = ret@;
    if sources.c.len() != 0 || sources.cpp.len() != 0 {
        let text = cl_compile(
            &profile.vcxproj,
            include_dirs,
            defines,
            opts,
            sources.cpp.len() == 0,
        );
        ret.append(text.as_str());
    } else {
        assert(ret@ + Seq::<char>::empty() =~= ret@);
    }
    if sources.nasm.len() != 0 {
        let text = match nasm_compile(profile, platform, include_dirs, defines) {
            Ok(x) => x,
            Err(e) => {
                return Err(e);
            },
        };
        ret.append(text.as_str());
    } else {
        assert(ret@ + Seq::<char>::empty() =~= ret@);
    }
    if profile.vcxproj.link.len() != 0 {
        let ghost before = ret@;
        ret.append("    <Link>\n");
        append_elements(&mut ret, &profile.vcxproj.link, "      ");
        ret.append("    </Link>\n");
        assert(ret@ =~= before + link_lines(profile@.vcxproj.link));
    } else {
        assert(ret@ + Seq::<char>::empty() =~= ret@);
    }
    ret.append("  </ItemDefinitionGroup>\n");
    Ok(ret)
}

} // verus!
