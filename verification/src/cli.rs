//! What is decided of the words of the command line.

use vstd::prelude::*;
use crate::generator::Generator;
use crate::text::{find_char, find_char_in, from_char_range, lemma_find_char_from, str_eq, to_chars};
use crate::toolchain::{profile_position, Profile, ProfileView, Toolchain};

verus! {

/// The message for a package option that is not of the form
/// `<package name>:<package option>=<value>`.
pub open spec fn invalid_package_option_message() -> Seq<char> {
    "Invalid package-option. Option must be specified as <package name>:<package option>=<value>"@
}

/// A package option in its parts.
#[derive(Clone, Debug)]
pub struct PackageOption {
    pub package: String,
    pub option: String,
    pub value: String,
}

/// The parts of a package option: the package before the first colon,
/// the option between that colon and the first equals sign behind it, and
/// the value behind that.
pub open spec fn spec_parse_package_option(s: Seq<char>) -> Option<
    (Seq<char>, Seq<char>, Seq<char>),
> {
    match find_char(s, ':') {
        None => None,
        Some(i) => {
            let rest = s.skip(i + 1);
            match find_char(rest, '=') {
                None => None,
                Some(j) => Some((s.take(i), rest.take(j), rest.skip(j + 1))),
            }
        },
    }
}

/// The parts of a package option.
pub fn parse_package_option(pkg_opt: &str) -> (r: Result<PackageOption, String>)
    ensures
        match spec_parse_package_option(pkg_opt@) {
            Some((package, option, value)) => r matches Ok(x) && x.package@ == package
                && x.option@ == option && x.value@ == value,
            None => r matches Err(m) && m@ == invalid_package_option_message(),
        },
{
    let chars = to_chars(pkg_opt);
    proof {
        lemma_find_char_from(chars@, ':', 0);
    }
    let i = match find_char_in(&chars, ':', 0) {
        Some(i) => i,
        None => {
            return Err(
                "Invalid package-option. Option must be specified as <package name>:<package option>=<value>".to_owned(),
            );
        },
    };
    let ghost rest = chars@.skip(i + 1);
    proof {
        crate::toolchain::compiler::identify::lemma_find_char_skip(chars@, '=', i + 1);
        lemma_find_char_from(chars@, '=', i + 1);
    }
    let j = match find_char_in(&chars, '=', i + 1) {
        Some(j) => j,
        None => {
            return Err(
                "Invalid package-option. Option must be specified as <package name>:<package option>=<value>".to_owned(),
            );
        },
    };
    let package = from_char_range(&chars, 0, i);
    let option = from_char_range(&chars, i + 1, j);
    let value = from_char_range(&chars, j + 1, chars.len());
    proof {
        assert(package@ =~= chars@.take(i as int));
        assert(option@ =~= rest.take(j - (i + 1)));
        assert(value@ =~= rest.skip(j - (i + 1) + 1));
    }
    Ok(PackageOption { package, option, value })
}

/// The message for a name that is no generator.
pub open spec fn invalid_generator_message(name: Seq<char>) -> Seq<char> {
    "Error: Not a valid generator '"@ + name + "'"@
}

/// The generator of a name.
pub fn parse_generator(name: &str) -> (r: Result<Generator, String>)
    ensures
        name@ == "Ninja"@ ==> r == Ok::<Generator, String>(Generator::Ninja),
        name@ != "Ninja"@ && name@ == "MSVC"@ ==> r == Ok::<Generator, String>(Generator::Msvc),
        name@ != "Ninja"@ && name@ != "MSVC"@ ==> (r matches Err(m) && m@
            == invalid_generator_message(name@)),
{
    if str_eq(name, "Ninja") {
        Ok(Generator::Ninja)
    } else if str_eq(name, "MSVC") {
        Ok(Generator::Msvc)
    } else {
        let mut msg: String = "Error: Not a valid generator '".to_owned();
        msg.append(name);
        msg.append("'");
        Err(msg)
    }
}

/// The profile that a run uses: the one that was asked for, which the
/// toolchain has to provide and which the Visual Studio generator does
/// not take; without a wish the profile without flags.
pub open spec fn spec_select_profile(
    toolchain: &Toolchain,
    wish: Option<Seq<char>>,
    generator: Generator,
) -> Result<ProfileView, Seq<char>> {
    match wish {
        None => Ok(
            ProfileView {
                c_compile_flags: Seq::empty(),
                cpp_compile_flags: Seq::empty(),
                nasm_assemble_flags: Seq::empty(),
                vcxproj: None,
            },
        ),
        Some(name) => if generator == Generator::Msvc {
            Err("--profile is incompatible with MSVC generator"@)
        } else {
            match profile_position(toolchain.profile@, name) {
                Some(i) => Ok(toolchain.profile@[i].1@),
                None => Err("Selected profile is not provided by toolchain"@),
            }
        },
    }
}

/// The profile that a run uses.
pub fn select_profile(toolchain: &Toolchain, wish: &Option<String>, generator: Generator) -> (r:
    Result<Profile, String>)
    ensures
        match spec_select_profile(
            toolchain,
            crate::toolchain::compiler::option_text(*wish),
            generator,
        ) {
            Ok(v) => r matches Ok(x) && x@ == v,
            Err(e) => r matches Err(m) && m@ == e,
        },
{
    match wish {
        None => {
            let p = Profile::default();
            Ok(p)
        },
        Some(name) => {
            if let Generator::Msvc = generator {
                return Err("--profile is incompatible with MSVC generator".to_owned());
            }
            match toolchain.find_profile(name.as_str()) {
                Some(p) => Ok(p.duplicate()),
                None => Err("Selected profile is not provided by toolchain".to_owned()),
            }
        },
    }
}

} // verus!
