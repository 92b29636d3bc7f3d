//! The property sheets that tell Visual Studio how to assemble.

use vstd::prelude::*;
use crate::text::{join, join_strings, texts};

verus! {

/// Every word between double quotes.
pub open spec fn quoted(cmd: Seq<Seq<char>>) -> Seq<Seq<char>> {
    Seq::new(cmd.len(), |i: int| "\""@ + cmd[i] + "\""@)
}

/// The command that starts the assembler, as the property sheet names
/// it: every word between double quotes, a blank between the words.
pub open spec fn spec_nasm_command(cmd: Seq<Seq<char>>) -> Seq<char> {
    join(quoted(cmd), " "@)
}

/// The sheet `nasm.props`: it names the command that starts the
/// assembler.
pub open spec fn spec_nasm_props(cmd: Seq<Seq<char>>) -> Seq<char> {
    "<?xml version=\"1.0\" encoding=\"utf-8\"?>\n<Project xmlns=\"http://schemas.microsoft.com/developer/msbuild/2003\">\n  <PropertyGroup>\n    <NasmCommand>"@
        + spec_nasm_command(cmd) + "</NasmCommand>\n  </PropertyGroup>\n</Project>\n"@
}

/// The sheet `nasm.xml`: it makes assembly sources a kind of item.
pub open spec fn spec_nasm_xml() -> Seq<char> {
    "<?xml version=\"1.0\" encoding=\"utf-8\"?>\n<ProjectSchemaDefinitions xmlns=\"clr-namespace:Microsoft.Build.Framework.XamlTypes;assembly=Microsoft.Build.Framework\">\n  <ItemType Name=\"NASM\" DisplayName=\"Netwide Assembler\" />\n  <FileExtension Name=\"*.asm\" ContentType=\"NASM\" />\n  <ContentType Name=\"NASM\" DisplayName=\"Netwide Assembler\" ItemType=\"NASM\" />\n</ProjectSchemaDefinitions>\n"@
}

/// The sheet `nasm.targets`: it says how an assembly source is built.
pub open spec fn spec_nasm_targets() -> Seq<char> {
    "<?xml version=\"1.0\" encoding=\"utf-8\"?>\n<Project xmlns=\"http://schemas.microsoft.com/developer/msbuild/2003\">\n  <ItemGroup>\n    <PropertyPageSchema Include=\"$(MSBuildThisFileDirectory)nasm.xml\" />\n    <AvailableItemName Include=\"NASM\">\n      <Targets>NASM</Targets>\n    </AvailableItemName>\n  </ItemGroup>\n  <Target Name=\"NASM\" BeforeTargets=\"ClCompile\" Inputs=\"@(NASM)\" Outputs=\"@(NASM->'$(IntDir)%(Filename).obj')\">\n    <Exec Command=\"$(NasmCommand) -f %(NASM.Format) %(NASM.AdditionalOptions) -o &quot;$(IntDir)%(NASM.Filename).obj&quot; &quot;%(NASM.FullPath)&quot;\" />\n  </Target>\n</Project>\n"@
}

/// The command that starts the assembler, as the property sheet names
/// it.
pub fn nasm_command(nasm_cmd: &Vec<String>) -> (r: String)
    ensures
        r@ == spec_nasm_command(texts(nasm_cmd@)),
{
    let mut mapped: Vec<String> = Vec::new();
    let mut i: usize = 0;
    while i < nasm_cmd.len()
        invariant
            i <= nasm_cmd@.len(),
            texts(mapped@) == quoted(texts(nasm_cmd@)).take(i as int),
        decreases nasm_cmd@.len() - i,
    {
        let ghost before = mapped@;
        let mut word: String = "\"".to_owned();
        word.append(nasm_cmd[i].as_str());
        word.append("\"");
        mapped.push(word);
        i += 1;
        proof {
            let all = quoted(texts(nasm_cmd@));
            assert(texts(mapped@) =~= texts(before).push(all[i - 1]));
            assert(all.take(i as int) =~= all.take(i - 1).push(all[i - 1]));
        }
    }
    assert(quoted(texts(nasm_cmd@)).take(nasm_cmd@.len() as int) =~= quoted(texts(nasm_cmd@)));
    join_strings(&mapped, " ")
}

/// The sheet `nasm.props` for the assembler that is started by
/// `nasm_cmd`.
pub fn nasm_props_content(nasm_cmd: &Vec<String>) -> (r: String)
    ensures
        r@ == spec_nasm_props(texts(nasm_cmd@)),
{
    let mut out: String =
        "<?xml version=\"1.0\" encoding=\"utf-8\"?>\n<Project xmlns=\"http://schemas.microsoft.com/developer/msbuild/2003\">\n  <PropertyGroup>\n    <NasmCommand>".to_owned();
    out.append(nasm_command(nasm_cmd).as_str());
    out.append("</NasmCommand>\n  </PropertyGroup>\n</Project>\n");
    out
}

/// The sheet `nasm.xml`.
pub fn nasm_xml_content() -> (r: &'static str)
    ensures
        r@ == spec_nasm_xml(),
{
    "<?xml version=\"1.0\" encoding=\"utf-8\"?>\n<ProjectSchemaDefinitions xmlns=\"clr-namespace:Microsoft.Build.Framework.XamlTypes;assembly=Microsoft.Build.Framework\">\n  <ItemType Name=\"NASM\" DisplayName=\"Netwide Assembler\" />\n  <FileExtension Name=\"*.asm\" ContentType=\"NASM\" />\n  <ContentType Name=\"NASM\" DisplayName=\"Netwide Assembler\" ItemType=\"NASM\" />\n</ProjectSchemaDefinitions>\n"
}

/// The sheet `nasm.targets`.
pub fn nasm_targets_content() -> (r: &'static str)
    ensures
        r@ == spec_nasm_targets(),
{
    "<?xml version=\"1.0\" encoding=\"utf-8\"?>\n<Project xmlns=\"http://schemas.microsoft.com/developer/msbuild/2003\">\n  <ItemGroup>\n    <PropertyPageSchema Include=\"$(MSBuildThisFileDirectory)nasm.xml\" />\n    <AvailableItemName Include=\"NASM\">\n      <Targets>NASM</Targets>\n    </AvailableItemName>\n  </ItemGroup>\n  <Target Name=\"NASM\" BeforeTargets=\"ClCompile\" Inputs=\"@(NASM)\" Outputs=\"@(NASM->'$(IntDir)%(Filename).obj')\">\n    <Exec Command=\"$(NasmCommand) -f %(NASM.Format) %(NASM.AdditionalOptions) -o &quot;$(IntDir)%(NASM.Filename).obj&quot; &quot;%(NASM.FullPath)&quot;\" />\n  </Target>\n</Project>\n"
}

} // verus!
