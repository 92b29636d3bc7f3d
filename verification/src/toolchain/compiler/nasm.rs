//! NASM.

use vstd::prelude::*;
use super::Assembler;
use crate::text::texts;
use crate::unique::clone_strings;

verus! {

/// The NASM assembler.
#[derive(Debug)]
pub struct Nasm {
    pub cmd: Vec<String>,
    pub version: String,
}

/// The mathematical value of [`Nasm`].
pub struct NasmView {
    pub cmd: Seq<Seq<char>>,
    pub version: Seq<char>,
}

impl View for Nasm {
    type V = NasmView;

    open spec fn view(&self) -> NasmView {
        NasmView { cmd: texts(self.cmd@), version: self.version@ }
    }
}

impl Assembler for Nasm {
    open spec fn spec_id(&self) -> Seq<char> {
        "nasm"@
    }

    open spec fn spec_version(&self) -> Seq<char> {
        self.version@
    }

    open spec fn spec_cmd(&self) -> Seq<Seq<char>> {
        texts(self.cmd@)
    }

    open spec fn spec_out_flag(&self) -> Seq<char> {
        "-o"@
    }

    open spec fn spec_depfile_flags(&self, out_file: Seq<char>, dep_file: Seq<char>) -> Seq<
        Seq<char>,
    > {
        seq!["-MD"@, dep_file, "-MT"@, out_file]
    }

    fn id(&self) -> (r: String) {
        "nasm".to_owned()
    }

    fn version(&self) -> (r: String) {
        self.version.clone()
    }

    fn cmd(&self) -> (r: Vec<String>) {
        clone_strings(&self.cmd)
    }

    fn out_flag(&self) -> (r: String) {
        "-o".to_owned()
    }

    fn depfile_flags(&self, out_file: &str, dep_file: &str) -> (r: Vec<String>) {
        let mut v: Vec<String> = Vec::new();
        v.push("-MD".to_owned());
        v.push(dep_file.to_owned());
        v.push("-MT".to_owned());
        v.push(out_file.to_owned());
        assert(texts(v@) =~= seq!["-MD"@, dep_file@, "-MT"@, out_file@]);
        v
    }
}

} // verus!
