//! What a target's generator function adds to its declaration.

use vstd::prelude::*;
use crate::misc::{path_views, SourcePath, SourcePathView};
use crate::text::texts;

verus! {

/// The additions that a target's generator function computed for one run:
/// further sources, header directories, definitions and linker flags.
#[derive(Clone, Debug)]
pub struct GeneratorVars {
    pub sources: Vec<SourcePath>,
    pub include_dirs: Vec<SourcePath>,
    pub defines: Vec<String>,
    pub link_flags: Vec<String>,
}

/// The mathematical value of [`GeneratorVars`].
pub struct GeneratorVarsView {
    pub sources: Seq<SourcePathView>,
    pub include_dirs: Seq<SourcePathView>,
    pub defines: Seq<Seq<char>>,
    pub link_flags: Seq<Seq<char>>,
}

impl GeneratorVarsView {
    /// No additions.
    pub open spec fn empty() -> GeneratorVarsView {
        GeneratorVarsView {
            sources: Seq::empty(),
            include_dirs: Seq::empty(),
            defines: Seq::empty(),
            link_flags: Seq::empty(),
        }
    }
}

impl View for GeneratorVars {
    type V = GeneratorVarsView;

    open spec fn view(&self) -> GeneratorVarsView {
        GeneratorVarsView {
            sources: path_views(self.sources@),
            include_dirs: path_views(self.include_dirs@),
            defines: texts(self.defines@),
            link_flags: texts(self.link_flags@),
        }
    }
}

/// The additions of a target: those that were computed for it, or none
/// where it declares no generator function.
pub open spec fn vars_or_empty(vars: Option<GeneratorVars>) -> GeneratorVarsView {
    match vars {
        Some(v) => v@,
        None => GeneratorVarsView::empty(),
    }
}

impl Default for GeneratorVars {
    fn default() -> (r: Self)
        ensures
            r@ == GeneratorVarsView::empty(),
    {
        let r = GeneratorVars {
            sources: Vec::new(),
            include_dirs: Vec::new(),
            defines: Vec::new(),
            link_flags: Vec::new(),
        };
        assert(r@.sources =~= Seq::empty());
        assert(r@.include_dirs =~= Seq::empty());
        assert(r@.defines =~= Seq::empty());
        assert(r@.link_flags =~= Seq::empty());
        r
    }
}

} // verus!
