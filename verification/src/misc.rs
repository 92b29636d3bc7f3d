//! Source files and the paths they are named by.

use vstd::prelude::*;
use crate::text::{
    ends_with, from_chars, str_ends_with, texts, to_chars, trim_start_matches,
    trim_start_matches_in,
};

verus! {

/// A file of a project: where it lies, and the name it was declared under,
/// from which the places of what is built from it are derived.
#[derive(Clone, Debug)]
pub struct SourcePath {
    pub full: String,
    pub name: String,
}

/// The mathematical value of a [`SourcePath`].
pub struct SourcePathView {
    pub full: Seq<char>,
    pub name: Seq<char>,
}

impl View for SourcePath {
    type V = SourcePathView;

    open spec fn view(&self) -> SourcePathView {
        SourcePathView { full: self.full@, name: self.name@ }
    }
}

impl SourcePath {
    /// A copy with the same value.
    pub fn duplicate(&self) -> (r: Self)
        ensures
            r@ == self@,
    {
        SourcePath { full: self.full.clone(), name: self.name.clone() }
    }
}

/// The values of a list of source paths.
pub open spec fn path_views(v: Seq<SourcePath>) -> Seq<SourcePathView> {
    Seq::new(v.len(), |i: int| v[i]@)
}

/// Where each file of a list lies.
pub open spec fn full_paths(v: Seq<SourcePathView>) -> Seq<Seq<char>> {
    Seq::new(v.len(), |i: int| v[i].full)
}

/// The language a source file is written in.
#[derive(Clone, Copy, Debug, PartialEq, Eq, Structural)]
pub enum SourceKind {
    C,
    Cpp,
    Nasm,
}

/// Whether a file of this name is a C source.
pub open spec fn spec_is_c_source(name: Seq<char>) -> bool {
    ends_with(name, ".c"@) || ends_with(name, ".C"@)
}

/// Whether a file of this name is a C++ source.
pub open spec fn spec_is_cpp_source(name: Seq<char>) -> bool {
    ends_with(name, ".cpp"@) || ends_with(name, ".cc"@)
}

/// Whether a file of this name is an assembly source.
pub open spec fn spec_is_nasm_source(name: Seq<char>) -> bool {
    ends_with(name, ".asm"@)
}

/// The language of a file of this name, by its extension; C is tried
/// first, then C++, then assembly.
pub open spec fn classify(name: Seq<char>) -> Option<SourceKind> {
    if spec_is_c_source(name) {
        Some(SourceKind::C)
    } else if spec_is_cpp_source(name) {
        Some(SourceKind::Cpp)
    } else if spec_is_nasm_source(name) {
        Some(SourceKind::Nasm)
    } else {
        None
    }
}

/// Whether a file of this name is a C source.
pub fn is_c_source(src_filename: &str) -> (r: bool)
    ensures
        r == spec_is_c_source(src_filename@),
{
    str_ends_with(src_filename, ".c") || str_ends_with(src_filename, ".C")
}

/// Whether a file of this name is a C++ source.
pub fn is_cpp_source(src_filename: &str) -> (r: bool)
    ensures
        r == spec_is_cpp_source(src_filename@),
{
    str_ends_with(src_filename, ".cpp") || str_ends_with(src_filename, ".cc")
}

/// Whether a file of this name is an assembly source.
pub fn is_nasm_source(src_filename: &str) -> (r: bool)
    ensures
        r == spec_is_nasm_source(src_filename@),
{
    str_ends_with(src_filename, ".asm")
}

/// The language of a file of this name.
pub fn source_kind(src_filename: &str) -> (r: Option<SourceKind>)
    ensures
        r == classify(src_filename@),
{
    if is_c_source(src_filename) {
        Some(SourceKind::C)
    } else if is_cpp_source(src_filename) {
        Some(SourceKind::Cpp)
    } else if is_nasm_source(src_filename) {
        Some(SourceKind::Nasm)
    } else {
        None
    }
}

/// The files of `items` that are written in `kind`, in their order.
pub open spec fn of_kind(items: Seq<SourcePathView>, kind: SourceKind) -> Seq<SourcePathView>
    decreases items.len(),
{
    if items.len() == 0 {
        Seq::empty()
    } else if classify(items.last().name) == Some(kind) {
        of_kind(items.drop_last(), kind).push(items.last())
    } else {
        of_kind(items.drop_last(), kind)
    }
}

/// The position of the first file of `items` whose language is unknown.
pub open spec fn first_unknown(items: Seq<SourcePathView>) -> Option<int>
    decreases items.len(),
{
    if items.len() == 0 {
        None
    } else if first_unknown(items.drop_last()) is Some {
        first_unknown(items.drop_last())
    } else if classify(items.last().name) is None {
        Some(items.len() - 1)
    } else {
        None
    }
}

/// The sources of a target, one ordered list for each language.
#[derive(Clone, Debug)]
pub struct Sources {
    pub c: Vec<SourcePath>,
    pub cpp: Vec<SourcePath>,
    pub nasm: Vec<SourcePath>,
}

/// The mathematical value of [`Sources`].
pub struct SourcesView {
    pub c: Seq<SourcePathView>,
    pub cpp: Seq<SourcePathView>,
    pub nasm: Seq<SourcePathView>,
}

impl SourcesView {
    /// All files: the C sources, then the C++ sources, then the assembly
    /// sources.
    pub open spec fn all(self) -> Seq<SourcePathView> {
        self.c + self.cpp + self.nasm
    }

    /// The lists of `self`, each followed by the list of `other`.
    pub open spec fn extended_with(self, other: SourcesView) -> SourcesView {
        SourcesView {
            c: self.c + other.c,
            cpp: self.cpp + other.cpp,
            nasm: self.nasm + other.nasm,
        }
    }

    /// No sources at all.
    pub open spec fn empty() -> SourcesView {
        SourcesView { c: Seq::empty(), cpp: Seq::empty(), nasm: Seq::empty() }
    }

    /// The files of `items` sorted into the three lists.
    pub open spec fn split(items: Seq<SourcePathView>) -> SourcesView {
        SourcesView {
            c: of_kind(items, SourceKind::C),
            cpp: of_kind(items, SourceKind::Cpp),
            nasm: of_kind(items, SourceKind::Nasm),
        }
    }
}

impl View for Sources {
    type V = SourcesView;

    open spec fn view(&self) -> SourcesView {
        SourcesView {
            c: path_views(self.c@),
            cpp: path_views(self.cpp@),
            nasm: path_views(self.nasm@),
        }
    }
}

/// The message for a file whose language is not known.
pub open spec fn unknown_source_message(name: Seq<char>) -> Seq<char> {
    "Unknown source type: "@ + name
}

/// A copy of a list of source paths.
pub fn clone_paths(items: &Vec<SourcePath>) -> (r: Vec<SourcePath>)
    ensures
        path_views(r@) == path_views(items@),
{
    let mut out: Vec<SourcePath> = Vec::new();
    let mut i: usize = 0;
    while i < items.len()
        invariant
            i <= items@.len(),
            path_views(out@) == path_views(items@).take(i as int),
        decreases items@.len() - i,
    {
        let ghost before = out@;
        out.push(items[i].duplicate());
        i += 1;
        proof {
            assert(path_views(out@) =~= path_views(before).push(items@[i - 1]@));
            assert(path_views(items@).take(i as int) =~= path_views(items@).take(i - 1).push(
                items@[i - 1]@,
            ));
        }
    }
    assert(path_views(items@).take(items@.len() as int) =~= path_views(items@));
    out
}

/// Appends copies of `items` to `acc`.
pub fn extend_paths(acc: &mut Vec<SourcePath>, items: &Vec<SourcePath>)
    ensures
        path_views(final(acc)@) == path_views(old(acc)@) + path_views(items@),
{
    let mut i: usize = 0;
    while i < items.len()
        invariant
            i <= items@.len(),
            path_views(acc@) == path_views(old(acc)@) + path_views(items@).take(i as int),
        decreases items@.len() - i,
    {
        let ghost before = acc@;
        acc.push(items[i].duplicate());
        i += 1;
        proof {
            assert(path_views(acc@) =~= path_views(before).push(items@[i - 1]@));
            assert(path_views(items@).take(i as int) =~= path_views(items@).take(i - 1).push(
                items@[i - 1]@,
            ));
        }
    }
    assert(path_views(items@).take(items@.len() as int) =~= path_views(items@));
}

impl Default for Sources {
    fn default() -> (r: Self)
        ensures
            r@ == SourcesView::empty(),
    {
        let r = Sources { c: Vec::new(), cpp: Vec::new(), nasm: Vec::new() };
        assert(r@.c =~= Seq::empty());
        assert(r@.cpp =~= Seq::empty());
        assert(r@.nasm =~= Seq::empty());
        r
    }
}

impl Sources {
    /// A copy with the same value.
    pub fn duplicate(&self) -> (r: Self)
        ensures
            r@ == self@,
    {
        Sources {
            c: clone_paths(&self.c),
            cpp: clone_paths(&self.cpp),
            nasm: clone_paths(&self.nasm),
        }
    }

    /// All files in turn: the C sources, then the C++ sources, then the
    /// assembly sources.
    pub fn iter(&self) -> (r: Vec<&SourcePath>)
        ensures
            r@.len() == self@.all().len(),
            forall|i: int| 0 <= i < r@.len() ==> (#[trigger] r@[i])@ == self@.all()[i],
    {
        let mut out: Vec<&SourcePath> = Vec::new();
        let mut i: usize = 0;
        while i < self.c.len()
            invariant
                i <= self.c@.len(),
                out@.len() == i,
                forall|k: int| 0 <= k < i ==> (#[trigger] out@[k])@ == self@.c[k],
            decreases self.c@.len() - i,
        {
            out.push(&self.c[i]);
            i += 1;
        }
        let mut j: usize = 0;
        while j < self.cpp.len()
            invariant
                j <= self.cpp@.len(),
                out@.len() == self.c@.len() + j,
                forall|k: int| 0 <= k < self.c@.len() ==> (#[trigger] out@[k])@ == self@.c[k],
                forall|k: int|
                    0 <= k < j ==> (#[trigger] out@[self.c@.len() + k])@ == self@.cpp[k],
            decreases self.cpp@.len() - j,
        {
            out.push(&self.cpp[j]);
            j += 1;
        }
        let mut n: usize = 0;
        while n < self.nasm.len()
            invariant
                n <= self.nasm@.len(),
                out@.len() == self.c@.len() + self.cpp@.len() + n,
                forall|k: int| 0 <= k < self.c@.len() ==> (#[trigger] out@[k])@ == self@.c[k],
                forall|k: int|
                    0 <= k < self.cpp@.len() ==> (#[trigger] out@[self.c@.len() + k])@
                        == self@.cpp[k],
                forall|k: int|
                    0 <= k < n ==> (#[trigger] out@[self.c@.len() + self.cpp@.len() + k])@
                        == self@.nasm[k],
            decreases self.nasm@.len() - n,
        {
            out.push(&self.nasm[n]);
            n += 1;
        }
        proof {
            let all = self@.all();
            assert forall|i: int| 0 <= i < out@.len() implies (#[trigger] out@[i])@ == all[i] by {
                if i < self.c@.len() {
                } else if i < self.c@.len() + self.cpp@.len() {
                    assert(out@[i] == out@[self.c@.len() + (i - self.c@.len())]);
                } else {
                    assert(out@[i] == out@[self.c@.len() + self.cpp@.len() + (i - self.c@.len()
                        - self.cpp@.len())]);
                }
            }
        }
        out
    }

    /// Sorts `sources` by language into the three lists. The first file
    /// whose language is unknown is refused by name.
    pub fn from_slice(sources: Vec<SourcePath>) -> (r: Result<Sources, String>)
        ensures
            match first_unknown(path_views(sources@)) {
                Some(i) => r matches Err(e) && e@ == unknown_source_message(
                    path_views(sources@)[i].name,
                ),
                None => r matches Ok(s) && s@ == SourcesView::split(path_views(sources@)),
            },
    {
        let mut acc = Sources { c: Vec::new(), cpp: Vec::new(), nasm: Vec::new() };
        let ghost all = path_views(sources@);
        let mut i: usize = 0;
        assert(acc@.c =~= of_kind(all.take(0), SourceKind::C));
        assert(acc@.cpp =~= of_kind(all.take(0), SourceKind::Cpp));
        assert(acc@.nasm =~= of_kind(all.take(0), SourceKind::Nasm));
        while i < sources.len()
            invariant
                i <= sources@.len(),
                all == path_views(sources@),
                first_unknown(all.take(i as int)) is None,
                acc@ == SourcesView::split(all.take(i as int)),
            decreases sources@.len() - i,
        {
            let src: SourcePath = sources[i].duplicate();
            let kind = source_kind(src.name.as_str());
            proof {
                assert(all.take(i + 1).drop_last() =~= all.take(i as int));
                assert(all.take(i + 1).last() == sources@[i as int]@);
            }
            match kind {
                Some(SourceKind::C) => {
                    acc.c.push(src);
                    assert(acc@.c =~= of_kind(all.take(i + 1), SourceKind::C));
                },
                Some(SourceKind::Cpp) => {
                    acc.cpp.push(src);
                    assert(acc@.cpp =~= of_kind(all.take(i + 1), SourceKind::Cpp));
                },
                Some(SourceKind::Nasm) => {
                    acc.nasm.push(src);
                    assert(acc@.nasm =~= of_kind(all.take(i + 1), SourceKind::Nasm));
                },
                None => {
                    let mut msg = String::from_str("Unknown source type: ");
                    msg.append(src.name.as_str());
                    proof {
                        lemma_first_unknown_prefix(all, i + 1);
                    }
                    return Err(msg);
                },
            }
            i += 1;
        }
        assert(all.take(sources@.len() as int) =~= all);
        Ok(acc)
    }

    /// The lists of `self`, each followed by the list of `other`.
    pub fn extended_with(&self, other: Sources) -> (r: Sources)
        ensures
            r@ == self@.extended_with(other@),
    {
        let mut r = self.duplicate();
        extend_paths(&mut r.c, &other.c);
        extend_paths(&mut r.cpp, &other.cpp);
        extend_paths(&mut r.nasm, &other.nasm);
        r
    }
}

/// An unknown file among the first `n` is the first unknown file overall.
pub proof fn lemma_first_unknown_prefix(items: Seq<SourcePathView>, n: int)
    requires
        0 <= n <= items.len(),
        first_unknown(items.take(n)) is Some,
    ensures
        first_unknown(items) == first_unknown(items.take(n)),
    decreases items.len() - n,
{
    if n < items.len() {
        assert(items.take(n + 1).drop_last() =~= items.take(n));
        lemma_first_unknown_prefix(items, n + 1);
    } else {
        assert(items.take(n) =~= items);
    }
}

/// Whether `path` starts at a root: `/`, `\`, or a drive such as `C:\`.
/// Paths are texts here and are read alike on every system: a backslash
/// and a drive letter mean what they mean on Windows also where the
/// system at hand would take them for parts of a name.
pub open spec fn spec_is_absolute(path: Seq<char>) -> bool {
    ||| path.len() >= 1 && (path[0] == '/' || path[0] == '\\')
    ||| path.len() >= 3 && path[1] == ':' && (path[2] == '/' || path[2] == '\\')
}

/// `base` extended by `part`. An absolute `part` stands for itself;
/// otherwise the two are put together with one `/` between them, unless
/// `base` is empty or ends with a separator already. Both `/` and `\`
/// count as separators and `X:/` as a root on every system, so for a name
/// that holds a backslash or begins like a drive the result is not what
/// the path type of the standard library gives on a system of the Unix
/// kind.
pub open spec fn spec_join_path(base: Seq<char>, part: Seq<char>) -> Seq<char> {
    if spec_is_absolute(part) {
        part
    } else if base.len() == 0 || base.last() == '/' || base.last() == '\\' {
        base + part
    } else {
        base + "/"@ + part
    }
}

/// The marker that some systems put in front of a path to say that it is
/// to be taken literally.
pub open spec fn verbatim_prefix() -> Seq<char> {
    seq!['\\', '\\', '?', '\\']
}

/// `path` without the marker for a literal path in front of it.
pub open spec fn spec_strip_verbatim(path: Seq<char>) -> Seq<char> {
    trim_start_matches(path, verbatim_prefix())
}

/// Whether `path` starts at a root.
pub fn is_absolute(path: &Vec<char>) -> (r: bool)
    ensures
        r == spec_is_absolute(path@),
{
    if path.len() >= 1 && (path[0] == '/' || path[0] == '\\') {
        return true;
    }
    path.len() >= 3 && path[1] == ':' && (path[2] == '/' || path[2] == '\\')
}

/// `base` extended by `part`.
pub fn join_path(base: &str, part: &str) -> (r: String)
    ensures
        r@ == spec_join_path(base@, part@),
{
    let part_chars = to_chars(part);
    if is_absolute(&part_chars) {
        return part.to_owned();
    }
    let base_chars = to_chars(base);
    let mut out: String = base.to_owned();
    let n: usize = base_chars.len();
    if n > 0 && base_chars[n - 1] != '/' && base_chars[n - 1] != '\\' {
        proof {
            reveal_strlit("/");
        }
        out.append("/");
    }
    out.append(part);
    out
}

/// `path` without the marker for a literal path in front of it.
pub fn strip_verbatim(path: &str) -> (r: String)
    ensures
        r@ == spec_strip_verbatim(path@),
{
    let chars = to_chars(path);
    let mut prefix: Vec<char> = Vec::new();
    prefix.push('\\');
    prefix.push('\\');
    prefix.push('?');
    prefix.push('\\');
    assert(prefix@ =~= verbatim_prefix());
    let out = trim_start_matches_in(&chars, &prefix);
    from_chars(&out)
}


/// Where each file of `items` lies.
pub fn full_path_list(items: &Vec<SourcePath>) -> (r: Vec<String>)
    ensures
        texts(r@) == full_paths(path_views(items@)),
{
    let mut out: Vec<String> = Vec::new();
    let mut i: usize = 0;
    while i < items.len()
        invariant
            i <= items@.len(),
            texts(out@) == full_paths(path_views(items@)).take(i as int),
        decreases items@.len() - i,
    {
        let ghost before = out@;
        out.push(items[i].full.clone());
        i += 1;
        proof {
            assert(texts(out@) =~= texts(before).push(items@[i - 1].full@));
            assert(full_paths(path_views(items@)).take(i as int) =~= full_paths(
                path_views(items@),
            ).take(i - 1).push(items@[i - 1].full@));
        }
    }
    assert(full_paths(path_views(items@)).take(items@.len() as int) =~= full_paths(
        path_views(items@),
    ));
    out
}

/// The path of a file that was declared as `x` in a project rooted at
/// `parent_path`. `resolved` is where the file system says the file lies;
/// where it could not say, the file is taken to lie at `parent_path`
/// extended by `x`.
pub fn join_parent(parent_path: &str, x: &str, resolved: Option<String>) -> (r: SourcePath)
    ensures
        r@.name == x@,
        r@.full == match resolved {
            Some(p) => p@,
            None => spec_join_path(parent_path@, x@),
        },
{
    match resolved {
        Some(p) => SourcePath { full: p, name: x.to_owned() },
        None => SourcePath { full: join_path(parent_path, x), name: x.to_owned() },
    }
}

} // verus!
