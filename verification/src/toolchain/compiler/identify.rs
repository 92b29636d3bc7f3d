//! Telling tools apart by what they print about themselves.

use vstd::prelude::*;
use super::clang::{Clang, ClangView};
use super::emscripten::{Emscripten, EmscriptenView};
use super::gcc::{Gcc, GccView};
use crate::text::{
    contains, find, find_char, find_char_from, find_char_in, find_in, from_char_range,
    is_whitespace, lemma_find_char_from, lemma_find_from, matches_at, occurs_at, starts_with,
    texts, to_chars, unicode_whitespace,
};
use crate::unique::clone_strings;

verus! {

/// `line` without one carriage return at its end.
pub open spec fn strip_cr(line: Seq<char>) -> Seq<char> {
    if line.len() > 0 && line.last() == '\r' {
        line.drop_last()
    } else {
        line
    }
}

/// The lines of `s`. A line ends with a line feed, which may follow a
/// carriage return; neither belongs to the line. What follows the last
/// line feed is a line unless it is empty.
pub open spec fn lines_of(s: Seq<char>) -> Seq<Seq<char>>
    decreases s.len(),
{
    if s.len() == 0 {
        Seq::empty()
    } else {
        match find_char(s, '\n') {
            Some(i) => if 0 <= i < s.len() {
                seq![strip_cr(s.take(i))] + lines_of(s.skip(i + 1))
            } else {
                seq![s]
            },
            None => seq![s],
        }
    }
}

/// Searching from `from` on is searching what is left from `from` on.
pub proof fn lemma_find_char_skip(s: Seq<char>, c: char, from: int)
    requires
        0 <= from <= s.len(),
    ensures
        find_char_from(s, c, from) == match find_char(s.skip(from), c) {
            Some(i) => Some(i + from),
            None => None,
        },
{
    lemma_find_char_from(s, c, from);
    lemma_find_char_from(s.skip(from), c, 0);
    match find_char_from(s, c, from) {
        Some(i) => {
            assert(s.skip(from)[i - from] == c);
            match find_char(s.skip(from), c) {
                Some(j) => {
                    assert(s.skip(from)[j] == s[j + from]);
                    if j + from < i {
                        assert(s[j + from] != c);
                    }
                    if i < j + from {
                        assert(s.skip(from)[i - from] != c);
                    }
                },
                None => {},
            }
        },
        None => {
            match find_char(s.skip(from), c) {
                Some(j) => {
                    assert(s.skip(from)[j] == s[j + from]);
                },
                None => {},
            }
        },
    }
}

/// The lines of `text`.
pub fn split_lines(text: &str) -> (r: Vec<String>)
    ensures
        texts(r@) == lines_of(text@),
{
    let chars = to_chars(text);
    let mut out: Vec<String> = Vec::new();
    let mut start: usize = 0;
    assert(chars@.skip(0) =~= chars@);
    assert(texts(out@) + lines_of(chars@.skip(0)) =~= lines_of(chars@));
    while start < chars.len()
        invariant
            start <= chars@.len(),
            texts(out@) + lines_of(chars@.skip(start as int)) == lines_of(chars@),
        decreases chars@.len() - start,
    {
        let ghost rest = chars@.skip(start as int);
        let ghost before = out@;
        proof {
            lemma_find_char_skip(chars@, '\n', start as int);
            lemma_find_char_from(rest, '\n', 0);
        }
        match find_char_in(&chars, '\n', start) {
            Some(i) => {
                let end: usize = if i > start && chars[i - 1] == '\r' {
                    i - 1
                } else {
                    i
                };
                let line = from_char_range(&chars, start, end);
                proof {
                    let raw = rest.take(i - start);
                    assert(raw =~= chars@.subrange(start as int, i as int));
                    if raw.len() > 0 {
                        assert(raw.last() == chars@[i - 1]);
                    }
                    assert(line@ =~= strip_cr(raw));
                    assert(rest.skip(i - start + 1) =~= chars@.skip(i + 1));
                }
                out.push(line);
                assert(texts(out@) =~= texts(before) + seq![line@]);
                start = i + 1;
            },
            None => {
                let line = from_char_range(&chars, start, chars.len());
                assert(line@ =~= rest);
                out.push(line);
                assert(texts(out@) =~= texts(before) + seq![line@]);
                start = chars.len();
                assert(chars@.skip(start as int) =~= Seq::empty());
            },
        }
    }
    assert(chars@.skip(start as int) =~= Seq::empty());
    assert(texts(out@) + Seq::<Seq<char>>::empty() =~= texts(out@));
    out
}

/// What follows the first occurrence of `marker` in `line`, up to the
/// next blank.
pub open spec fn spec_find_version(line: Seq<char>, marker: Seq<char>) -> Seq<char> {
    let bgn = find(line, marker)->0 + marker.len();
    let rest = line.skip(bgn);
    match find_char(rest, ' ') {
        Some(offset) => rest.take(offset),
        None => rest,
    }
}

/// What stands in `s` from `bgn` up to the next blank.
pub open spec fn word_at(s: Seq<char>, bgn: int) -> Seq<char> {
    let rest = s.skip(bgn);
    match find_char(rest, ' ') {
        Some(offset) => rest.take(offset),
        None => rest,
    }
}

/// What stands in `chars` from `bgn` up to the next blank.
pub fn take_word(chars: &Vec<char>, bgn: usize) -> (r: String)
    requires
        bgn <= chars@.len(),
    ensures
        r@ == word_at(chars@, bgn as int),
{
    proof {
        lemma_find_char_skip(chars@, ' ', bgn as int);
        lemma_find_char_from(chars@, ' ', bgn as int);
    }
    match find_char_in(chars, ' ', bgn) {
        Some(e) => {
            let v = from_char_range(chars, bgn, e);
            assert(v@ =~= chars@.skip(bgn as int).take(e - bgn));
            v
        },
        None => {
            let v = from_char_range(chars, bgn, chars.len());
            assert(v@ =~= chars@.skip(bgn as int));
            v
        },
    }
}

/// The version that `line` names behind `ver_str`.
pub fn find_version(line: &str, ver_str: &str) -> (r: String)
    requires
        contains(line@, ver_str@),
    ensures
        r@ == spec_find_version(line@, ver_str@),
{
    let chars = to_chars(line);
    let marker = to_chars(ver_str);
    match find_in(&chars, &marker, 0) {
        Some(p) => take_word(&chars, p + marker.len()),
        None => vstd::pervasive::unreached(),
    }
}

/// The position of the first line that begins with `prefix`.
pub open spec fn first_starting(lines: Seq<Seq<char>>, prefix: Seq<char>) -> Option<int>
    decreases lines.len(),
{
    if lines.len() == 0 {
        None
    } else if first_starting(lines.drop_last(), prefix) is Some {
        first_starting(lines.drop_last(), prefix)
    } else if starts_with(lines.last(), prefix) {
        Some(lines.len() - 1)
    } else {
        None
    }
}

/// A line found among the first `n` is the first such line overall.
pub proof fn lemma_first_starting_prefix(lines: Seq<Seq<char>>, prefix: Seq<char>, n: int)
    requires
        0 <= n <= lines.len(),
        first_starting(lines.take(n), prefix) is Some,
    ensures
        first_starting(lines, prefix) == first_starting(lines.take(n), prefix),
    decreases lines.len() - n,
{
    if n < lines.len() {
        assert(lines.take(n + 1).drop_last() =~= lines.take(n));
        lemma_first_starting_prefix(lines, prefix, n + 1);
    } else {
        assert(lines.take(n) =~= lines);
    }
}

/// The position of the first line that begins with `prefix`.
pub fn find_line(lines: &Vec<String>, prefix: &str) -> (r: Option<usize>)
    ensures
        match r {
            Some(k) => first_starting(texts(lines@), prefix@) == Some(k as int) && k
                < lines@.len() && starts_with(lines@[k as int]@, prefix@),
            None => first_starting(texts(lines@), prefix@) is None,
        },
{
    let ghost all = texts(lines@);
    let pat = to_chars(prefix);
    let mut i: usize = 0;
    while i < lines.len()
        invariant
            i <= lines@.len(),
            all == texts(lines@),
            pat@ == prefix@,
            first_starting(all.take(i as int), prefix@) is None,
        decreases lines@.len() - i,
    {
        proof {
            assert(all.take(i + 1).drop_last() =~= all.take(i as int));
            assert(all.take(i + 1).last() == lines@[i as int]@);
        }
        let chars = to_chars(lines[i].as_str());
        if matches_at(&chars, &pat, 0) {
            proof {
                lemma_first_starting_prefix(all, prefix@, i + 1);
            }
            return Some(i);
        }
        i += 1;
    }
    assert(all.take(all.len() as int) =~= all);
    None
}

/// The marker of a line that names the target triple.
pub open spec fn target_prefix() -> Seq<char> {
    "Target: "@
}

/// The message for output that names no target triple.
pub open spec fn no_target_message() -> Seq<char> {
    "Could not find \""@ + target_prefix() + "\" in compiler output"@
}

/// The target triple that the output names: what follows the marker on
/// the first line that begins with it.
pub open spec fn spec_find_target(lines: Seq<Seq<char>>) -> Result<Seq<char>, Seq<char>> {
    match first_starting(lines, target_prefix()) {
        Some(i) => Ok(lines[i].skip(target_prefix().len() as int)),
        None => Err(no_target_message()),
    }
}

/// The target triple that the output names.
pub fn find_target(lines: &Vec<String>) -> (r: Result<String, String>)
    ensures
        match spec_find_target(texts(lines@)) {
            Ok(v) => r matches Ok(x) && x@ == v,
            Err(e) => r matches Err(m) && m@ == e,
        },
{
    match find_line(lines, "Target: ") {
        Some(i) => {
            let chars = to_chars(lines[i].as_str());
            let prefix = to_chars("Target: ");
            assert(texts(lines@)[i as int] == lines@[i as int]@);
            let v = from_char_range(&chars, prefix.len(), chars.len());
            assert(v@ =~= chars@.skip(prefix@.len() as int));
            Ok(v)
        },
        None => {
            let mut msg: String = "Could not find \"".to_owned();
            msg.append("Target: ");
            msg.append("\" in compiler output");
            Err(msg)
        },
    }
}

/// The marker of clang.
pub open spec fn clang_id() -> Seq<char> {
    "clang version "@
}

/// The marker of gcc.
pub open spec fn gcc_id() -> Seq<char> {
    "gcc version "@
}

/// The marker of the Emscripten compiler.
pub open spec fn emscripten_id() -> Seq<char> {
    "emcc "@
}

/// The marker of NASM.
pub open spec fn nasm_id() -> Seq<char> {
    "NASM version "@
}

/// Whether the first line is that of clang: it begins with the marker,
/// or holds the marker behind a blank.
pub open spec fn is_clang_banner(first_line: Seq<char>) -> bool {
    starts_with(first_line, clang_id()) || contains(first_line, " "@ + clang_id())
}

/// What the output says of clang: nothing where the first line is not
/// that of clang; else the version behind the marker and the target
/// triple, which has to be named.
pub open spec fn spec_identify_clang(
    first_line: Seq<char>,
    lines: Seq<Seq<char>>,
    cmd: Seq<Seq<char>>,
) -> Result<Option<ClangView>, Seq<char>> {
    if !is_clang_banner(first_line) {
        Ok(None)
    } else {
        match spec_find_target(lines) {
            Err(e) => Err(e),
            Ok(target) => Ok(
                Some(
                    ClangView {
                        cmd,
                        version: spec_find_version(first_line, clang_id()),
                        target,
                        target_windows: contains(target, "-windows-"@),
                    },
                ),
            ),
        }
    }
}

/// A pattern that stands somewhere in a text is found in it.
pub proof fn lemma_occurs_found(s: Seq<char>, pat: Seq<char>, at: int)
    requires
        occurs_at(s, pat, at),
    ensures
        contains(s, pat),
{
    lemma_find_from(s, pat, 0);
}

/// What stands behind a blank in a text stands in the text.
pub proof fn lemma_behind_blank(s: Seq<char>, pat: Seq<char>)
    requires
        contains(s, " "@ + pat),
    ensures
        contains(s, pat),
{
    reveal_strlit(" ");
    let whole = " "@ + pat;
    lemma_find_from(s, whole, 0);
    let p = find(s, whole)->0;
    assert(occurs_at(s, whole, p));
    assert(s.subrange(p + 1, p + 1 + pat.len()) =~= whole.subrange(1, whole.len() as int)) by {
        assert(s.subrange(p, p + whole.len()) == whole);
        assert forall|k: int| 0 <= k < pat.len() implies s.subrange(p + 1, p + 1 + pat.len())[k]
            == whole.subrange(1, whole.len() as int)[k] by {
            assert(s.subrange(p, p + whole.len())[k + 1] == s[p + k + 1]);
        }
    }
    assert(whole.subrange(1, whole.len() as int) =~= pat);
    assert(occurs_at(s, pat, p + 1));
    lemma_occurs_found(s, pat, p + 1);
}

/// Says whether the output is that of clang, and if so which clang.
pub fn identify_clang(first_line: &str, lines: &Vec<String>, cmd: &Vec<String>) -> (r: Result<
    Option<Clang>,
    String,
>)
    ensures
        match spec_identify_clang(first_line@, texts(lines@), texts(cmd@)) {
            Ok(Some(v)) => r matches Ok(Some(x)) && x@ == v,
            Ok(None) => r matches Ok(None),
            Err(e) => r matches Err(m) && m@ == e,
        },
{
    let line = to_chars(first_line);
    let id = to_chars("clang version ");
    let mut spaced: Vec<char> = Vec::new();
    spaced.push(' ');
    let mut k: usize = 0;
    proof {
        reveal_strlit(" ");
        assert(spaced@ =~= " "@);
    }
    while k < id.len()
        invariant
            k <= id@.len(),
            spaced@ == " "@ + id@.take(k as int),
        decreases id@.len() - k,
    {
        spaced.push(id[k]);
        k += 1;
        assert(spaced@ =~= " "@ + id@.take(k as int));
    }
    assert(id@.take(id@.len() as int) =~= id@);
    if !matches_at(&line, &id, 0) && find_in(&line, &spaced, 0).is_none() {
        return Ok(None);
    }
    proof {
        if starts_with(first_line@, clang_id()) {
            lemma_occurs_found(first_line@, clang_id(), 0);
        } else {
            lemma_behind_blank(first_line@, clang_id());
        }
    }
    let version = find_version(first_line, "clang version ");
    let target = match find_target(lines) {
        Ok(x) => x,
        Err(e) => {
            return Err(e);
        },
    };
    let target_windows = crate::text::str_contains(target.as_str(), "-windows-");
    Ok(Some(Clang { cmd: clone_strings(cmd), version, target, target_windows }))
}

/// What the output says of gcc: nothing where no line begins with the
/// marker; else the version behind the marker on the first such line and
/// the target triple, which has to be named.
pub open spec fn spec_identify_gcc(lines: Seq<Seq<char>>, cmd: Seq<Seq<char>>) -> Result<
    Option<GccView>,
    Seq<char>,
> {
    match first_starting(lines, gcc_id()) {
        None => Ok(None),
        Some(i) => match spec_find_target(lines) {
            Err(e) => Err(e),
            Ok(target) => Ok(
                Some(GccView { cmd, version: spec_find_version(lines[i], gcc_id()), target }),
            ),
        },
    }
}

/// Says whether the output is that of gcc, and if so which gcc.
pub fn identify_gcc(lines: &Vec<String>, cmd: &Vec<String>) -> (r: Result<Option<Gcc>, String>)
    ensures
        match spec_identify_gcc(texts(lines@), texts(cmd@)) {
            Ok(Some(v)) => r matches Ok(Some(x)) && x@ == v,
            Ok(None) => r matches Ok(None),
            Err(e) => r matches Err(m) && m@ == e,
        },
{
    match find_line(lines, "gcc version ") {
        Some(i) => {
            proof {
                assert(texts(lines@)[i as int] == lines@[i as int]@);
                lemma_occurs_found(lines@[i as int]@, gcc_id(), 0);
            }
            let version = find_version(lines[i].as_str(), "gcc version ");
            let target = match find_target(lines) {
                Ok(x) => x,
                Err(e) => {
                    return Err(e);
                },
            };
            Ok(Some(Gcc { cmd: clone_strings(cmd), version, target }))
        },
        None => Ok(None),
    }
}

/// The position of the first character of `s` that is no white space.
pub open spec fn first_solid(s: Seq<char>) -> Option<int>
    decreases s.len(),
{
    if s.len() == 0 {
        None
    } else if first_solid(s.drop_last()) is Some {
        first_solid(s.drop_last())
    } else if !unicode_whitespace(s.last()) {
        Some(s.len() - 1)
    } else {
        None
    }
}

/// A solid character among the first `n` is the first one overall.
pub proof fn lemma_first_solid_prefix(s: Seq<char>, n: int)
    requires
        0 <= n <= s.len(),
        first_solid(s.take(n)) is Some,
    ensures
        first_solid(s) == first_solid(s.take(n)),
    decreases s.len() - n,
{
    if n < s.len() {
        assert(s.take(n + 1).drop_last() =~= s.take(n));
        lemma_first_solid_prefix(s, n + 1);
    } else {
        assert(s.take(n) =~= s);
    }
}

/// Where the version begins on the first line of the Emscripten
/// compiler: behind the first closing bracket, or behind the marker where
/// there is no bracket, white space passed over.
pub open spec fn emscripten_version_start(line: Seq<char>) -> int {
    let close = match find_char(line, ')') {
        Some(i) => i + 1,
        None => emscripten_id().len() as int,
    };
    close + match first_solid(line.skip(close)) {
        Some(k) => k,
        None => 0,
    }
}

/// What the output says of the Emscripten compiler: nothing where the
/// first line does not begin with the marker; else the version and the
/// target triple, which has to be named.
pub open spec fn spec_identify_emscripten(
    first_line: Seq<char>,
    lines: Seq<Seq<char>>,
    cmd: Seq<Seq<char>>,
) -> Result<Option<EmscriptenView>, Seq<char>> {
    if !starts_with(first_line, emscripten_id()) {
        Ok(None)
    } else {
        match spec_find_target(lines) {
            Err(e) => Err(e),
            Ok(target) => Ok(
                Some(
                    EmscriptenView {
                        cmd,
                        version: word_at(first_line, emscripten_version_start(first_line)),
                        target,
                    },
                ),
            ),
        }
    }
}

/// Says whether the output is that of the Emscripten compiler, and if so
/// which.
pub fn identify_emscripten(first_line: &str, lines: &Vec<String>, cmd: &Vec<String>) -> (r:
    Result<Option<Emscripten>, String>)
    ensures
        match spec_identify_emscripten(first_line@, texts(lines@), texts(cmd@)) {
            Ok(Some(v)) => r matches Ok(Some(x)) && x@ == v,
            Ok(None) => r matches Ok(None),
            Err(e) => r matches Err(m) && m@ == e,
        },
{
    let line = to_chars(first_line);
    let id = to_chars("emcc ");
    if !matches_at(&line, &id, 0) {
        return Ok(None);
    }
    proof {
        lemma_find_char_from(line@, ')', 0);
    }
    let close: usize = match find_char_in(&line, ')', 0) {
        Some(i) => i + 1,
        None => id.len(),
    };
    let ghost rest = line@.skip(close as int);
    let mut k: usize = close;
    let mut found: Option<usize> = None;
    assert(rest.take(0) =~= Seq::<char>::empty());
    proof {
        if k == line@.len() {
            assert(rest =~= Seq::<char>::empty());
        }
    }
    while k < line.len()
        invariant_except_break
            found is None,
            first_solid(rest.take(k - close)) is None,
            k == line@.len() ==> first_solid(rest) is None,
        invariant
            close <= k <= line@.len(),
            rest == line@.skip(close as int),
        ensures
            match found {
                Some(x) => first_solid(rest) == Some(x as int) && close + x <= line@.len()
                    <= usize::MAX,
                None => first_solid(rest) is None,
            },
        decreases line@.len() - k,
    {
        proof {
            assert(rest.take(k - close + 1).drop_last() =~= rest.take(k - close));
            assert(rest.take(k - close + 1).last() == line@[k as int]);
        }
        if !is_whitespace(line[k]) {
            proof {
                lemma_first_solid_prefix(rest, k - close + 1);
            }
            found = Some(k - close);
            break ;
        }
        k += 1;
        proof {
            if k == line@.len() {
                assert(rest.take(rest.len() as int) =~= rest);
            }
        }
    }
    let bgn: usize = close + match found {
        Some(x) => x,
        None => 0,
    };
    let version = take_word(&line, bgn);
    let target = match find_target(lines) {
        Ok(x) => x,
        Err(e) => {
            return Err(e);
        },
    };
    Ok(Some(Emscripten { cmd: clone_strings(cmd), version, target }))
}

/// A text that begins with a marker holds the marker.
pub proof fn lemma_starts_is_held(s: Seq<char>, marker: Seq<char>)
    requires
        starts_with(s, marker),
    ensures
        contains(s, marker),
{
    lemma_occurs_found(s, marker, 0);
}

} // verus!
