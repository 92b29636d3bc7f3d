//! Build edges of a Ninja file.

use vstd::prelude::*;
use super::variables::{distinct_names, lemma_compile_edge_distinct};
use crate::misc::{spec_strip_verbatim, strip_verbatim};
use crate::text::{
    contains_whitespace, find_char, find_char_in, from_char_range, from_chars, has_whitespace,
    join, join_strings, lemma_find_char_from, replace_char, replace_char_in, str_eq, texts,
    to_chars,
};

verus! {

/// The variables of an edge: names with their values, in the order in
/// which they are written out. In an edge that is in order no name stands
/// twice.
pub open spec fn keyval_views(v: Seq<(String, Vec<String>)>) -> Seq<(Seq<char>, Seq<Seq<char>>)> {
    Seq::new(v.len(), |i: int| (v[i].0@, texts(v[i].1@)))
}

/// A build edge: what is made from what, by which rule and with which
/// values for the rule's variables.
#[derive(Clone, Debug)]
pub struct NinjaBuild {
    pub inputs: Vec<String>,
    pub output_targets: Vec<String>,
    pub rule_name: String,
    pub keyval_set: Vec<(String, Vec<String>)>,
}

/// The mathematical value of [`NinjaBuild`].
pub struct NinjaBuildView {
    pub inputs: Seq<Seq<char>>,
    pub output_targets: Seq<Seq<char>>,
    pub rule_name: Seq<char>,
    pub keyval_set: Seq<(Seq<char>, Seq<Seq<char>>)>,
}

impl View for NinjaBuild {
    type V = NinjaBuildView;

    open spec fn view(&self) -> NinjaBuildView {
        NinjaBuildView {
            inputs: texts(self.inputs@),
            output_targets: texts(self.output_targets@),
            rule_name: self.rule_name@,
            keyval_set: keyval_views(self.keyval_set@),
        }
    }
}

/// The values of a list of edges.
pub open spec fn build_views(v: Seq<NinjaBuild>) -> Seq<NinjaBuildView> {
    Seq::new(v.len(), |i: int| v[i]@)
}

/// `s` with every colon escaped as a Ninja file asks for.
pub open spec fn escape_colons(s: Seq<char>) -> Seq<char> {
    replace_char(s, ':', "$:"@)
}

/// The words of `words` on one line, colons escaped.
pub open spec fn word_line(words: Seq<Seq<char>>) -> Seq<char> {
    escape_colons(join(words, " "@))
}

/// The lines for the variables of an edge. A variable without values has
/// no line.
pub open spec fn keyval_lines(kvs: Seq<(Seq<char>, Seq<Seq<char>>)>) -> Seq<char>
    decreases kvs.len(),
{
    if kvs.len() == 0 {
        Seq::empty()
    } else {
        keyval_lines(kvs.drop_last()) + (if kvs.last().1.len() == 0 {
            Seq::empty()
        } else {
            "  "@ + kvs.last().0 + " = "@ + word_line(kvs.last().1) + "\n"@
        })
    }
}

/// The position of the first variable called `key`.
pub open spec fn keyval_position(kvs: Seq<(Seq<char>, Seq<Seq<char>>)>, key: Seq<char>) -> Option<
    int,
>
    decreases kvs.len(),
{
    if kvs.len() == 0 {
        None
    } else if keyval_position(kvs.drop_last(), key) is Some {
        keyval_position(kvs.drop_last(), key)
    } else if kvs.last().0 == key {
        Some(kvs.len() - 1)
    } else {
        None
    }
}

impl NinjaBuildView {
    /// Whether the edge is in order: no name stands twice among its
    /// variables.
    pub open spec fn well_formed(self) -> bool {
        distinct_names(self.keyval_set)
    }

    /// The edge as it stands in a Ninja file.
    pub open spec fn as_string(self) -> Seq<char> {
        "build "@ + word_line(self.output_targets) + ": "@ + self.rule_name + " "@ + word_line(
            self.inputs,
        ) + "\n"@ + keyval_lines(self.keyval_set) + "\n"@
    }

    /// The values of the variable `key`.
    pub open spec fn get(self, key: Seq<char>) -> Option<Seq<Seq<char>>> {
        match keyval_position(self.keyval_set, key) {
            Some(i) => Some(self.keyval_set[i].1),
            None => None,
        }
    }
}

/// The text of all edges, one after the other.
pub open spec fn builds_text(lines: Seq<NinjaBuildView>) -> Seq<char>
    decreases lines.len(),
{
    if lines.len() == 0 {
        Seq::empty()
    } else {
        builds_text(lines.drop_last()) + lines.last().as_string()
    }
}

/// The words of `words` on one line, colons escaped.
pub fn render_words(words: &Vec<String>) -> (r: String)
    ensures
        r@ == word_line(texts(words@)),
{
    let joined = join_strings(words, " ");
    let chars = to_chars(joined.as_str());
    let mut to: Vec<char> = Vec::new();
    to.push('$');
    to.push(':');
    proof {
        reveal_strlit("$:");
        assert(to@ =~= "$:"@);
    }
    let escaped = replace_char_in(&chars, ':', &to);
    from_chars(&escaped)
}

/// A variable found among the first `n` is the first of that name overall.
pub proof fn lemma_keyval_position_prefix(
    kvs: Seq<(Seq<char>, Seq<Seq<char>>)>,
    key: Seq<char>,
    n: int,
)
    requires
        0 <= n <= kvs.len(),
        keyval_position(kvs.take(n), key) is Some,
    ensures
        keyval_position(kvs, key) == keyval_position(kvs.take(n), key),
    decreases kvs.len() - n,
{
    if n < kvs.len() {
        assert(kvs.take(n + 1).drop_last() =~= kvs.take(n));
        lemma_keyval_position_prefix(kvs, key, n + 1);
    } else {
        assert(kvs.take(n) =~= kvs);
    }
}

impl NinjaBuild {
    /// The edge as it stands in a Ninja file.
    pub fn as_string(&self) -> (r: String)
        ensures
            r@ == self@.as_string(),
    {
        let mut ret: String = "build ".to_owned();
        let outputs = render_words(&self.output_targets);
        ret.append(outputs.as_str());
        ret.append(": ");
        ret.append(self.rule_name.as_str());
        ret.append(" ");
        let inputs = render_words(&self.inputs);
        ret.append(inputs.as_str());
        ret.append("\n");
        let ghost head = ret@;
        let ghost kvs = keyval_views(self.keyval_set@);
        let mut i: usize = 0;
        assert(ret@ =~= head + keyval_lines(kvs.take(0)));
        while i < self.keyval_set.len()
            invariant
                i <= self.keyval_set@.len(),
                kvs == keyval_views(self.keyval_set@),
                ret@ == head + keyval_lines(kvs.take(i as int)),
            decreases self.keyval_set@.len() - i,
        {
            proof {
                assert(kvs.take(i + 1).drop_last() =~= kvs.take(i as int));
                assert(kvs.take(i + 1).last() == kvs[i as int]);
            }
            let ghost before = ret@;
            if self.keyval_set[i].1.len() > 0 {
                ret.append("  ");
                ret.append(self.keyval_set[i].0.as_str());
                ret.append(" = ");
                let values = render_words(&self.keyval_set[i].1);
                ret.append(values.as_str());
                ret.append("\n");
                assert(ret@ =~= before + ("  "@ + kvs[i as int].0 + " = "@ + word_line(
                    kvs[i as int].1,
                ) + "\n"@));
            } else {
                assert(ret@ =~= before + Seq::<char>::empty());
            }
            i += 1;
            assert(ret@ =~= head + keyval_lines(kvs.take(i as int)));
        }
        assert(kvs.take(kvs.len() as int) =~= kvs);
        ret.append("\n");
        ret
    }

    /// Whether the edge is in order: no name stands twice among its
    /// variables.
    pub fn is_well_formed(&self) -> (r: bool)
        ensures
            r == self@.well_formed(),
    {
        let mut j: usize = 0;
        while j < self.keyval_set.len()
            invariant
                j <= self.keyval_set@.len(),
                forall|a: int, b: int|
                    #![trigger self@.keyval_set[a], self@.keyval_set[b]]
                    0 <= a < b < j ==> self@.keyval_set[a].0 != self@.keyval_set[b].0,
            decreases self.keyval_set@.len() - j,
        {
            let mut i: usize = 0;
            while i < j
                invariant
                    i <= j < self.keyval_set@.len(),
                    forall|a: int|
                        #![trigger self@.keyval_set[a]]
                        0 <= a < i ==> self@.keyval_set[a].0 != self@.keyval_set[j as int].0,
                decreases j - i,
            {
                if str_eq(self.keyval_set[i].0.as_str(), self.keyval_set[j].0.as_str()) {
                    assert(self@.keyval_set[i as int].0 == self@.keyval_set[j as int].0);
                    return false;
                }
                i += 1;
            }
            j += 1;
        }
        true
    }

    /// The values of the variable `key`.
    pub fn get(&self, key: &str) -> (r: Option<&Vec<String>>)
        ensures
            match self@.get(key@) {
                Some(v) => r matches Some(x) && texts(x@) == v,
                None => r is None,
            },
    {
        let ghost kvs = keyval_views(self.keyval_set@);
        let mut i: usize = 0;
        while i < self.keyval_set.len()
            invariant
                i <= self.keyval_set@.len(),
                kvs == keyval_views(self.keyval_set@),
                keyval_position(kvs.take(i as int), key@) is None,
            decreases self.keyval_set@.len() - i,
        {
            proof {
                assert(kvs.take(i + 1).drop_last() =~= kvs.take(i as int));
                assert(kvs.take(i + 1).last() == kvs[i as int]);
            }
            if str_eq(self.keyval_set[i].0.as_str(), key) {
                proof {
                    lemma_keyval_position_prefix(kvs, key@, i + 1);
                }
                return Some(&self.keyval_set[i].1);
            }
            i += 1;
        }
        assert(kvs.take(kvs.len() as int) =~= kvs);
        None
    }
}

/// The text of all edges, one after the other.
pub fn render_builds(lines: &Vec<NinjaBuild>) -> (r: String)
    ensures
        r@ == builds_text(build_views(lines@)),
{
    let mut out = String::new();
    let ghost all = build_views(lines@);
    let mut i: usize = 0;
    while i < lines.len()
        invariant
            i <= lines@.len(),
            all == build_views(lines@),
            out@ == builds_text(all.take(i as int)),
        decreases lines@.len() - i,
    {
        proof {
            assert(all.take(i + 1).drop_last() =~= all.take(i as int));
            assert(all.take(i + 1).last() == lines@[i as int]@);
        }
        let text = lines[i].as_string();
        out.append(text.as_str());
        i += 1;
    }
    assert(all.take(all.len() as int) =~= all);
    out
}

/// A backslash followed by a double quote.
pub open spec fn escaped_quote() -> Seq<char> {
    seq!['\\', '"']
}

/// The flag that hands one definition to a compiler. A bare name is
/// handed on as it is. In `name=value` every double quote of the value is
/// escaped, and a value with white space in it is put between double
/// quotes.
pub open spec fn transform_define(define: Seq<char>) -> Seq<char> {
    match find_char(define, '=') {
        None => "-D"@ + define,
        Some(i) => {
            let name = define.take(i);
            let value = replace_char(define.skip(i + 1), '"', escaped_quote());
            if has_whitespace(value) {
                "-D"@ + name + "=\""@ + value + "\""@
            } else {
                "-D"@ + name + "="@ + value
            }
        },
    }
}

/// The flags that hand `defines` to a compiler, one for each definition.
pub open spec fn spec_transform_defines(defines: Seq<Seq<char>>) -> Seq<Seq<char>> {
    Seq::new(defines.len(), |i: int| transform_define(defines[i]))
}

/// The flag that hands one definition to a compiler.
pub fn transform_one_define(define: &str) -> (r: String)
    ensures
        r@ == transform_define(define@),
{
    let chars = to_chars(define);
    let mut out: String = "-D".to_owned();
    match find_char_in(&chars, '=', 0) {
        None => {
            out.append(define);
        },
        Some(i) => {
            proof {
                lemma_find_char_from(chars@, '=', 0);
            }
            let name = from_char_range(&chars, 0, i);
            let mut rest: Vec<char> = Vec::new();
            let mut k: usize = i + 1;
            while k < chars.len()
                invariant
                    i + 1 <= k <= chars@.len(),
                    rest@ == chars@.subrange(i + 1, k as int),
                decreases chars@.len() - k,
            {
                rest.push(chars[k]);
                k += 1;
                assert(rest@ =~= chars@.subrange(i + 1, k as int));
            }
            assert(chars@.subrange(i + 1, chars@.len() as int) =~= chars@.skip(i + 1));
            assert(chars@.subrange(0, i as int) =~= chars@.take(i as int));
            let mut quote: Vec<char> = Vec::new();
            quote.push('\\');
            quote.push('"');
            assert(quote@ =~= escaped_quote());
            let value = replace_char_in(&rest, '"', &quote);
            let value_text = from_chars(&value);
            out.append(name.as_str());
            if contains_whitespace(&value) {
                out.append("=\"");
                out.append(value_text.as_str());
                out.append("\"");
            } else {
                out.append("=");
                out.append(value_text.as_str());
            }
        },
    }
    out
}

/// The flags that hand `defines` to a compiler, one for each definition.
pub fn transform_defines(defines: &Vec<String>) -> (r: Vec<String>)
    ensures
        texts(r@) == spec_transform_defines(texts(defines@)),
{
    let mut out: Vec<String> = Vec::new();
    let mut i: usize = 0;
    while i < defines.len()
        invariant
            i <= defines@.len(),
            texts(out@) == spec_transform_defines(texts(defines@)).take(i as int),
        decreases defines@.len() - i,
    {
        let ghost before = out@;
        out.push(transform_one_define(defines[i].as_str()));
        i += 1;
        proof {
            let all = spec_transform_defines(texts(defines@));
            assert(texts(out@) =~= texts(before).push(all[i - 1]));
            assert(all.take(i as int) =~= all.take(i - 1).push(all[i - 1]));
        }
    }
    assert(spec_transform_defines(texts(defines@)).take(defines@.len() as int)
        =~= spec_transform_defines(texts(defines@)));
    out
}

/// The flags that name `includes` as header directories.
pub open spec fn spec_include_flags(includes: Seq<Seq<char>>) -> Seq<Seq<char>> {
    Seq::new(includes.len(), |i: int| "-I"@ + spec_strip_verbatim(includes[i]))
}

/// The flags that name `includes` as header directories.
pub fn include_flags(includes: &Vec<String>) -> (r: Vec<String>)
    ensures
        texts(r@) == spec_include_flags(texts(includes@)),
{
    let mut out: Vec<String> = Vec::new();
    let mut i: usize = 0;
    while i < includes.len()
        invariant
            i <= includes@.len(),
            texts(out@) == spec_include_flags(texts(includes@)).take(i as int),
        decreases includes@.len() - i,
    {
        let ghost before = out@;
        let mut flag: String = "-I".to_owned();
        let dir = strip_verbatim(includes[i].as_str());
        flag.append(dir.as_str());
        out.push(flag);
        i += 1;
        proof {
            let all = spec_include_flags(texts(includes@));
            assert(texts(out@) =~= texts(before).push(all[i - 1]));
            assert(all.take(i as int) =~= all.take(i - 1).push(all[i - 1]));
        }
    }
    assert(spec_include_flags(texts(includes@)).take(includes@.len() as int)
        =~= spec_include_flags(texts(includes@)));
    out
}

/// What the sources of one target are compiled with.
#[derive(Clone, Debug)]
pub struct SourceData {
    pub includes: Vec<String>,
    pub defines: Vec<String>,
}

/// The mathematical value of [`SourceData`].
pub struct SourceDataView {
    pub includes: Seq<Seq<char>>,
    pub defines: Seq<Seq<char>>,
}

impl View for SourceData {
    type V = SourceDataView;

    open spec fn view(&self) -> SourceDataView {
        SourceDataView { includes: texts(self.includes@), defines: texts(self.defines@) }
    }
}

/// The edge that compiles `input` to `out_tgt` by the rule `rule_name`.
pub open spec fn compile_edge(
    input: Seq<char>,
    data: SourceDataView,
    out_tgt: Seq<char>,
    rule_name: Seq<char>,
    compile_options: Seq<Seq<char>>,
) -> NinjaBuildView {
    NinjaBuildView {
        inputs: seq![input],
        output_targets: seq![out_tgt],
        rule_name,
        keyval_set: seq![
            ("DEFINES"@, spec_transform_defines(data.defines)),
            ("FLAGS"@, compile_options),
            ("INCLUDES"@, spec_include_flags(data.includes)),
            ("DEP_FILE"@, seq![out_tgt + ".d"@]),
        ],
    }
}

/// A list with one string in it.
pub fn single(s: String) -> (r: Vec<String>)
    ensures
        texts(r@) == seq![s@],
{
    let mut v: Vec<String> = Vec::new();
    v.push(s);
    assert(texts(v@) =~= seq![s@]);
    v
}

/// The edge that compiles `input` to `out_tgt` by the rule `rule_name`.
/// The object file is noted in `inputs` as something to link.
pub fn add_obj_source(
    input: String,
    source_data: &SourceData,
    out_tgt: String,
    rule_name: String,
    compile_options: Vec<String>,
    inputs: &mut Vec<String>,
) -> (r: NinjaBuild)
    ensures
        r@ == compile_edge(input@, source_data@, out_tgt@, rule_name@, texts(compile_options@)),
        r@.well_formed(),
        texts(final(inputs)@) == texts(old(inputs)@).push(out_tgt@),
{
    proof {
        lemma_compile_edge_distinct(
            input@,
            source_data@,
            out_tgt@,
            rule_name@,
            texts(compile_options@),
        );
    }
    inputs.push(out_tgt.clone());
    assert(texts(inputs@) =~= texts(old(inputs)@).push(out_tgt@));
    let mut dep_file = out_tgt.clone();
    dep_file.append(".d");
    let mut keyval_set: Vec<(String, Vec<String>)> = Vec::new();
    keyval_set.push(("DEFINES".to_owned(), transform_defines(&source_data.defines)));
    keyval_set.push(("FLAGS".to_owned(), compile_options));
    keyval_set.push(("INCLUDES".to_owned(), include_flags(&source_data.includes)));
    keyval_set.push(("DEP_FILE".to_owned(), single(dep_file)));
    let r = NinjaBuild {
        inputs: single(input),
        output_targets: single(out_tgt),
        rule_name,
        keyval_set,
    };
    assert(r@.keyval_set =~= seq![
        ("DEFINES"@, spec_transform_defines(source_data@.defines)),
        ("FLAGS"@, texts(compile_options@)),
        ("INCLUDES"@, spec_include_flags(source_data@.includes)),
        ("DEP_FILE"@, seq![out_tgt@ + ".d"@]),
    ]);
    r
}

} // verus!
