//! How declarations are shown.

use vstd::prelude::*;
use crate::executable::{declared_names, name_list};
use crate::misc::{path_views, SourcePath};
use crate::starlark_link_target::{
    PtrLinkTarget, StarExecutable, StarIfaceLibrary, StarLinkTarget, StarObjectLibrary,
    StarStaticLibrary,
};
use crate::text::{
    append_suffixed, from_char_range, join, join_strings, suffixed_all, texts, to_chars,
};
use crate::unique::extend_strings;

verus! {

/// Every item between double quotes.
pub open spec fn quoted_items(items: Seq<Seq<char>>) -> Seq<Seq<char>> {
    Seq::new(items.len(), |i: int| "\""@ + items[i] + "\""@)
}

/// A list of strings as it is shown: each between double quotes; one
/// alone on the line, several each on a line of its own.
pub open spec fn spec_format_strings(items: Seq<Seq<char>>) -> Seq<char> {
    let ret = join(quoted_items(items), ",\n      "@);
    if items.len() > 1 {
        "\n      "@ + ret + ",\n   "@
    } else {
        ret
    }
}

/// A list of strings as it is shown.
pub fn format_strings(items: &Vec<String>) -> (r: String)
    ensures
        r@ == spec_format_strings(texts(items@)),
{
    let mut quoted: Vec<String> = Vec::new();
    let mut i: usize = 0;
    while i < items.len()
        invariant
            i <= items@.len(),
            texts(quoted@) == quoted_items(texts(items@)).take(i as int),
        decreases items@.len() - i,
    {
        let ghost before = quoted@;
        let mut word: String = "\"".to_owned();
        word.append(items[i].as_str());
        word.append("\"");
        quoted.push(word);
        i += 1;
        proof {
            let all = quoted_items(texts(items@));
            assert(texts(quoted@) =~= texts(before).push(all[i - 1]));
            assert(all.take(i as int) =~= all.take(i - 1).push(all[i - 1]));
        }
    }
    assert(quoted_items(texts(items@)).take(items@.len() as int) =~= quoted_items(
        texts(items@),
    ));
    let ret = join_strings(&quoted, ",\n      ");
    if items.len() > 1 {
        let mut out: String = "\n      ".to_owned();
        out.append(ret.as_str());
        out.append(",\n   ");
        out
    } else {
        ret
    }
}

/// `s` without its last two characters.
pub open spec fn without_last_two(s: Seq<char>) -> Seq<char> {
    if s.len() >= 2 {
        s.take(s.len() - 2)
    } else {
        Seq::empty()
    }
}

/// The names of a list of link targets as they are shown: none as
/// nothing, one by its name, several each on a line of its own.
pub open spec fn spec_format_link_targets(names: Seq<Seq<char>>) -> Seq<char> {
    if names.len() == 0 {
        Seq::empty()
    } else if names.len() == 1 {
        names[0]
    } else {
        without_last_two("\n    "@ + suffixed_all(names, ",\n    "@))
    }
}

/// The names of a list of link targets as they are shown.
pub fn format_link_targets(names: &Vec<String>) -> (r: String)
    ensures
        r@ == spec_format_link_targets(texts(names@)),
{
    if names.len() == 0 {
        String::new()
    } else if names.len() == 1 {
        names[0].clone()
    } else {
        let mut ret: String = "\n    ".to_owned();
        append_suffixed(&mut ret, names, ",\n    ");
        let chars = to_chars(ret.as_str());
        if chars.len() >= 2 {
            let out = from_char_range(&chars, 0, chars.len() - 2);
            assert(out@ =~= chars@.take(chars@.len() - 2));
            out
        } else {
            String::new()
        }
    }
}

/// The names of the declarations that `links` name, in turn. A link that
/// names no declaration has no name.
pub open spec fn declared_link_names(
    decls: Seq<StarLinkTarget>,
    links: Seq<PtrLinkTarget>,
) -> Seq<Seq<char>>
    decreases links.len(),
{
    if links.len() == 0 {
        Seq::empty()
    } else {
        let head = declared_link_names(decls, links.drop_last());
        if links.last().0 < decls.len() {
            head.push(decls[links.last().0 as int].spec_name())
        } else {
            head
        }
    }
}

/// The names of the declarations that `links` name, in turn.
pub fn link_name_list(decls: &Vec<StarLinkTarget>, links: &Vec<PtrLinkTarget>) -> (r: Vec<String>)
    ensures
        texts(r@) == declared_link_names(decls@, links@),
{
    let mut out: Vec<String> = Vec::new();
    let mut i: usize = 0;
    assert(links@.take(0) =~= Seq::empty());
    while i < links.len()
        invariant
            i <= links@.len(),
            texts(out@) == declared_link_names(decls@, links@.take(i as int)),
        decreases links@.len() - i,
    {
        let ghost before = out@;
        assert(links@.take(i + 1).drop_last() =~= links@.take(i as int));
        assert(links@.take(i + 1).last() == links@[i as int]);
        let key = links[i].0;
        if key < decls.len() {
            out.push(decls[key].name().to_owned());
            assert(texts(out@) =~= texts(before).push(decls@[key as int].spec_name()));
        }
        i += 1;
    }
    assert(links@.take(links@.len() as int) =~= links@);
    out
}

/// How a generator function is shown: as generated where there is one,
/// as absent where there is none.
pub open spec fn spec_generator_word(id: Option<String>) -> Seq<char> {
    match id {
        Some(_) => "(generated)"@,
        None => "None"@,
    }
}

/// How a generator function is shown.
pub fn generator_word(id: &Option<String>) -> (r: &'static str)
    ensures
        r@ == spec_generator_word(*id),
{
    match id {
        Some(_) => "(generated)",
        None => "None",
    }
}

/// A list of declared files as it is shown: by the names they were
/// declared under.
pub open spec fn shown_paths(items: Seq<SourcePath>) -> Seq<char> {
    spec_format_strings(declared_names(path_views(items)))
}

/// A list of declared links as it is shown: by the names of the
/// libraries.
pub open spec fn shown_links(decls: Seq<StarLinkTarget>, links: Seq<PtrLinkTarget>) -> Seq<char> {
    spec_format_link_targets(declared_link_names(decls, links))
}

/// Appends a label and a list of declared files.
fn append_paths(out: &mut String, label: &str, items: &Vec<SourcePath>)
    ensures
        final(out)@ == old(out)@ + label@ + shown_paths(items@),
{
    out.append(label);
    out.append(format_strings(&name_list(items)).as_str());
}

/// Appends a label and a list of strings.
fn append_strings(out: &mut String, label: &str, items: &Vec<String>)
    ensures
        final(out)@ == old(out)@ + label@ + spec_format_strings(texts(items@)),
{
    out.append(label);
    out.append(format_strings(items).as_str());
}

/// Appends a label and a list of declared links.
fn append_links(
    out: &mut String,
    label: &str,
    decls: &Vec<StarLinkTarget>,
    links: &Vec<PtrLinkTarget>,
)
    ensures
        final(out)@ == old(out)@ + label@ + shown_links(decls@, links@),
{
    out.append(label);
    out.append(format_link_targets(&link_name_list(decls, links)).as_str());
}

impl StarStaticLibrary {
    /// The declaration as it is shown.
    pub open spec fn spec_describe(&self, decls: Seq<StarLinkTarget>) -> Seq<char> {
        "StaticLibrary{\n  name: \""@ + self.name@ + "\",\n  sources: ["@ + shown_paths(
            self.sources@,
        ) + "],\n  link_private: ["@ + shown_links(decls, self.link_private@)
            + "],\n  link_public: ["@ + shown_links(decls, self.link_public@)
            + "],\n  include_dirs_public: ["@ + shown_paths(self.include_dirs_public@)
            + "],\n  include_dirs_private: ["@ + shown_paths(self.include_dirs_private@)
            + "],\n  defines_private: ["@ + spec_format_strings(texts(self.defines_private@))
            + "],\n  defines_public: ["@ + spec_format_strings(texts(self.defines_public@))
            + "],\n  link_flags_public: ["@ + spec_format_strings(texts(self.link_flags_public@))
            + "],\n  generator_vars: "@ + spec_generator_word(self.generator_vars) + ",\n}"@
    }

    /// The declaration as it is shown; `decls` gives the names of its
    /// links.
    pub fn describe(&self, decls: &Vec<StarLinkTarget>) -> (r: String)
        ensures
            r@ == self.spec_describe(decls@),
    {
        let mut out: String = "StaticLibrary{\n  name: \"".to_owned();
        out.append(self.name.as_str());
        append_paths(&mut out, "\",\n  sources: [", &self.sources);
        append_links(&mut out, "],\n  link_private: [", decls, &self.link_private);
        append_links(&mut out, "],\n  link_public: [", decls, &self.link_public);
        append_paths(&mut out, "],\n  include_dirs_public: [", &self.include_dirs_public);
        append_paths(&mut out, "],\n  include_dirs_private: [", &self.include_dirs_private);
        append_strings(&mut out, "],\n  defines_private: [", &self.defines_private);
        append_strings(&mut out, "],\n  defines_public: [", &self.defines_public);
        append_strings(&mut out, "],\n  link_flags_public: [", &self.link_flags_public);
        out.append("],\n  generator_vars: ");
        out.append(generator_word(&self.generator_vars));
        out.append(",\n}");
        out
    }
}

impl StarObjectLibrary {
    /// The declaration as it is shown.
    pub open spec fn spec_describe(&self, decls: Seq<StarLinkTarget>) -> Seq<char> {
        "ObjectLibrary{\n  name: \""@ + self.name@ + "\",\n  sources: ["@ + shown_paths(
            self.sources@,
        ) + "],\n  link_private: ["@ + shown_links(decls, self.link_private@)
            + "],\n  link_public: ["@ + shown_links(decls, self.link_public@)
            + "],\n  include_dirs_public: ["@ + shown_paths(self.include_dirs_public@)
            + "],\n  include_dirs_private: ["@ + shown_paths(self.include_dirs_private@)
            + "],\n  defines_public: ["@ + spec_format_strings(texts(self.defines_public@))
            + "],\n  link_flags_public: ["@ + spec_format_strings(texts(self.link_flags_public@))
            + "],\n}"@
    }

    /// The declaration as it is shown; `decls` gives the names of its
    /// links.
    pub fn describe(&self, decls: &Vec<StarLinkTarget>) -> (r: String)
        ensures
            r@ == self.spec_describe(decls@),
    {
        let mut out: String = "ObjectLibrary{\n  name: \"".to_owned();
        out.append(self.name.as_str());
        append_paths(&mut out, "\",\n  sources: [", &self.sources);
        append_links(&mut out, "],\n  link_private: [", decls, &self.link_private);
        append_links(&mut out, "],\n  link_public: [", decls, &self.link_public);
        append_paths(&mut out, "],\n  include_dirs_public: [", &self.include_dirs_public);
        append_paths(&mut out, "],\n  include_dirs_private: [", &self.include_dirs_private);
        append_strings(&mut out, "],\n  defines_public: [", &self.defines_public);
        append_strings(&mut out, "],\n  link_flags_public: [", &self.link_flags_public);
        out.append("],\n}");
        out
    }
}

impl StarIfaceLibrary {
    /// The declaration as it is shown.
    pub open spec fn spec_describe(&self, decls: Seq<StarLinkTarget>) -> Seq<char> {
        "InterfaceLibrary {\n  name: \""@ + self.name@ + "\",\n  links: ["@ + shown_links(
            decls,
            self.links@,
        ) + "],\n  include_dirs: ["@ + shown_paths(self.include_dirs@) + "],\n  defines: ["@
            + spec_format_strings(texts(self.defines@)) + "],\n  link_flags: ["@
            + spec_format_strings(texts(self.link_flags@)) + "],\n}"@
    }

    /// The declaration as it is shown; `decls` gives the names of its
    /// links.
    pub fn describe(&self, decls: &Vec<StarLinkTarget>) -> (r: String)
        ensures
            r@ == self.spec_describe(decls@),
    {
        let mut out: String = "InterfaceLibrary {\n  name: \"".to_owned();
        out.append(self.name.as_str());
        append_links(&mut out, "\",\n  links: [", decls, &self.links);
        append_paths(&mut out, "],\n  include_dirs: [", &self.include_dirs);
        append_strings(&mut out, "],\n  defines: [", &self.defines);
        append_strings(&mut out, "],\n  link_flags: [", &self.link_flags);
        out.append("],\n}");
        out
    }
}

impl StarExecutable {
    /// The declaration as it is shown.
    pub open spec fn spec_describe(&self, decls: Seq<StarLinkTarget>) -> Seq<char> {
        "Executable {\n  name: \""@ + self.name@ + "\",\n  sources: ["@ + shown_paths(
            self.sources@,
        ) + "],\n  links: ["@ + shown_links(decls, self.links@) + "],\n  include_dirs: ["@
            + shown_paths(self.include_dirs@) + "],\n  defines: ["@ + spec_format_strings(
            texts(self.defines@),
        ) + "],\n  link_flags: ["@ + spec_format_strings(texts(self.link_flags@))
            + "],\n  generator_vars: "@ + spec_generator_word(self.generator_vars) + ",\n}"@
    }

    /// The declaration as it is shown; `decls` gives the names of its
    /// links.
    pub fn describe(&self, decls: &Vec<StarLinkTarget>) -> (r: String)
        ensures
            r@ == self.spec_describe(decls@),
    {
        let mut out: String = "Executable {\n  name: \"".to_owned();
        out.append(self.name.as_str());
        append_paths(&mut out, "\",\n  sources: [", &self.sources);
        append_links(&mut out, "],\n  links: [", decls, &self.links);
        append_paths(&mut out, "],\n  include_dirs: [", &self.include_dirs);
        append_strings(&mut out, "],\n  defines: [", &self.defines);
        append_strings(&mut out, "],\n  link_flags: [", &self.link_flags);
        out.append("],\n  generator_vars: ");
        out.append(generator_word(&self.generator_vars));
        out.append(",\n}");
        out
    }
}

/// The header directories that a build file sees of the declaration at
/// `key`: of a static or an object library its private ones, of an
/// interface library its own followed by those of its links. They are
/// given by the names they were declared under.
pub open spec fn declared_includes(decls: Seq<StarLinkTarget>, key: int) -> Seq<Seq<char>>
    decreases key, 1int, 0int,
{
    if !(0 <= key < decls.len()) {
        Seq::empty()
    } else {
        match decls[key] {
            StarLinkTarget::Static(d) => declared_names(path_views(d.include_dirs_private@)),
            StarLinkTarget::Object(d) => declared_names(path_views(d.include_dirs_private@)),
            StarLinkTarget::Interface(d) => declared_names(path_views(d.include_dirs@))
                + linked_includes(decls, d.links@, key),
        }
    }
}

/// What `declared_includes` gives for each of `links` in turn. Only
/// declarations below `bound` count.
pub open spec fn linked_includes(
    decls: Seq<StarLinkTarget>,
    links: Seq<PtrLinkTarget>,
    bound: int,
) -> Seq<Seq<char>>
    decreases bound, 0int, links.len(),
{
    if links.len() == 0 {
        Seq::empty()
    } else {
        let head = linked_includes(decls, links.drop_last(), bound);
        if links.last().0 < bound {
            head + declared_includes(decls, links.last().0 as int)
        } else {
            head
        }
    }
}

/// Appends what `declared_includes` gives for each of `links` in turn.
fn append_linked_includes(
    decls: &Vec<StarLinkTarget>,
    links: &Vec<PtrLinkTarget>,
    bound: usize,
    out: &mut Vec<String>,
)
    ensures
        texts(final(out)@) == texts(old(out)@) + linked_includes(decls@, links@, bound as int),
    decreases bound, 0int, links@.len(),
{
    let mut i: usize = 0;
    assert(links@.take(0) =~= Seq::empty());
    assert(texts(out@) + Seq::<Seq<char>>::empty() =~= texts(out@));
    while i < links.len()
        invariant
            i <= links@.len(),
            texts(out@) == texts(old(out)@) + linked_includes(
                decls@,
                links@.take(i as int),
                bound as int,
            ),
        decreases links@.len() - i,
    {
        assert(links@.take(i + 1).drop_last() =~= links@.take(i as int));
        assert(links@.take(i + 1).last() == links@[i as int]);
        let key = links[i].0;
        if key < bound {
            let ghost before = out@;
            let more = StarLinkTarget::public_includes_recursive(decls, key);
            extend_strings(out, &more);
            assert(texts(out@) =~= texts(old(out)@) + (linked_includes(
                decls@,
                links@.take(i as int),
                bound as int,
            ) + declared_includes(decls@, key as int)));
        }
        i += 1;
    }
    assert(links@.take(links@.len() as int) =~= links@);
}

impl StarLinkTarget {
    /// The declaration as it is shown.
    pub open spec fn spec_describe(&self, decls: Seq<StarLinkTarget>) -> Seq<char> {
        match self {
            StarLinkTarget::Static(x) => x.spec_describe(decls),
            StarLinkTarget::Object(x) => x.spec_describe(decls),
            StarLinkTarget::Interface(x) => x.spec_describe(decls),
        }
    }

    /// The declaration as it is shown; `decls` gives the names of its
    /// links.
    pub fn describe(&self, decls: &Vec<StarLinkTarget>) -> (r: String)
        ensures
            r@ == self.spec_describe(decls@),
    {
        match self {
            StarLinkTarget::Static(x) => x.describe(decls),
            StarLinkTarget::Object(x) => x.describe(decls),
            StarLinkTarget::Interface(x) => x.describe(decls),
        }
    }

    /// The header directories that a build file sees of the declaration
    /// at `key`.
    pub fn public_includes_recursive(decls: &Vec<StarLinkTarget>, key: usize) -> (r: Vec<String>)
        ensures
            texts(r@) == declared_includes(decls@, key as int),
        decreases key, 1int, 0int,
    {
        if key >= decls.len() {
            return Vec::new();
        }
        match &decls[key] {
            StarLinkTarget::Static(d) => name_list(&d.include_dirs_private),
            StarLinkTarget::Object(d) => name_list(&d.include_dirs_private),
            StarLinkTarget::Interface(d) => {
                let mut out = name_list(&d.include_dirs);
                append_linked_includes(decls, &d.links, key, &mut out);
                out
            },
        }
    }
}

} // verus!
