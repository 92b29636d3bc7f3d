//! Targets as a build file declares them.
//!
//! A declared library names what it links by the places of other
//! declarations, and its generator function by a name. Declarations are
//! turned into targets of the graph by the project that lists them.

use vstd::prelude::*;
use crate::executable::Executable;
use crate::generator_vars::{GeneratorVars, GeneratorVarsView};
use crate::interface_library::InterfaceLibrary;
use crate::link_type::LinkPtr;
use crate::misc::{clone_paths, path_views, SourcePath, Sources, SourcesView};
use crate::object_library::ObjectLibrary;
use crate::project::ProjectInfo;
use crate::static_library::StaticLibrary;
use crate::text::{str_eq, texts};
use crate::unique::clone_strings;

verus! {

/// The identity of a declared library: its place among the declarations.
/// Two declarations that look alike are still two declarations.
#[derive(Clone, Copy, Debug, PartialEq, Eq, Structural, Hash)]
pub struct PtrLinkTarget(pub usize);

/// The generator functions of a project by name, each with what it
/// computed for this run.
pub open spec fn generator_position(gens: Seq<(String, GeneratorVars)>, id: Seq<char>) -> Option<
    int,
>
    decreases gens.len(),
{
    if gens.len() == 0 {
        None
    } else if generator_position(gens.drop_last(), id) is Some {
        generator_position(gens.drop_last(), id)
    } else if gens.last().0@ == id {
        Some(gens.len() - 1)
    } else {
        None
    }
}

/// A generator found among the first `n` is the first of that name
/// overall.
pub proof fn lemma_generator_position_prefix(
    gens: Seq<(String, GeneratorVars)>,
    id: Seq<char>,
    n: int,
)
    requires
        0 <= n <= gens.len(),
        generator_position(gens.take(n), id) is Some,
    ensures
        generator_position(gens, id) == generator_position(gens.take(n), id),
    decreases gens.len() - n,
{
    if n < gens.len() {
        assert(gens.take(n + 1).drop_last() =~= gens.take(n));
        lemma_generator_position_prefix(gens, id, n + 1);
    } else {
        assert(gens.take(n) =~= gens);
    }
}

/// The message for a generator function that no one declared.
pub open spec fn unknown_generator_message(id: Seq<char>) -> Seq<char> {
    "Could not find generator id in map: "@ + id
}

/// What the generator function named by `id` computed; nothing where no
/// function is named. A name that no one declared is refused.
pub open spec fn resolved_vars(gens: Seq<(String, GeneratorVars)>, id: Option<String>) -> Result<
    Option<GeneratorVarsView>,
    Seq<char>,
> {
    match id {
        None => Ok(None),
        Some(name) => match generator_position(gens, name@) {
            Some(i) => Ok(Some(gens[i].1@)),
            None => Err(unknown_generator_message(name@)),
        },
    }
}

/// The value of optional additions.
pub open spec fn vars_view(v: Option<GeneratorVars>) -> Option<GeneratorVarsView> {
    match v {
        Some(x) => Some(x@),
        None => None,
    }
}

impl GeneratorVars {
    /// A copy with the same value.
    pub fn duplicate(&self) -> (r: Self)
        ensures
            r@ == self@,
    {
        GeneratorVars {
            sources: clone_paths(&self.sources),
            include_dirs: clone_paths(&self.include_dirs),
            defines: clone_strings(&self.defines),
            link_flags: clone_strings(&self.link_flags),
        }
    }
}

/// Looks up what the generator function named by `id` computed.
pub fn resolve_vars(gens: &Vec<(String, GeneratorVars)>, id: &Option<String>) -> (r: Result<
    Option<GeneratorVars>,
    String,
>)
    ensures
        match resolved_vars(gens@, *id) {
            Ok(v) => r matches Ok(x) && vars_view(x) == v,
            Err(e) => r matches Err(m) && m@ == e,
        },
{
    match id {
        None => Ok(None),
        Some(name) => {
            let mut i: usize = 0;
            while i < gens.len()
                invariant
                    i <= gens@.len(),
                    *id == Some(*name),
                    generator_position(gens@.take(i as int), name@) is None,
                decreases gens@.len() - i,
            {
                proof {
                    assert(gens@.take(i + 1).drop_last() =~= gens@.take(i as int));
                    assert(gens@.take(i + 1).last() == gens@[i as int]);
                }
                if str_eq(gens[i].0.as_str(), name.as_str()) {
                    proof {
                        lemma_generator_position_prefix(gens@, name@, i + 1);
                    }
                    return Ok(Some(gens[i].1.duplicate()));
                }
                i += 1;
            }
            assert(gens@.take(gens@.len() as int) =~= gens@);
            let mut msg: String = "Could not find generator id in map: ".to_owned();
            msg.append(name.as_str());
            Err(msg)
        },
    }
}

/// A static library as declared.
#[derive(Clone, Debug)]
pub struct StarStaticLibrary {
    pub project: ProjectInfo,
    pub name: String,
    pub sources: Vec<SourcePath>,
    pub link_private: Vec<PtrLinkTarget>,
    pub link_public: Vec<PtrLinkTarget>,
    pub include_dirs_public: Vec<SourcePath>,
    pub include_dirs_private: Vec<SourcePath>,
    pub defines_private: Vec<String>,
    pub defines_public: Vec<String>,
    pub link_flags_public: Vec<String>,
    pub generator_vars: Option<String>,
    pub output_name: Option<String>,
}

/// An object library as declared.
#[derive(Clone, Debug)]
pub struct StarObjectLibrary {
    pub project: ProjectInfo,
    pub name: String,
    pub sources: Vec<SourcePath>,
    pub link_private: Vec<PtrLinkTarget>,
    pub link_public: Vec<PtrLinkTarget>,
    pub include_dirs_public: Vec<SourcePath>,
    pub include_dirs_private: Vec<SourcePath>,
    pub defines_private: Vec<String>,
    pub defines_public: Vec<String>,
    pub link_flags_public: Vec<String>,
    pub generator_vars: Option<String>,
    pub output_name: Option<String>,
}

/// An interface library as declared.
#[derive(Clone, Debug)]
pub struct StarIfaceLibrary {
    pub project: ProjectInfo,
    pub name: String,
    pub links: Vec<PtrLinkTarget>,
    pub include_dirs: Vec<SourcePath>,
    pub defines: Vec<String>,
    pub link_flags: Vec<String>,
}

/// A program as declared.
#[derive(Clone, Debug)]
pub struct StarExecutable {
    pub project: ProjectInfo,
    pub name: String,
    pub sources: Vec<SourcePath>,
    pub links: Vec<PtrLinkTarget>,
    pub include_dirs: Vec<SourcePath>,
    pub defines: Vec<String>,
    pub link_flags: Vec<String>,
    pub generator_vars: Option<String>,
    pub output_name: Option<String>,
}

/// The text of an optional name.
pub open spec fn name_view(o: Option<String>) -> Option<Seq<char>> {
    match o {
        Some(s) => Some(s@),
        None => None,
    }
}

/// A copy of an optional name.
pub fn clone_name(o: &Option<String>) -> (r: Option<String>)
    ensures
        name_view(r) == name_view(*o),
{
    match o {
        Some(s) => Some(s.clone()),
        None => None,
    }
}

impl StarStaticLibrary {
    /// Whether `lib` is this declaration with its sources sorted by
    /// language, its links turned into `link_private` and `link_public`,
    /// and its generator function replaced by `vars`.
    pub open spec fn is_image(
        &self,
        lib: &StaticLibrary,
        sources: SourcesView,
        link_private: Seq<LinkPtr>,
        link_public: Seq<LinkPtr>,
        vars: Option<GeneratorVarsView>,
    ) -> bool {
        &&& lib.project@ == self.project@
        &&& lib.name@ == self.name@
        &&& lib.sources@ == sources
        &&& lib.link_private@ == link_private
        &&& lib.link_public@ == link_public
        &&& path_views(lib.include_dirs_public@) == path_views(self.include_dirs_public@)
        &&& path_views(lib.include_dirs_private@) == path_views(self.include_dirs_private@)
        &&& texts(lib.defines_private@) == texts(self.defines_private@)
        &&& texts(lib.defines_public@) == texts(self.defines_public@)
        &&& texts(lib.link_flags_public@) == texts(self.link_flags_public@)
        &&& vars_view(lib.generator_vars) == vars
        &&& name_view(lib.output_name) == name_view(self.output_name)
    }

    /// The library that this declaration stands for, once its sources are
    /// sorted by language and its links are turned into libraries of the
    /// graph. A generator function that no one declared is refused.
    pub fn as_library(
        &self,
        sources: Sources,
        link_private: Vec<LinkPtr>,
        link_public: Vec<LinkPtr>,
        gen_name_map: &Vec<(String, GeneratorVars)>,
    ) -> (r: Result<StaticLibrary, String>)
        ensures
            match resolved_vars(gen_name_map@, self.generator_vars) {
                Ok(v) => r matches Ok(lib) && self.is_image(
                    &lib,
                    sources@,
                    link_private@,
                    link_public@,
                    v,
                ),
                Err(e) => r matches Err(m) && m@ == e,
            },
    {
        let generator_vars = match resolve_vars(gen_name_map, &self.generator_vars) {
            Ok(x) => x,
            Err(e) => {
                return Err(e);
            },
        };
        Ok(
            StaticLibrary {
                project: self.project.duplicate(),
                name: self.name.clone(),
                sources,
                include_dirs_private: clone_paths(&self.include_dirs_private),
                include_dirs_public: clone_paths(&self.include_dirs_public),
                link_private,
                link_public,
                defines_private: clone_strings(&self.defines_private),
                defines_public: clone_strings(&self.defines_public),
                link_flags_public: clone_strings(&self.link_flags_public),
                generator_vars,
                output_name: clone_name(&self.output_name),
            },
        )
    }
}

impl StarObjectLibrary {
    /// Whether `lib` is this declaration with its sources sorted by
    /// language, its links turned into `link_private` and `link_public`,
    /// and its generator function replaced by `vars`.
    pub open spec fn is_image(
        &self,
        lib: &ObjectLibrary,
        sources: SourcesView,
        link_private: Seq<LinkPtr>,
        link_public: Seq<LinkPtr>,
        vars: Option<GeneratorVarsView>,
    ) -> bool {
        &&& lib.project@ == self.project@
        &&& lib.name@ == self.name@
        &&& lib.sources@ == sources
        &&& lib.link_private@ == link_private
        &&& lib.link_public@ == link_public
        &&& path_views(lib.include_dirs_public@) == path_views(self.include_dirs_public@)
        &&& path_views(lib.include_dirs_private@) == path_views(self.include_dirs_private@)
        &&& texts(lib.defines_private@) == texts(self.defines_private@)
        &&& texts(lib.defines_public@) == texts(self.defines_public@)
        &&& texts(lib.link_flags_public@) == texts(self.link_flags_public@)
        &&& vars_view(lib.generator_vars) == vars
        &&& name_view(lib.output_name) == name_view(self.output_name)
    }

    /// The library that this declaration stands for.
    pub fn as_library(
        &self,
        sources: Sources,
        link_private: Vec<LinkPtr>,
        link_public: Vec<LinkPtr>,
        gen_name_map: &Vec<(String, GeneratorVars)>,
    ) -> (r: Result<ObjectLibrary, String>)
        ensures
            match resolved_vars(gen_name_map@, self.generator_vars) {
                Ok(v) => r matches Ok(lib) && self.is_image(
                    &lib,
                    sources@,
                    link_private@,
                    link_public@,
                    v,
                ),
                Err(e) => r matches Err(m) && m@ == e,
            },
    {
        let generator_vars = match resolve_vars(gen_name_map, &self.generator_vars) {
            Ok(x) => x,
            Err(e) => {
                return Err(e);
            },
        };
        Ok(
            ObjectLibrary {
                project: self.project.duplicate(),
                name: self.name.clone(),
                sources,
                include_dirs_private: clone_paths(&self.include_dirs_private),
                include_dirs_public: clone_paths(&self.include_dirs_public),
                link_private,
                link_public,
                defines_private: clone_strings(&self.defines_private),
                defines_public: clone_strings(&self.defines_public),
                link_flags_public: clone_strings(&self.link_flags_public),
                generator_vars,
                output_name: clone_name(&self.output_name),
            },
        )
    }
}

impl StarIfaceLibrary {
    /// Whether `lib` is this declaration with its links turned into
    /// `links`.
    pub open spec fn is_image(&self, lib: &InterfaceLibrary, links: Seq<LinkPtr>) -> bool {
        &&& lib.project@ == self.project@
        &&& lib.name@ == self.name@
        &&& lib.links@ == links
        &&& path_views(lib.include_dirs@) == path_views(self.include_dirs@)
        &&& texts(lib.defines@) == texts(self.defines@)
        &&& texts(lib.link_flags@) == texts(self.link_flags@)
    }

    /// The library that this declaration stands for.
    pub fn as_library(&self, links: Vec<LinkPtr>) -> (r: InterfaceLibrary)
        ensures
            self.is_image(&r, links@),
    {
        InterfaceLibrary {
            project: self.project.duplicate(),
            name: self.name.clone(),
            links,
            include_dirs: clone_paths(&self.include_dirs),
            defines: clone_strings(&self.defines),
            link_flags: clone_strings(&self.link_flags),
        }
    }
}

impl StarExecutable {
    /// Whether `exe` is this declaration with its sources sorted by
    /// language, its links turned into `links`, and its generator function
    /// replaced by `vars`.
    pub open spec fn is_image(
        &self,
        exe: &Executable,
        sources: SourcesView,
        links: Seq<LinkPtr>,
        vars: Option<GeneratorVarsView>,
    ) -> bool {
        &&& exe.project@ == self.project@
        &&& exe.name@ == self.name@
        &&& exe.sources@ == sources
        &&& exe.links@ == links
        &&& path_views(exe.include_dirs@) == path_views(self.include_dirs@)
        &&& texts(exe.defines@) == texts(self.defines@)
        &&& texts(exe.link_flags@) == texts(self.link_flags@)
        &&& vars_view(exe.generator_vars) == vars
        &&& name_view(exe.output_name) == name_view(self.output_name)
    }

    /// The program that this declaration stands for.
    pub fn as_executable(
        &self,
        sources: Sources,
        links: Vec<LinkPtr>,
        gen_name_map: &Vec<(String, GeneratorVars)>,
    ) -> (r: Result<Executable, String>)
        ensures
            match resolved_vars(gen_name_map@, self.generator_vars) {
                Ok(v) => r matches Ok(exe) && self.is_image(&exe, sources@, links@, v),
                Err(e) => r matches Err(m) && m@ == e,
            },
    {
        let generator_vars = match resolve_vars(gen_name_map, &self.generator_vars) {
            Ok(x) => x,
            Err(e) => {
                return Err(e);
            },
        };
        Ok(
            Executable {
                project: self.project.duplicate(),
                name: self.name.clone(),
                sources,
                links,
                include_dirs: clone_paths(&self.include_dirs),
                defines: clone_strings(&self.defines),
                link_flags: clone_strings(&self.link_flags),
                generator_vars,
                output_name: clone_name(&self.output_name),
            },
        )
    }
}

/// A declared library of one of the three kinds.
#[derive(Clone, Debug)]
pub enum StarLinkTarget {
    Static(StarStaticLibrary),
    Object(StarObjectLibrary),
    Interface(StarIfaceLibrary),
}

impl StarLinkTarget {
    /// The name the library was declared under.
    pub open spec fn spec_name(&self) -> Seq<char> {
        match self {
            StarLinkTarget::Static(x) => x.name@,
            StarLinkTarget::Object(x) => x.name@,
            StarLinkTarget::Interface(x) => x.name@,
        }
    }

    /// The name the library was declared under.
    pub fn name(&self) -> (r: &str)
        ensures
            r@ == self.spec_name(),
    {
        match self {
            StarLinkTarget::Static(x) => x.name.as_str(),
            StarLinkTarget::Object(x) => x.name.as_str(),
            StarLinkTarget::Interface(x) => x.name.as_str(),
        }
    }
}

} // verus!
