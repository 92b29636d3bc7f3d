//! The projects of a solution, in the order in which they were made and
//! by the library each was made for.

use std::collections::HashMap;
use vstd::prelude::*;
use crate::text::{spec_to_ascii_uppercase, texts, to_ascii_uppercase};
use crate::unique::clone_strings;

verus! {

/// The GUID that marks a project as a C++ project.
pub open spec fn vs_cpp_guid() -> Seq<char> {
    "8BC9CEB8-8B4A-11D0-8D11-00A0C91BC942"@
}

/// A project of a solution.
#[derive(Clone, Debug)]
pub struct VsProject {
    pub name: String,
    pub guid: String,
    pub vcxproj_path: String,
    /// The GUIDs of the projects that this one depends on.
    pub dependencies: Vec<String>,
    pub has_nasm: bool,
}

/// The mathematical value of [`VsProject`].
pub struct VsProjectView {
    pub name: Seq<char>,
    pub guid: Seq<char>,
    pub vcxproj_path: Seq<char>,
    pub dependencies: Seq<Seq<char>>,
    pub has_nasm: bool,
}

impl View for VsProject {
    type V = VsProjectView;

    open spec fn view(&self) -> VsProjectView {
        VsProjectView {
            name: self.name@,
            guid: self.guid@,
            vcxproj_path: self.vcxproj_path@,
            dependencies: texts(self.dependencies@),
            has_nasm: self.has_nasm,
        }
    }
}

/// The lines that name the projects a project depends on.
pub open spec fn dependency_lines(guids: Seq<Seq<char>>) -> Seq<char>
    decreases guids.len(),
{
    if guids.len() == 0 {
        Seq::empty()
    } else {
        dependency_lines(guids.drop_last()) + "\t\t{"@ + spec_to_ascii_uppercase(guids.last())
            + "} = {"@ + spec_to_ascii_uppercase(guids.last()) + "}\n"@
    }
}

impl VsProjectView {
    /// The section of the solution file that declares the project.
    pub open spec fn to_sln_project_section(self) -> Seq<char> {
        "Project(\"{"@ + vs_cpp_guid() + "}\") = \""@ + self.name + "\", \""@ + self.vcxproj_path
            + "\", \"{"@ + spec_to_ascii_uppercase(self.guid) + "}\"\n"@ + (if self.dependencies.len()
            != 0 {
            "\tProjectSection(ProjectDependencies) = postProject\n"@ + dependency_lines(
                self.dependencies,
            ) + "\tEndProjectSection\n"@
        } else {
            Seq::empty()
        }) + "EndProject\n"@
    }
}

impl VsProject {
    /// A copy with the same value.
    pub fn duplicate(&self) -> (r: VsProject)
        ensures
            r@ == self@,
    {
        VsProject {
            name: self.name.clone(),
            guid: self.guid.clone(),
            vcxproj_path: self.vcxproj_path.clone(),
            dependencies: clone_strings(&self.dependencies),
            has_nasm: self.has_nasm,
        }
    }

    /// The section of the solution file that declares the project.
    pub fn to_sln_project_section(&self) -> (r: String)
        ensures
            r@ == self@.to_sln_project_section(),
    {
        let guid = to_ascii_uppercase(self.guid.as_str());
        let mut ret: String = "Project(\"{".to_owned();
        ret.append("8BC9CEB8-8B4A-11D0-8D11-00A0C91BC942");
        ret.append("}\") = \"");
        ret.append(self.name.as_str());
        ret.append("\", \"");
        ret.append(self.vcxproj_path.as_str());
        ret.append("\", \"{");
        ret.append(guid.as_str());
        ret.append("}\"\n");
        let ghost head = ret@;
        if self.dependencies.len() != 0 {
            ret.append("\tProjectSection(ProjectDependencies) = postProject\n");
        }
        let ghost start = ret@;
        let ghost deps = texts(self.dependencies@);
        let mut i: usize = 0;
        assert(ret@ =~= start + dependency_lines(deps.take(0)));
        while i < self.dependencies.len()
            invariant
                i <= self.dependencies@.len(),
                deps == texts(self.dependencies@),
                ret@ == start + dependency_lines(deps.take(i as int)),
            decreases self.dependencies@.len() - i,
        {
            proof {
                assert(deps.take(i + 1).drop_last() =~= deps.take(i as int));
                assert(deps.take(i + 1).last() == self.dependencies@[i as int]@);
            }
            let dep_guid = to_ascii_uppercase(self.dependencies[i].as_str());
            ret.append("\t\t{");
            ret.append(dep_guid.as_str());
            ret.append("} = {");
            ret.append(dep_guid.as_str());
            ret.append("}\n");
            i += 1;
            assert(ret@ =~= start + dependency_lines(deps.take(i as int)));
        }
        assert(deps.take(deps.len() as int) =~= deps);
        if self.dependencies.len() != 0 {
            ret.append("\tEndProjectSection\n");
            assert(ret@ =~= head + ("\tProjectSection(ProjectDependencies) = postProject\n"@
                + dependency_lines(deps) + "\tEndProjectSection\n"@));
        } else {
            assert(ret@ =~= head + Seq::<char>::empty());
        }
        ret.append("EndProject\n");
        ret
    }
}

/// The values of a list of projects.
pub open spec fn project_views(v: Seq<VsProject>) -> Seq<VsProjectView> {
    Seq::new(v.len(), |i: int| v[i]@)
}

/// The projects that were made, in the order in which they were made,
/// and for every library that a project was made for the place of that
/// project.
#[derive(Debug)]
pub struct IndexMap {
    vec: Vec<VsProject>,
    map: HashMap<usize, usize>,
}

/// The mathematical value of [`IndexMap`].
pub struct IndexMapView {
    pub projects: Seq<VsProjectView>,
    pub index: Map<usize, usize>,
}

impl IndexMapView {
    /// No projects.
    pub open spec fn empty() -> IndexMapView {
        IndexMapView { projects: Seq::empty(), index: Map::empty() }
    }

    /// The project that was made for the library at `key`.
    pub open spec fn get(self, key: usize) -> Option<VsProjectView> {
        if self.index.contains_key(key) && self.index[key] < self.projects.len() {
            Some(self.projects[self.index[key] as int])
        } else {
            None
        }
    }

    /// With one more project, made for the library at `key`.
    pub open spec fn insert(self, key: usize, val: VsProjectView) -> IndexMapView {
        IndexMapView {
            projects: self.projects.push(val),
            index: self.index.insert(key, self.projects.len() as usize),
        }
    }

    /// With one more project, made for a program.
    pub open spec fn insert_exe(self, val: VsProjectView) -> IndexMapView {
        IndexMapView { projects: self.projects.push(val), index: self.index }
    }
}

impl View for IndexMap {
    type V = IndexMapView;

    closed spec fn view(&self) -> IndexMapView {
        IndexMapView { projects: project_views(self.vec@), index: self.map@ }
    }
}

impl IndexMap {
    /// No projects.
    pub fn new() -> (r: Self)
        ensures
            r@ == IndexMapView::empty(),
    {
        let r = IndexMap { vec: Vec::new(), map: HashMap::new() };
        assert(r@.projects =~= Seq::empty());
        r
    }

    /// The number of projects.
    pub fn len(&self) -> (r: usize)
        ensures
            r == self@.projects.len(),
    {
        self.vec.len()
    }

    /// Whether a project was made for the library at `key`.
    pub fn contains_key(&self, key: usize) -> (r: bool)
        ensures
            r == self@.index.contains_key(key),
    {
        self.map.contains_key(&key)
    }

    /// The project that was made for the library at `key`.
    pub fn get(&self, key: usize) -> (r: Option<&VsProject>)
        ensures
            match self@.get(key) {
                Some(v) => r matches Some(x) && x@ == v,
                None => r is None,
            },
    {
        let index = match self.map.get(&key) {
            Some(x) => *x,
            None => {
                return None;
            },
        };
        if index < self.vec.len() {
            Some(&self.vec[index])
        } else {
            None
        }
    }

    /// Adds the project `val`, made for the library at `key`.
    pub fn insert(&mut self, key: usize, val: VsProject)
        ensures
            final(self)@ == old(self)@.insert(key, val@),
    {
        self.map.insert(key, self.vec.len());
        self.vec.push(val);
        assert(self@.projects =~= old(self)@.projects.push(val@));
    }

    /// Adds the project `val`, made for a program.
    pub fn insert_exe(&mut self, val: VsProject)
        ensures
            final(self)@ == old(self)@.insert_exe(val@),
    {
        self.vec.push(val);
        assert(self@.projects =~= old(self)@.projects.push(val@));
    }

    /// The projects in the order in which they were made.
    pub fn iter(&self) -> (r: &Vec<VsProject>)
        ensures
            project_views(r@) == self@.projects,
    {
        &self.vec
    }
}

} // verus!
