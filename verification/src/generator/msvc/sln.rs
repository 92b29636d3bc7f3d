//! The solution file.

use vstd::prelude::*;
use super::index_map::{project_views, VsProject, VsProjectView};
use super::vcxproj::configuration_name;
use crate::text::{spec_to_ascii_uppercase, texts, to_ascii_uppercase};

verus! {

/// The sections that declare the projects, the project made last first.
pub open spec fn sections_newest_first(projects: Seq<VsProjectView>) -> Seq<char>
    decreases projects.len(),
{
    if projects.len() == 0 {
        Seq::empty()
    } else {
        sections_newest_first(projects.drop_first()) + projects.first().to_sln_project_section()
    }
}

/// The configurations of one profile: one for every platform.
pub open spec fn configuration_row(profile_name: Seq<char>, platforms: Seq<Seq<char>>) -> Seq<
    Seq<char>,
> {
    Seq::new(platforms.len(), |i: int| configuration_name(profile_name, platforms[i]))
}

/// All configurations: for every profile in turn, every platform in turn.
pub open spec fn configurations(profile_names: Seq<Seq<char>>, platforms: Seq<Seq<char>>) -> Seq<
    Seq<char>,
>
    decreases profile_names.len(),
{
    if profile_names.len() == 0 {
        Seq::empty()
    } else {
        configurations(profile_names.drop_last(), platforms) + configuration_row(
            profile_names.last(),
            platforms,
        )
    }
}

/// The lines that declare the configurations of the solution.
pub open spec fn solution_lines(confs: Seq<Seq<char>>) -> Seq<char>
    decreases confs.len(),
{
    if confs.len() == 0 {
        Seq::empty()
    } else {
        solution_lines(confs.drop_last()) + "\t\t"@ + confs.last() + " = "@ + confs.last()
            + "\n"@
    }
}

/// The lines that map the configurations of the solution to those of
/// the project with the GUID `guid`.
pub open spec fn project_lines(guid: Seq<char>, confs: Seq<Seq<char>>) -> Seq<char>
    decreases confs.len(),
{
    if confs.len() == 0 {
        Seq::empty()
    } else {
        project_lines(guid, confs.drop_last()) + "\t\t{"@ + guid + "}."@ + confs.last()
            + ".ActiveCfg = "@ + confs.last() + "\n"@ + "\t\t{"@ + guid + "}."@ + confs.last()
            + ".Build.0 = "@ + confs.last() + "\n"@
    }
}

/// Those lines for every project in turn.
pub open spec fn all_project_lines(projects: Seq<VsProjectView>, confs: Seq<Seq<char>>) -> Seq<
    char,
>
    decreases projects.len(),
{
    if projects.len() == 0 {
        Seq::empty()
    } else {
        all_project_lines(projects.drop_last(), confs) + project_lines(
            spec_to_ascii_uppercase(projects.last().guid),
            confs,
        )
    }
}

/// The solution file: the projects, the project made last first, the
/// configurations, and the GUID of the solution.
pub open spec fn sln_text(
    projects: Seq<VsProjectView>,
    profile_names: Seq<Seq<char>>,
    platforms: Seq<Seq<char>>,
    sln_guid: Seq<char>,
) -> Seq<char> {
    "Microsoft Visual Studio Solution File, Format Version 12.00\n"@ + sections_newest_first(
        projects,
    ) + "Global\n\tGlobalSection(SolutionConfigurationPlatforms) = preSolution\n"@
        + solution_lines(configurations(profile_names, platforms)) + "\tEndGlobalSection\n"@
        + "\tGlobalSection(ProjectConfigurationPlatforms) = postSolution\n"@ + all_project_lines(
        projects,
        configurations(profile_names, platforms),
    ) + "\tEndGlobalSection\n"@
        + "\tGlobalSection(SolutionProperties) = preSolution\n\t\tHideSolutionNode = FALSE\n\tEndGlobalSection\n\tGlobalSection(ExtensibilityGlobals) = postSolution\n\t\tSolutionGuid = {"@
        + sln_guid + "}\n\tEndGlobalSection\n"@ + "EndGlobal\n"@
}

/// All configurations: for every profile in turn, every platform in turn.
pub fn make_configurations(profile_names: &Vec<String>, platforms: &Vec<String>) -> (r: Vec<
    String,
>)
    ensures
        texts(r@) == configurations(texts(profile_names@), texts(platforms@)),
{
    let mut out: Vec<String> = Vec::new();
    assert(texts(out@) =~= Seq::<Seq<char>>::empty());
    let ghost names = texts(profile_names@);
    let mut i: usize = 0;
    while i < profile_names.len()
        invariant
            i <= profile_names@.len(),
            names == texts(profile_names@),
            texts(out@) == configurations(names.take(i as int), texts(platforms@)),
        decreases profile_names@.len() - i,
    {
        proof {
            assert(names.take(i + 1).drop_last() =~= names.take(i as int));
            assert(names.take(i + 1).last() == profile_names@[i as int]@);
        }
        let ghost head = texts(out@);
        let ghost row = configuration_row(profile_names@[i as int]@, texts(platforms@));
        let mut k: usize = 0;
        assert(texts(out@) =~= head + row.take(0));
        while k < platforms.len()
            invariant
                k <= platforms@.len(),
                i < profile_names@.len(),
                row == configuration_row(profile_names@[i as int]@, texts(platforms@)),
                texts(out@) == head + row.take(k as int),
            decreases platforms@.len() - k,
        {
            let ghost before = out@;
            let mut conf = profile_names[i].clone();
            conf.append("|");
            conf.append(platforms[k].as_str());
            out.push(conf);
            k += 1;
            proof {
                assert(texts(out@) =~= texts(before).push(row[k - 1]));
                assert(row.take(k as int) =~= row.take(k - 1).push(row[k - 1]));
                assert(texts(out@) =~= head + row.take(k as int));
            }
        }
        assert(row.take(row.len() as int) =~= row);
        i += 1;
    }
    assert(names.take(names.len() as int) =~= names);
    out
}

/// Appends the lines that declare the configurations of the solution.
pub fn append_solution_lines(out: &mut String, confs: &Vec<String>)
    ensures
        final(out)@ == old(out)@ + solution_lines(texts(confs@)),
{
    let ghost all = texts(confs@);
    let mut i: usize = 0;
    assert(out@ =~= old(out)@ + solution_lines(all.take(0)));
    while i < confs.len()
        invariant
            i <= confs@.len(),
            all == texts(confs@),
            out@ == old(out)@ + solution_lines(all.take(i as int)),
        decreases confs@.len() - i,
    {
        proof {
            assert(all.take(i + 1).drop_last() =~= all.take(i as int));
            assert(all.take(i + 1).last() == confs@[i as int]@);
        }
        out.append("\t\t");
        out.append(confs[i].as_str());
        out.append(" = ");
        out.append(confs[i].as_str());
        out.append("\n");
        i += 1;
        assert(out@ =~= old(out)@ + solution_lines(all.take(i as int)));
    }
    assert(all.take(all.len() as int) =~= all);
}

/// Appends the lines that map the configurations of the solution to
/// those of one project.
pub fn append_project_lines(out: &mut String, guid: &str, confs: &Vec<String>)
    ensures
        final(out)@ == old(out)@ + project_lines(guid@, texts(confs@)),
{
    let ghost all = texts(confs@);
    let mut i: usize = 0;
    assert(out@ =~= old(out)@ + project_lines(guid@, all.take(0)));
    while i < confs.len()
        invariant
            i <= confs@.len(),
            all == texts(confs@),
            out@ == old(out)@ + project_lines(guid@, all.take(i as int)),
        decreases confs@.len() - i,
    {
        proof {
            assert(all.take(i + 1).drop_last() =~= all.take(i as int));
            assert(all.take(i + 1).last() == confs@[i as int]@);
        }
        out.append("\t\t{");
        out.append(guid);
        out.append("}.");
        out.append(confs[i].as_str());
        out.append(".ActiveCfg = ");
        out.append(confs[i].as_str());
        out.append("\n");
        out.append("\t\t{");
        out.append(guid);
        out.append("}.");
        out.append(confs[i].as_str());
        out.append(".Build.0 = ");
        out.append(confs[i].as_str());
        out.append("\n");
        i += 1;
        assert(out@ =~= old(out)@ + project_lines(guid@, all.take(i as int)));
    }
    assert(all.take(all.len() as int) =~= all);
}

/// The solution file.
pub fn make_sln(
    projects: &Vec<VsProject>,
    profile_names: &Vec<String>,
    platforms: &Vec<String>,
    sln_guid: &str,
) -> (r: String)
    ensures
        r@ == sln_text(
            project_views(projects@),
            texts(profile_names@),
            texts(platforms@),
            sln_guid@,
        ),
{
    let ghost all = project_views(projects@);
    let mut out: String = "Microsoft Visual Studio Solution File, Format Version 12.00\n".to_owned();
    let ghost head = out@;
    // The projects that matter most come first in the list.
    let mut j: usize = projects.len();
    assert(all.skip(j as int) =~= Seq::empty());
    assert(out@ =~= head + sections_newest_first(all.skip(j as int)));
    while j > 0
        invariant
            j <= projects@.len(),
            all == project_views(projects@),
            out@ == head + sections_newest_first(all.skip(j as int)),
        decreases j,
    {
        proof {
            assert(all.skip(j - 1).drop_first() =~= all.skip(j as int));
            assert(all.skip(j - 1).first() == projects@[j - 1]@);
        }
        j -= 1;
        let section = projects[j].to_sln_project_section();
        out.append(section.as_str());
        assert(out@ =~= head + sections_newest_first(all.skip(j as int)));
    }
    assert(all.skip(0) =~= all);
    out.append("Global\n\tGlobalSection(SolutionConfigurationPlatforms) = preSolution\n");
    let confs = make_configurations(profile_names, platforms);
    append_solution_lines(&mut out, &confs);
    out.append("\tEndGlobalSection\n");
    out.append("\tGlobalSection(ProjectConfigurationPlatforms) = postSolution\n");
    let ghost before = out@;
    let mut i: usize = 0;
    assert(out@ =~= before + all_project_lines(all.take(0), texts(confs@)));
    while i < projects.len()
        invariant
            i <= projects@.len(),
            all == project_views(projects@),
            out@ == before + all_project_lines(all.take(i as int), texts(confs@)),
        decreases projects@.len() - i,
    {
        proof {
            assert(all.take(i + 1).drop_last() =~= all.take(i as int));
            assert(all.take(i + 1).last() == projects@[i as int]@);
        }
        let guid = to_ascii_uppercase(projects[i].guid.as_str());
        append_project_lines(&mut out, guid.as_str(), &confs);
        i += 1;
        assert(out@ =~= before + all_project_lines(all.take(i as int), texts(confs@)));
    }
    assert(all.take(all.len() as int) =~= all);
    out.append("\tEndGlobalSection\n");
    out.append(
        "\tGlobalSection(SolutionProperties) = preSolution\n\t\tHideSolutionNode = FALSE\n\tEndGlobalSection\n\tGlobalSection(ExtensibilityGlobals) = postSolution\n\t\tSolutionGuid = {",
    );
    out.append(sln_guid);
    out.append("}\n\tEndGlobalSection\n");
    out.append("EndGlobal\n");
    out
}

} // verus!
