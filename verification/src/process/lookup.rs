//! Finding the record that belongs to a project.

use crate::github::Project;
use crate::process::info::ProcessInfo;
use crate::process::info::ProcessInfoView;
use vstd::prelude::*;

verus! {

/// The plain data of a list of records.
pub open spec fn records_view(records: Seq<ProcessInfo>) -> Seq<ProcessInfoView> {
    records.map_values(|r: ProcessInfo| r@)
}

/// The plain data of an optional record.
pub open spec fn option_view(record: Option<ProcessInfo>) -> Option<ProcessInfoView> {
    match record {
        Some(r) => Some(r@),
        None => None,
    }
}

/// The plain data of a list of optional records.
pub open spec fn options_view(records: Seq<Option<ProcessInfo>>) -> Seq<Option<ProcessInfoView>> {
    records.map_values(|r: Option<ProcessInfo>| option_view(r))
}

/// The first of `records` whose project is named `name`.
pub open spec fn find_named(records: Seq<ProcessInfoView>, name: Seq<char>) -> Option<
    ProcessInfoView,
>
    decreases records.len(),
{
    if records.len() == 0 {
        None
    } else if records[0].project_name == name {
        Some(records[0])
    } else {
        find_named(records.skip(1), name)
    }
}

/// The name of an optional project.
pub open spec fn name_of(project: Option<Project>) -> Option<Seq<char>> {
    match project {
        Some(p) => Some(p.name@),
        None => None,
    }
}

/// For each project reference its record: the first record of that name, and
/// none for a reference that is empty or names no record.
pub open spec fn resolve(projects: Seq<Option<Seq<char>>>, records: Seq<ProcessInfoView>) -> Seq<
    Option<ProcessInfoView>,
> {
    projects.map_values(
        |p: Option<Seq<char>>|
            match p {
                Some(name) => find_named(records, name),
                None => None,
            },
    )
}

/// `find_named` gives the first record of that name, and nothing exactly
/// when no record has it.
pub proof fn lemma_find_named_is_first(records: Seq<ProcessInfoView>, name: Seq<char>)
    ensures
        match find_named(records, name) {
            Some(found) => exists|i: int|
                0 <= i < records.len() && #[trigger] records[i] == found && found.project_name
                    == name && forall|j: int| 0 <= j < i ==> records[j].project_name != name,
            None => forall|j: int| 0 <= j < records.len() ==> records[j].project_name != name,
        },
    decreases records.len(),
{
    if records.len() == 0 {
    } else if records[0].project_name == name {
        assert(records[0] == find_named(records, name)->0);
    } else {
        let rest = records.skip(1);
        lemma_find_named_is_first(rest, name);
        match find_named(rest, name) {
            Some(found) => {
                let i = choose|i: int|
                    0 <= i < rest.len() && #[trigger] rest[i] == found && found.project_name
                        == name && forall|j: int| 0 <= j < i ==> rest[j].project_name != name;
                assert(records[i + 1] == found);
                assert forall|j: int| 0 <= j < i + 1 implies records[j].project_name != name by {
                    if j > 0 {
                        assert(rest[j - 1] == records[j]);
                    }
                }
            },
            None => {
                assert forall|j: int| 0 <= j < records.len() implies records[j].project_name
                    != name by {
                    if j > 0 {
                        assert(rest[j - 1] == records[j]);
                    }
                }
            },
        }
    }
}

/// The first record whose project has the name of `project`.
pub fn process_matching_project<'a>(processes: &'a [ProcessInfo], project: &Project) -> (found:
    Option<&'a ProcessInfo>)
    ensures
        option_view(
            match found {
                Some(r) => Some(*r),
                None => None,
            },
        ) == find_named(records_view(processes@), project.name@),
{
    let ghost records = records_view(processes@);
    let mut i: usize = 0;
    assert(records.skip(0) =~= records);
    while i < processes.len()
        invariant
            i <= processes.len(),
            records == records_view(processes@),
            find_named(records, project.name@) == find_named(records.skip(i as int), project.name@),
        decreases processes.len() - i,
    {
        let ghost rest = records.skip(i as int);
        assert(rest[0] == processes@[i as int]@);
        if project.name.as_str().eq(processes[i].project_name.as_str()) {
            return Some(&processes[i]);
        }
        assert(rest.skip(1) =~= records.skip(i as int + 1));
        i += 1;
    }
    None
}

/// For each project reference its record, copied: the first record of that
/// name, and none for a reference that is empty or names no record.
pub fn process_from_projects(projects: &[Option<Project>], processes: &[ProcessInfo]) -> (found:
    Vec<Option<ProcessInfo>>)
    ensures
        options_view(found@) == resolve(
            projects@.map_values(|p: Option<Project>| name_of(p)),
            records_view(processes@),
        ),
{
    let ghost names = projects@.map_values(|p: Option<Project>| name_of(p));
    let ghost wanted = resolve(names, records_view(processes@));
    let mut found: Vec<Option<ProcessInfo>> = Vec::new();
    let mut k: usize = 0;
    while k < projects.len()
        invariant
            k <= projects.len(),
            names == projects@.map_values(|p: Option<Project>| name_of(p)),
            wanted == resolve(names, records_view(processes@)),
            found@.len() == k,
            forall|j: int| 0 <= j < k ==> option_view(found@[j]) == wanted[j],
        decreases projects.len() - k,
    {
        let record = match &projects[k] {
            Some(project) => match process_matching_project(processes, project) {
                Some(r) => Some(r.clone()),
                None => None,
            },
            None => None,
        };
        assert(option_view(record) == wanted[k as int]);
        found.push(record);
        k += 1;
    }
    assert(options_view(found@) =~= wanted);
    found
}

} // verus!
