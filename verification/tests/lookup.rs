use processbot::github::Project;
use processbot::process::process_from_projects;
use processbot::process::process_matching_project;
use processbot::process::CombinedProcessInfo;
use processbot::process::ProcessInfo;

fn record(name: &str, owner: &str) -> ProcessInfo {
    ProcessInfo {
        project_name: name.to_string(),
        owner: owner.to_string(),
        delegated_reviewer: None,
        whitelist: vec![],
        matrix_room_id: format!("!{}", name),
        backlog: None,
    }
}

fn project(name: &str) -> Project {
    Project { name: name.to_string() }
}

#[test]
fn matching_project_finds_record_by_name() {
    let processes = vec![record("a", "ann"), record("b", "bob"), record("c", "cy")];
    let found = process_matching_project(&processes, &project("b"));
    assert_eq!(found.map(|p| p.owner.as_str()), Some("bob"));
    assert!(process_matching_project(&processes, &project("d")).is_none());
    assert!(process_matching_project(&processes, &project("B")).is_none());
    assert!(process_matching_project(&[], &project("a")).is_none());
}

#[test]
fn matching_project_takes_the_first_of_equal_names() {
    let processes = vec![record("a", "ann"), record("b", "first"), record("b", "second")];
    let found = process_matching_project(&processes, &project("b"));
    assert_eq!(found.map(|p| p.owner.as_str()), Some("first"));
}

#[test]
fn from_projects_keeps_places_and_gaps() {
    let processes = vec![record("a", "ann"), record("b", "bob")];
    let projects = vec![Some(project("b")), None, Some(project("zzz")), Some(project("a")), Some(project("b"))];
    let found = process_from_projects(&projects, &processes);
    let owners: Vec<Option<&str>> = found.iter().map(|r| r.as_ref().map(|p| p.owner.as_str())).collect();
    assert_eq!(owners, vec![Some("bob"), None, None, Some("ann"), Some("bob")]);
}

#[test]
fn from_projects_of_nothing_is_nothing() {
    let processes = vec![record("a", "ann")];
    assert!(process_from_projects(&[], &processes).is_empty());
    let found = process_from_projects(&[Some(project("a")), None], &[]);
    assert_eq!(found.len(), 2);
    assert!(found[0].is_none());
    assert!(found[1].is_none());
}

#[test]
fn from_projects_feeds_combine() {
    let processes = vec![record("a", "ann"), record("b", "bob"), record("c", "cy")];
    let projects = vec![Some(project("c")), Some(project("gone")), Some(project("a"))];
    let combined = CombinedProcessInfo::new(process_from_projects(&projects, &processes));
    assert_eq!(combined.primary_owner(), Some("cy".to_string()));
    let linked: Vec<&str> = combined.linked.iter().map(|p| p.project_name.as_str()).collect();
    assert_eq!(linked, vec!["a"]);
    assert_eq!(combined.len(), 2);
}
