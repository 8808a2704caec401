use processbot::process::ProcessInfo;

fn record(owner: &str, delegate: Option<&str>, whitelist: &[&str]) -> ProcessInfo {
    ProcessInfo {
        project_name: "core".to_string(),
        owner: owner.to_string(),
        delegated_reviewer: delegate.map(|d| d.to_string()),
        whitelist: whitelist.iter().map(|w| w.to_string()).collect(),
        matrix_room_id: "!room:example.org".to_string(),
        backlog: Some("backlog".to_string()),
    }
}

#[test]
fn owner_or_delegate_is_owner_without_delegate() {
    let info = record("ann", None, &["bob"]);
    assert_eq!(info.owner_or_delegate(), "ann");
}

#[test]
fn owner_or_delegate_is_delegate_when_set() {
    let info = record("ann", Some("dee"), &["bob"]);
    assert_eq!(info.owner_or_delegate(), "dee");
}

#[test]
fn owner_or_delegate_ignores_whitelist() {
    let bare = record("ann", Some("dee"), &[]);
    let listed = record("ann", Some("dee"), &["ann", "dee", "bob", ""]);
    assert_eq!(bare.owner_or_delegate(), listed.owner_or_delegate());
    let bare = record("ann", None, &[]);
    let listed = record("ann", None, &["zed", "ann"]);
    assert_eq!(bare.owner_or_delegate(), listed.owner_or_delegate());
}

#[test]
fn is_owner_matches_owner_only() {
    let info = record("ann", Some("dee"), &["bob"]);
    assert!(info.is_owner("ann"));
    assert!(!info.is_owner("dee"));
    assert!(!info.is_owner("bob"));
    assert!(!info.is_owner("Ann"));
    assert!(!info.is_owner(""));
}

#[test]
fn is_delegated_reviewer_matches_delegate_only() {
    let info = record("ann", Some("dee"), &["bob"]);
    assert!(info.is_delegated_reviewer("dee"));
    assert!(!info.is_delegated_reviewer("ann"));
    assert!(!info.is_delegated_reviewer("bob"));
    let plain = record("ann", None, &["bob"]);
    assert!(!plain.is_delegated_reviewer("ann"));
    assert!(!plain.is_delegated_reviewer(""));
}

#[test]
fn is_owner_or_delegate_matches_both() {
    let info = record("ann", Some("dee"), &["bob"]);
    assert!(info.is_owner_or_delegate("ann"));
    assert!(info.is_owner_or_delegate("dee"));
    assert!(!info.is_owner_or_delegate("bob"));
    let plain = record("ann", None, &[]);
    assert!(plain.is_owner_or_delegate("ann"));
    assert!(!plain.is_owner_or_delegate("dee"));
}

#[test]
fn is_whitelisted_matches_list_only() {
    let info = record("ann", Some("dee"), &["bob", "cy"]);
    assert!(info.is_whitelisted("bob"));
    assert!(info.is_whitelisted("cy"));
    assert!(!info.is_whitelisted("ann"));
    assert!(!info.is_whitelisted("dee"));
    assert!(!info.is_whitelisted("bo"));
    let empty = record("ann", None, &[]);
    assert!(!empty.is_whitelisted("ann"));
}

#[test]
fn is_special_is_the_union_of_the_three() {
    let records = [
        record("ann", Some("dee"), &["bob", "cy"]),
        record("ann", None, &[]),
        record("ann", Some("ann"), &["ann"]),
        record("", None, &[""]),
    ];
    let logins = ["ann", "dee", "bob", "cy", "eve", "", "ANN"];
    for info in records.iter() {
        for login in logins.iter() {
            let union = info.is_owner(login)
                || info.is_delegated_reviewer(login)
                || info.is_whitelisted(login);
            assert_eq!(info.is_special(login), union);
        }
    }
    let info = record("ann", Some("dee"), &["bob"]);
    assert!(info.is_special("ann"));
    assert!(info.is_special("dee"));
    assert!(info.is_special("bob"));
    assert!(!info.is_special("eve"));
}

#[test]
fn clone_keeps_every_field() {
    let info = record("ann", Some("dee"), &["bob", "cy"]);
    let copy = info.clone();
    assert_eq!(copy.project_name, info.project_name);
    assert_eq!(copy.owner, info.owner);
    assert_eq!(copy.delegated_reviewer, info.delegated_reviewer);
    assert_eq!(copy.whitelist, info.whitelist);
    assert_eq!(copy.matrix_room_id, info.matrix_room_id);
    assert_eq!(copy.backlog, info.backlog);
}
