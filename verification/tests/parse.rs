use processbot::error::FailureKind;
use processbot::github::Contents;
use processbot::codec::parse_table;
use processbot::process::parse::strip_newlines;
use processbot::process::process_from_contents;
use processbot::process::process_from_table;
use processbot::process::ProcessFeatures;
use processbot::process::ProcessInfo;
use processbot::process::ProcessWrapper;
use processbot::table::Datum;
use processbot::table::Table;

fn text(s: &str) -> Datum {
    Datum::String(s.to_string())
}

fn list(items: &[&str]) -> Datum {
    Datum::Array(items.iter().map(|s| text(s)).collect())
}

fn table(entries: Vec<(&str, Datum)>) -> Table {
    Table { entries: entries.into_iter().map(|(k, v)| (k.to_string(), v)).collect() }
}

fn block(entries: Vec<(&str, Datum)>) -> Datum {
    Datum::Table(table(entries))
}

fn full_block() -> Vec<(&'static str, Datum)> {
    vec![
        ("owner", text("ann")),
        ("delegated_reviewer", text("dee")),
        ("whitelist", list(&["bob", "cy"])),
        ("matrix_room_id", text("!core:example.org")),
        ("backlog", text("to do")),
    ]
}

fn plain_block(owner: &str) -> Datum {
    block(vec![("owner", text(owner)), ("whitelist", list(&[])), ("matrix_room_id", text("!r"))])
}

fn projects(entries: &[ProcessWrapper]) -> Vec<&ProcessInfo> {
    entries
        .iter()
        .filter_map(|w| match w {
            ProcessWrapper::Project(p) => Some(p),
            ProcessWrapper::Features(_) => None,
        })
        .collect()
}

fn features(entries: &[ProcessWrapper]) -> Vec<&ProcessFeatures> {
    entries
        .iter()
        .filter_map(|w| match w {
            ProcessWrapper::Features(f) => Some(f),
            ProcessWrapper::Project(_) => None,
        })
        .collect()
}

fn project_names(entries: &[ProcessWrapper]) -> Vec<&str> {
    projects(entries).into_iter().map(|p| p.project_name.as_str()).collect()
}

fn contents(document: &str) -> Contents {
    Contents { content: base64::encode(document) }
}

#[test]
fn default_features_enable_merge_and_compare_only() {
    let flags = ProcessFeatures::default();
    assert!(flags.auto_merge);
    assert!(flags.compare_release);
    assert!(!flags.issue_project);
    assert!(!flags.issue_addressed);
    assert!(!flags.issue_assigned);
    assert!(!flags.review_requests);
    assert!(!flags.status_notifications);
}

#[test]
fn empty_table_gives_nothing() {
    assert!(process_from_table(table(vec![])).is_empty());
}

#[test]
fn empty_features_block_gives_defaults() {
    let entries = process_from_table(table(vec![("features", block(vec![]))]));
    assert_eq!(entries.len(), 1);
    assert_eq!(features(&entries), vec![&ProcessFeatures::default()]);
}

#[test]
fn features_block_sets_each_flag() {
    let entries = process_from_table(table(vec![(
        "features",
        block(vec![
            ("auto_merge", Datum::Boolean(false)),
            ("compare_release", Datum::Boolean(false)),
            ("issue_project", Datum::Boolean(true)),
            ("issue_addressed", Datum::Boolean(true)),
            ("issue_assigned", Datum::Boolean(true)),
            ("review_requests", Datum::Boolean(true)),
            ("status_notifications", Datum::Boolean(true)),
        ]),
    )]));
    let expected = ProcessFeatures {
        auto_merge: false,
        compare_release: false,
        issue_project: true,
        issue_addressed: true,
        issue_assigned: true,
        review_requests: true,
        status_notifications: true,
    };
    assert_eq!(features(&entries), vec![&expected]);
}

#[test]
fn features_block_sets_one_flag_and_keeps_the_rest() {
    let names = [
        "auto_merge",
        "compare_release",
        "issue_project",
        "issue_addressed",
        "issue_assigned",
        "review_requests",
        "status_notifications",
    ];
    for (i, name) in names.iter().enumerate() {
        let default = i < 2;
        let entries = process_from_table(table(vec![("features", block(vec![(*name, Datum::Boolean(!default))]))]));
        let flags = *features(&entries)[0];
        let got = [
            flags.auto_merge,
            flags.compare_release,
            flags.issue_project,
            flags.issue_addressed,
            flags.issue_assigned,
            flags.review_requests,
            flags.status_notifications,
        ];
        for (j, value) in got.iter().enumerate() {
            let expected = if j == i { !default } else { j < 2 };
            assert_eq!(*value, expected, "flag {} when {} is set", names[j], name);
        }
    }
}

#[test]
fn wrong_typed_flag_falls_back_to_default() {
    let entries = process_from_table(table(vec![(
        "features",
        block(vec![
            ("auto_merge", text("false")),
            ("compare_release", Datum::Integer(0)),
            ("issue_project", text("true")),
            ("issue_addressed", Datum::Integer(1)),
            ("issue_assigned", list(&["true"])),
            ("review_requests", block(vec![])),
            ("status_notifications", Datum::Float),
        ]),
    )]));
    assert_eq!(features(&entries), vec![&ProcessFeatures::default()]);
}

#[test]
fn features_key_that_is_no_table_is_dropped() {
    let entries = process_from_table(table(vec![
        ("features", Datum::Boolean(true)),
        ("core", plain_block("ann")),
    ]));
    assert!(features(&entries).is_empty());
    assert_eq!(project_names(&entries), vec!["core"]);
}

#[test]
fn features_block_is_never_a_project() {
    let entries = process_from_table(table(vec![("features", block(full_block()))]));
    assert_eq!(entries.len(), 1);
    assert!(projects(&entries).is_empty());
    assert_eq!(features(&entries), vec![&ProcessFeatures::default()]);
}

#[test]
fn complete_project_gives_record_with_every_field() {
    let entries = process_from_table(table(vec![("core", block(full_block()))]));
    assert_eq!(entries.len(), 1);
    let record = projects(&entries)[0];
    assert_eq!(record.project_name, "core");
    assert_eq!(record.owner, "ann");
    assert_eq!(record.delegated_reviewer, Some("dee".to_string()));
    assert_eq!(record.whitelist, vec!["bob".to_string(), "cy".to_string()]);
    assert_eq!(record.matrix_room_id, "!core:example.org");
    assert_eq!(record.backlog, Some("to do".to_string()));
}

#[test]
fn optional_fields_may_be_missing() {
    let entries = process_from_table(table(vec![("core", plain_block("ann"))]));
    let record = projects(&entries)[0];
    assert_eq!(record.owner, "ann");
    assert_eq!(record.delegated_reviewer, None);
    assert!(record.whitelist.is_empty());
    assert_eq!(record.matrix_room_id, "!r");
    assert_eq!(record.backlog, None);
}

#[test]
fn wrong_typed_optional_fields_count_as_missing() {
    let entries = process_from_table(table(vec![(
        "core",
        block(vec![
            ("owner", text("ann")),
            ("delegated_reviewer", Datum::Integer(4)),
            ("whitelist", list(&["bob"])),
            ("matrix_room_id", text("!r")),
            ("backlog", Datum::Boolean(true)),
        ]),
    )]));
    let record = projects(&entries)[0];
    assert_eq!(record.delegated_reviewer, None);
    assert_eq!(record.backlog, None);
    assert_eq!(record.whitelist, vec!["bob".to_string()]);
}

#[test]
fn dropping_a_required_key_drops_only_that_project() {
    for missing in ["owner", "whitelist", "matrix_room_id"].iter() {
        let thinned: Vec<(&str, Datum)> = full_block().into_iter().filter(|(k, _)| k != missing).collect();
        let entries = process_from_table(table(vec![
            ("alpha", plain_block("ann")),
            ("core", block(thinned)),
            ("features", block(vec![("issue_project", Datum::Boolean(true))])),
            ("omega", plain_block("zed")),
        ]));
        assert_eq!(project_names(&entries), vec!["alpha", "omega"], "without {}", missing);
        assert_eq!(entries.len(), 3);
        assert_eq!(projects(&entries)[0].owner, "ann");
        assert_eq!(projects(&entries)[1].owner, "zed");
        assert!(features(&entries)[0].issue_project);
    }
    let entries = process_from_table(table(vec![
        ("alpha", plain_block("ann")),
        ("core", block(full_block())),
        ("features", block(vec![("issue_project", Datum::Boolean(true))])),
        ("omega", plain_block("zed")),
    ]));
    assert_eq!(project_names(&entries), vec!["alpha", "core", "omega"]);
}

#[test]
fn dropping_an_optional_key_keeps_the_project() {
    for missing in ["delegated_reviewer", "backlog"].iter() {
        let thinned: Vec<(&str, Datum)> = full_block().into_iter().filter(|(k, _)| k != missing).collect();
        let entries = process_from_table(table(vec![("core", block(thinned))]));
        assert_eq!(project_names(&entries), vec!["core"]);
    }
}

#[test]
fn owner_or_room_that_is_no_text_drops_the_project() {
    let entries = process_from_table(table(vec![
        (
            "numbered",
            block(vec![("owner", Datum::Integer(5)), ("whitelist", list(&[])), ("matrix_room_id", text("!r"))]),
        ),
        (
            "roomless",
            block(vec![("owner", text("ann")), ("whitelist", list(&[])), ("matrix_room_id", list(&["!r"]))]),
        ),
        ("good", plain_block("bob")),
    ]));
    assert_eq!(project_names(&entries), vec!["good"]);
}

#[test]
fn empty_owner_text_is_still_an_owner() {
    let entries = process_from_table(table(vec![(
        "core",
        block(vec![("owner", text("")), ("whitelist", list(&[])), ("matrix_room_id", text(""))]),
    )]));
    let record = projects(&entries)[0];
    assert_eq!(record.owner, "");
    assert_eq!(record.matrix_room_id, "");
}

#[test]
fn whitelist_keeps_only_its_text_items() {
    let entries = process_from_table(table(vec![(
        "core",
        block(vec![
            ("owner", text("ann")),
            (
                "whitelist",
                Datum::Array(vec![
                    text("bob"),
                    Datum::Integer(3),
                    text("cy"),
                    Datum::Boolean(true),
                    list(&["nested"]),
                    text("bob"),
                ]),
            ),
            ("matrix_room_id", text("!r")),
        ]),
    )]));
    assert_eq!(projects(&entries)[0].whitelist, vec!["bob".to_string(), "cy".to_string(), "bob".to_string()]);
}

#[test]
fn whitelist_that_is_no_list_counts_as_empty() {
    let entries = process_from_table(table(vec![(
        "core",
        block(vec![("owner", text("ann")), ("whitelist", text("bob")), ("matrix_room_id", text("!r"))]),
    )]));
    assert_eq!(project_names(&entries), vec!["core"]);
    assert!(projects(&entries)[0].whitelist.is_empty());
}

#[test]
fn values_that_are_no_tables_are_dropped() {
    let entries = process_from_table(table(vec![
        ("title", text("policy")),
        ("version", Datum::Integer(2)),
        ("ratio", Datum::Float),
        ("since", Datum::Datetime),
        ("strict", Datum::Boolean(true)),
        ("names", list(&["a", "b"])),
        ("core", plain_block("ann")),
    ]));
    assert_eq!(entries.len(), 1);
    assert_eq!(project_names(&entries), vec!["core"]);
}

#[test]
fn entries_keep_the_order_of_the_keys() {
    let entries = process_from_table(table(vec![
        ("zeta", plain_block("z")),
        ("features", block(vec![])),
        ("alpha", plain_block("a")),
        ("broken", block(vec![("owner", text("b"))])),
        ("mid", plain_block("m")),
    ]));
    assert_eq!(entries.len(), 4);
    assert!(matches!(entries[0], ProcessWrapper::Project(ref p) if p.project_name == "zeta"));
    assert!(matches!(entries[1], ProcessWrapper::Features(_)));
    assert!(matches!(entries[2], ProcessWrapper::Project(ref p) if p.project_name == "alpha"));
    assert!(matches!(entries[3], ProcessWrapper::Project(ref p) if p.project_name == "mid"));
}

#[test]
fn equal_project_names_are_all_kept() {
    let entries = process_from_table(table(vec![("core", plain_block("first")), ("core", plain_block("second"))]));
    assert_eq!(project_names(&entries), vec!["core", "core"]);
    assert_eq!(projects(&entries)[0].owner, "first");
    assert_eq!(projects(&entries)[1].owner, "second");
}

#[test]
fn contents_with_features_and_incomplete_project() {
    let parsed = process_from_contents(contents(
        "[features]\nissue_project = true\n\n[core]\nowner = \"ann\"\nmatrix_room_id = \"!core:example.org\"\n",
    ))
    .unwrap();
    assert_eq!(parsed.len(), 1);
    let expected = ProcessFeatures { issue_project: true, ..ProcessFeatures::default() };
    assert_eq!(features(&parsed), vec![&expected]);
    assert!(projects(&parsed).is_empty());
}

#[test]
fn contents_of_a_whole_document() {
    let document = r#"
[features]
auto_merge = false
review_requests = true
status_notifications = "yes"

[networking]
owner = "ann"
delegated_reviewer = "dee"
whitelist = ["bob", "cy"]
matrix_room_id = "!net:example.org"
backlog = "icebox"

[runtime]
owner = "rob"
whitelist = []
matrix_room_id = "!rt:example.org"
"#;
    let parsed = process_from_contents(contents(document)).unwrap();
    assert_eq!(parsed.len(), 3);
    let flags = features(&parsed)[0];
    assert!(!flags.auto_merge);
    assert!(flags.compare_release);
    assert!(flags.review_requests);
    assert!(!flags.status_notifications);
    let records = projects(&parsed);
    assert_eq!(records[0].project_name, "networking");
    assert_eq!(records[0].owner, "ann");
    assert_eq!(records[0].owner_or_delegate(), "dee");
    assert_eq!(records[0].whitelist, vec!["bob".to_string(), "cy".to_string()]);
    assert_eq!(records[0].matrix_room_id, "!net:example.org");
    assert_eq!(records[0].backlog, Some("icebox".to_string()));
    assert_eq!(records[1].project_name, "runtime");
    assert_eq!(records[1].owner_or_delegate(), "rob");
    assert!(records[1].whitelist.is_empty());
    assert_eq!(records[1].backlog, None);
}

#[test]
fn contents_come_in_the_order_of_the_sorted_keys() {
    let document = "[zeta]\nowner = \"z\"\nwhitelist = []\nmatrix_room_id = \"!z\"\n\n[features]\n\n[alpha]\nowner = \"a\"\nwhitelist = []\nmatrix_room_id = \"!a\"\n";
    let parsed = process_from_contents(contents(document)).unwrap();
    assert_eq!(parsed.len(), 3);
    assert!(matches!(parsed[0], ProcessWrapper::Project(ref p) if p.project_name == "alpha"));
    assert!(matches!(parsed[1], ProcessWrapper::Features(_)));
    assert!(matches!(parsed[2], ProcessWrapper::Project(ref p) if p.project_name == "zeta"));
}

#[test]
fn contents_broken_into_lines_are_joined() {
    let document = "[core]\nowner = \"ann\"\nwhitelist = [\"bob\"]\nmatrix_room_id = \"!core:example.org\"\n";
    let encoded = base64::encode(document);
    let mut broken = String::new();
    for (i, c) in encoded.chars().enumerate() {
        if i > 0 && i % 7 == 0 {
            broken.push('\n');
        }
        broken.push(c);
    }
    broken.push('\n');
    assert!(broken.contains('\n'));
    let parsed = process_from_contents(Contents { content: broken }).unwrap();
    assert_eq!(project_names(&parsed), vec!["core"]);
    assert_eq!(projects(&parsed)[0].whitelist, vec!["bob".to_string()]);
}

#[test]
fn contents_keep_every_kind_of_value_apart() {
    let document = r#"
title = "policy"
count = 3
ratio = 1.5
since = 1979-05-27T07:32:00Z
strict = true
names = ["a", "b"]

[core]
owner = "ann"
whitelist = ["bob", 1, 2.5, true, ["nested"], { inline = "table" }, "cy"]
matrix_room_id = "!core:example.org"
delegated_reviewer = 7
backlog = 1979-05-27
weight = 0.5

[core.nested]
owner = "inner"
whitelist = []
matrix_room_id = "!inner"
"#;
    let parsed = process_from_contents(contents(document)).unwrap();
    assert_eq!(parsed.len(), 1);
    let record = projects(&parsed)[0];
    assert_eq!(record.project_name, "core");
    assert_eq!(record.owner, "ann");
    assert_eq!(record.whitelist, vec!["bob".to_string(), "cy".to_string()]);
    assert_eq!(record.delegated_reviewer, None);
    assert_eq!(record.backlog, None);
}

#[test]
fn contents_of_an_empty_document_give_nothing() {
    assert!(process_from_contents(Contents { content: String::new() }).unwrap().is_empty());
    assert!(process_from_contents(contents("# only a comment\n")).unwrap().is_empty());
}

#[test]
fn contents_that_are_not_base64_are_refused() {
    let failure = process_from_contents(Contents { content: "not base64 at all!".to_string() }).unwrap_err();
    assert_eq!(failure.kind(), FailureKind::Base64);
    assert!(failure.is_malformed_document());
    let failure = process_from_contents(Contents { content: "abcde".to_string() }).unwrap_err();
    assert_eq!(failure.kind(), FailureKind::Base64);
}

#[test]
fn contents_that_are_no_table_are_refused() {
    let failure = process_from_contents(contents("[core\nowner = ")).unwrap_err();
    assert_eq!(failure.kind(), FailureKind::Toml);
    assert!(failure.is_malformed_document());
    let failure = process_from_contents(contents("[core]\nowner = \"ann\"\n[core]\nowner = \"bob\"\n")).unwrap_err();
    assert_eq!(failure.kind(), FailureKind::Toml);
    let failure = process_from_contents(Contents { content: base64::encode([0xffu8, 0xfe, 0x00]) }).unwrap_err();
    assert_eq!(failure.kind(), FailureKind::Toml);
}

#[test]
fn one_broken_project_does_not_refuse_the_document() {
    let document = "[broken]\nowner = \"ann\"\n\n[good]\nowner = \"bob\"\nwhitelist = []\nmatrix_room_id = \"!good\"\n";
    let parsed = process_from_contents(contents(document)).unwrap();
    assert_eq!(project_names(&parsed), vec!["good"]);
}

#[test]
fn parsing_twice_gives_the_same_entries() {
    let document = "[features]\nissue_assigned = true\n\n[b]\nowner = \"bob\"\nwhitelist = [\"x\"]\nmatrix_room_id = \"!b\"\n\n[a]\nowner = \"ann\"\nwhitelist = []\nmatrix_room_id = \"!a\"\ndelegated_reviewer = \"dee\"\n";
    let first = process_from_contents(contents(document)).unwrap();
    let second = process_from_contents(contents(document)).unwrap();
    assert_eq!(format!("{:?}", first), format!("{:?}", second));
    assert_eq!(first.len(), 3);
    let bad = "[a";
    let first = process_from_contents(contents(bad)).unwrap_err();
    let second = process_from_contents(contents(bad)).unwrap_err();
    assert_eq!(first.kind(), second.kind());
}

#[test]
fn every_parsed_project_has_owner_and_room() {
    let document = r#"
[a]
owner = "ann"
whitelist = []
matrix_room_id = "!a"

[b]
owner = "bob"
matrix_room_id = "!b"

[c]
whitelist = []
matrix_room_id = "!c"

[d]
owner = "dan"
whitelist = []

[e]
owner = "eve"
whitelist = ["x"]
matrix_room_id = "!e"
"#;
    let parsed = process_from_contents(contents(document)).unwrap();
    assert_eq!(project_names(&parsed), vec!["a", "e"]);
    for record in projects(&parsed) {
        assert!(!record.owner.is_empty());
        assert!(!record.matrix_room_id.is_empty());
    }
}

#[test]
fn contents_with_carriage_returns_are_refused() {
    let encoded = base64::encode("[features]\n");
    let broken = format!("{}\r\n", encoded);
    let failure = process_from_contents(Contents { content: broken }).unwrap_err();
    assert_eq!(failure.kind(), FailureKind::Base64);
    let joined = format!("{}\n\n", encoded);
    assert_eq!(process_from_contents(Contents { content: joined }).unwrap().len(), 1);
}

#[test]
fn strip_newlines_removes_line_feeds_only() {
    assert_eq!(strip_newlines(b"ab\ncd\n\nef"), b"abcdef".to_vec());
    assert_eq!(strip_newlines(b"\n\n"), Vec::<u8>::new());
    assert_eq!(strip_newlines(b""), Vec::<u8>::new());
    assert_eq!(strip_newlines(b"a\r\nb c\t"), b"a\rb c\t".to_vec());
}

#[test]
fn parse_table_mirrors_every_kind_of_value() {
    let parsed = parse_table(
        b"s = \"text\"\ni = -3\nf = 1.5\nb = true\nd = 1979-05-27T07:32:00Z\na = [[1, 2], [\"x\"]]\n\n[t]\nk = \"v\"\n\n[t.u]\nn = 1\n",
    )
    .unwrap();
    let expected = table(vec![
        (
            "a",
            Datum::Array(vec![
                Datum::Array(vec![Datum::Integer(1), Datum::Integer(2)]),
                Datum::Array(vec![text("x")]),
            ]),
        ),
        ("b", Datum::Boolean(true)),
        ("d", Datum::Datetime),
        ("f", Datum::Float),
        ("i", Datum::Integer(-3)),
        ("s", text("text")),
        ("t", block(vec![("k", text("v")), ("u", block(vec![("n", Datum::Integer(1))]))])),
    ]);
    assert_eq!(parsed, expected);
    assert!(parse_table(b"a = ").is_err());
    assert!(parse_table(b"").unwrap().entries.is_empty());
}
