//! From a policy document to its entries.
//!
//! A document that cannot be decoded is refused whole. Once it is decoded,
//! every top-level key is judged alone: the reserved key gives the feature
//! flags, any other key whose value is a table with an owner, a whitelist and
//! a chat room gives a project's record, and everything else is passed over.

use crate::codec::base64_decoded;
use crate::codec::decode_base64;
use crate::codec::parse_table;
use crate::codec::toml_document;
use crate::codec::BASE64_LIMIT;
use crate::constants::FEATURES_KEY;
use crate::error::Failure;
use crate::error::FailureKind;
use crate::github::Contents;
use crate::process::features::wrappers_view;
use crate::process::features::ProcessFeatures;
use crate::process::features::ProcessWrapper;
use crate::process::features::ProcessWrapperView;
use crate::process::info::text_of;
use crate::process::info::ProcessInfo;
use crate::process::info::ProcessInfoView;
use crate::process::lookup::option_view;
use crate::table::data_view;
use crate::table::lookup;
use crate::table::Datum;
use crate::table::DatumView;
use crate::table::Table;
use crate::table::TableView;
use crate::text::texts;
use vstd::prelude::*;
use vstd::utf8::encode_utf8;

verus! {

/// The flag that `block` gives under `name`, and `default` where it gives
/// none or something that is no flag.
pub open spec fn flag(block: TableView, name: Seq<char>, default: bool) -> bool {
    match lookup(block, name) {
        Some(DatumView::Boolean(b)) => b,
        _ => default,
    }
}

/// The text that `block` gives under `name`.
pub open spec fn text(block: TableView, name: Seq<char>) -> Option<Seq<char>> {
    match lookup(block, name) {
        Some(DatumView::String(s)) => Some(s),
        _ => None,
    }
}

/// The items of a list that are text, in order.
pub open spec fn strings_of(items: Seq<DatumView>) -> Seq<Seq<char>>
    decreases items.len(),
{
    if items.len() == 0 {
        Seq::empty()
    } else {
        let front = strings_of(items.drop_last());
        match items.last() {
            DatumView::String(s) => front.push(s),
            _ => front,
        }
    }
}

/// The logins that `block` lists under `whitelist`; none where what stands
/// there is no list.
pub open spec fn whitelist_of(block: TableView) -> Seq<Seq<char>> {
    match lookup(block, "whitelist"@) {
        Some(DatumView::Array(items)) => strings_of(items),
        _ => Seq::empty(),
    }
}

/// The feature flags that `block` sets, each with its default where the
/// block is silent.
pub open spec fn features_of(block: TableView) -> ProcessFeatures {
    ProcessFeatures {
        auto_merge: flag(block, "auto_merge"@, true),
        compare_release: flag(block, "compare_release"@, true),
        issue_project: flag(block, "issue_project"@, false),
        issue_addressed: flag(block, "issue_addressed"@, false),
        issue_assigned: flag(block, "issue_assigned"@, false),
        review_requests: flag(block, "review_requests"@, false),
        status_notifications: flag(block, "status_notifications"@, false),
    }
}

/// Whether `block` has what a project's record needs: an owner and a chat
/// room, both as text, and a whitelist.
pub open spec fn is_complete(block: TableView) -> bool {
    &&& text(block, "owner"@) is Some
    &&& lookup(block, "whitelist"@) is Some
    &&& text(block, "matrix_room_id"@) is Some
}

/// The record of the project `name` that `block` describes, where the block
/// is complete.
pub open spec fn project_of(name: Seq<char>, block: TableView) -> Option<ProcessInfoView> {
    if is_complete(block) {
        Some(
            ProcessInfoView {
                project_name: name,
                owner: text(block, "owner"@)->0,
                delegated_reviewer: text(block, "delegated_reviewer"@),
                whitelist: whitelist_of(block),
                matrix_room_id: text(block, "matrix_room_id"@)->0,
                backlog: text(block, "backlog"@),
            },
        )
    } else {
        None
    }
}

/// What one top-level entry of a document becomes, if anything.
pub open spec fn wrapper_of(key: Seq<char>, value: DatumView) -> Option<ProcessWrapperView> {
    match value {
        DatumView::Table(block) => if key == FEATURES_KEY@ {
            Some(ProcessWrapperView::Features(features_of(block)))
        } else {
            match project_of(key, block) {
                Some(record) => Some(ProcessWrapperView::Project(record)),
                None => None,
            }
        },
        _ => None,
    }
}

/// The entries that a decoded document gives, in the order of its keys.
pub open spec fn wrappers_of(table: TableView) -> Seq<ProcessWrapperView>
    decreases table.len(),
{
    if table.len() == 0 {
        Seq::empty()
    } else {
        let front = wrappers_of(table.drop_last());
        match wrapper_of(table.last().0, table.last().1) {
            Some(w) => front.push(w),
            None => front,
        }
    }
}

/// `bytes` without its line feeds.
pub open spec fn without_newlines(bytes: Seq<u8>) -> Seq<u8>
    decreases bytes.len(),
{
    if bytes.len() == 0 {
        Seq::empty()
    } else {
        let front = without_newlines(bytes.drop_last());
        if bytes.last() == 10u8 {
            front
        } else {
            front.push(bytes.last())
        }
    }
}

/// The entries that a document's text gives, or the stage at which the text
/// is refused: it is base64, line feeds aside, of a TOML document.
pub open spec fn document(content: Seq<u8>) -> Result<Seq<ProcessWrapperView>, FailureKind> {
    let joined = without_newlines(content);
    if joined.len() > BASE64_LIMIT {
        Err(FailureKind::TooLong)
    } else {
        match base64_decoded(joined) {
            None => Err(FailureKind::Base64),
            Some(bytes) => match toml_document(bytes) {
                None => Err(FailureKind::Toml),
                Some(table) => Ok(wrappers_of(table)),
            },
        }
    }
}

/// The flag that `block` gives under `name`, or `default`.
fn flag_in(block: &Table, name: &str, default: bool) -> (set: bool)
    ensures
        set == flag(block@, name@, default),
{
    match block.get(name) {
        Some(value) => match value.as_bool() {
            Some(b) => b,
            None => default,
        },
        None => default,
    }
}

/// The text that `block` gives under `name`.
fn text_in(block: &Table, name: &str) -> (found: Option<String>)
    ensures
        text_of(found) == text(block@, name@),
{
    match block.get(name) {
        Some(value) => match value.as_str() {
            Some(s) => Some(s.to_owned()),
            None => None,
        },
        None => None,
    }
}

/// The items of a list that are text, in order.
fn strings_in(items: &Vec<Datum>) -> (found: Vec<String>)
    ensures
        texts(found@) == strings_of(data_view(items@)),
{
    let ghost all = data_view(items@);
    let mut found: Vec<String> = Vec::new();
    let mut i: usize = 0;
    assert(all.take(0) =~= Seq::empty());
    while i < items.len()
        invariant
            i <= items.len(),
            all == data_view(items@),
            texts(found@) == strings_of(all.take(i as int)),
        decreases items.len() - i,
    {
        let ghost before = texts(found@);
        assert(all.take(i as int + 1).drop_last() =~= all.take(i as int));
        assert(all.take(i as int + 1).last() == items@[i as int]@);
        match items[i].as_str() {
            Some(s) => {
                found.push(s.to_owned());
                assert(texts(found@) =~= before.push(s@));
            },
            None => {},
        }
        i += 1;
    }
    assert(all.take(items.len() as int) =~= all);
    found
}

/// The logins that `block` lists under `whitelist`.
fn whitelist_in(block: &Table) -> (found: Vec<String>)
    ensures
        texts(found@) == whitelist_of(block@),
{
    match block.get("whitelist") {
        Some(value) => match value.as_array() {
            Some(items) => strings_in(items),
            None => Vec::new(),
        },
        None => Vec::new(),
    }
}

/// The feature flags that `block` sets.
fn features_in(block: &Table) -> (flags: ProcessFeatures)
    ensures
        flags == features_of(block@),
{
    ProcessFeatures {
        auto_merge: flag_in(block, "auto_merge", true),
        compare_release: flag_in(block, "compare_release", true),
        issue_project: flag_in(block, "issue_project", false),
        issue_addressed: flag_in(block, "issue_addressed", false),
        issue_assigned: flag_in(block, "issue_assigned", false),
        review_requests: flag_in(block, "review_requests", false),
        status_notifications: flag_in(block, "status_notifications", false),
    }
}

/// The record of the project `name` that `block` describes, where the block
/// is complete.
fn project_in(name: &String, block: &Table) -> (record: Option<ProcessInfo>)
    ensures
        option_view(record) == project_of(name@, block@),
{
    if block.get("whitelist").is_none() {
        return None;
    }
    let owner = match text_in(block, "owner") {
        Some(owner) => owner,
        None => {
            return None;
        },
    };
    let matrix_room_id = match text_in(block, "matrix_room_id") {
        Some(room) => room,
        None => {
            return None;
        },
    };
    Some(
        ProcessInfo {
            project_name: name.clone(),
            owner,
            delegated_reviewer: text_in(block, "delegated_reviewer"),
            whitelist: whitelist_in(block),
            matrix_room_id,
            backlog: text_in(block, "backlog"),
        },
    )
}

/// What one top-level entry of a document becomes, if anything.
fn wrapper_in(key: &String, value: &Datum) -> (entry: Option<ProcessWrapper>)
    ensures
        (match entry {
            Some(w) => Some(w@),
            None => None,
        }) == wrapper_of(key@, value@),
{
    match value.as_table() {
        Some(block) => if key.as_str().eq(FEATURES_KEY) {
            Some(ProcessWrapper::Features(features_in(block)))
        } else {
            match project_in(key, block) {
                Some(record) => Some(ProcessWrapper::Project(record)),
                None => None,
            }
        },
        None => None,
    }
}

/// The entries that a decoded document gives, in the order of its keys.
///
/// The value under the reserved key gives the feature flags if it is a
/// table; a flag that is missing or is no flag has its default. Any other
/// key whose value is a table gives a project's record if the table names an
/// owner and a chat room as text and has a whitelist, which may be empty or
/// hold things that are no logins. Every other entry is passed over.
pub fn process_from_table(tab: Table) -> (entries: Vec<ProcessWrapper>)
    ensures
        wrappers_view(entries@) == wrappers_of(tab@),
{
    let ghost table = tab@;
    let mut entries: Vec<ProcessWrapper> = Vec::new();
    let mut i: usize = 0;
    assert(table.take(0) =~= Seq::empty());
    while i < tab.entries.len()
        invariant
            i <= tab.entries.len(),
            table == tab@,
            wrappers_view(entries@) == wrappers_of(table.take(i as int)),
        decreases tab.entries.len() - i,
    {
        let ghost before = wrappers_view(entries@);
        assert(table.take(i as int + 1).drop_last() =~= table.take(i as int));
        assert(table.take(i as int + 1).last() == (
            tab.entries@[i as int].0@,
            tab.entries@[i as int].1@,
        ));
        match wrapper_in(&tab.entries[i].0, &tab.entries[i].1) {
            Some(w) => {
                entries.push(w);
                assert(wrappers_view(entries@) =~= before.push(w@));
            },
            None => {},
        }
        i += 1;
    }
    assert(table.take(tab.entries.len() as int) =~= table);
    entries
}

/// `bytes` without its line feeds.
pub fn strip_newlines(bytes: &[u8]) -> (kept: Vec<u8>)
    ensures
        kept@ == without_newlines(bytes@),
{
    let mut kept: Vec<u8> = Vec::new();
    let mut i: usize = 0;
    assert(bytes@.take(0) =~= Seq::empty());
    while i < bytes.len()
        invariant
            i <= bytes.len(),
            kept@ == without_newlines(bytes@.take(i as int)),
        decreases bytes.len() - i,
    {
        assert(bytes@.take(i as int + 1).drop_last() =~= bytes@.take(i as int));
        if bytes[i] != 10u8 {
            kept.push(bytes[i]);
        }
        i += 1;
    }
    assert(bytes@.take(bytes.len() as int) =~= bytes@);
    kept
}

/// The plain data of what parsing a document's text gives.
pub open spec fn outcome_view(parsed: Result<Vec<ProcessWrapper>, Failure>) -> Result<
    Seq<ProcessWrapperView>,
    FailureKind,
> {
    match parsed {
        Ok(entries) => Ok(wrappers_view(entries@)),
        Err(e) => Err(e.kind()),
    }
}

/// The entries of a policy document as the hosting service returns it:
/// base64 text, broken into lines or not, of a TOML document.
///
/// Text that is not base64 and bytes that are not TOML are refused, and so
/// is text longer than the decoder takes; nothing of such a document is
/// kept. A document that decodes gives what `process_from_table` gives for
/// its table.
pub fn process_from_contents(c: Contents) -> (parsed: Result<Vec<ProcessWrapper>, Failure>)
    ensures
        outcome_view(parsed) == document(encode_utf8(c.content@)),
{
    let text = strip_newlines(c.content.as_str().as_bytes());
    if text.len() > BASE64_LIMIT {
        return Err(Failure::TooLong);
    }
    match decode_base64(text.as_slice()) {
        Err(cause) => Err(Failure::Base64(cause)),
        Ok(bytes) => match parse_table(bytes.as_slice()) {
            Err(cause) => Err(Failure::Toml(cause)),
            Ok(table) => Ok(process_from_table(table)),
        },
    }
}

} // verus!
