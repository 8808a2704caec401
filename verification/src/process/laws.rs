//! What holds of every policy document.

use crate::constants::FEATURES_KEY;
use crate::error::Failure;
use crate::process::features::ProcessWrapper;
use crate::process::features::ProcessWrapperView;
use crate::process::info::ProcessInfoView;
use crate::process::parse::document;
use crate::process::parse::is_complete;
use crate::process::parse::outcome_view;
use crate::process::parse::project_of;
use crate::process::parse::text;
use crate::process::parse::wrapper_of;
use crate::process::parse::wrappers_of;
use crate::table::lookup;
use crate::table::DatumView;
use crate::table::TableView;
use vstd::prelude::*;
use vstd::utf8::encode_utf8;

verus! {

/// Whether `record` is what the entry `entry` of a document gives: the
/// entry's key is the project's name and is not the reserved one, and its
/// value is a table that names the record's owner and chat room as text and
/// has a whitelist.
pub open spec fn comes_from(record: ProcessInfoView, entry: (Seq<char>, DatumView)) -> bool {
    &&& entry.0 == record.project_name
    &&& entry.0 != FEATURES_KEY@
    &&& entry.1 matches DatumView::Table(block)
    &&& project_of(entry.0, block) == Some(record)
    &&& text(block, "owner"@) == Some(record.owner)
    &&& text(block, "matrix_room_id"@) == Some(record.matrix_room_id)
    &&& lookup(block, "whitelist"@) is Some
}

/// Whether an entry names an owner or a chat room that is empty text.
pub open spec fn names_nobody(entry: (Seq<char>, DatumView)) -> bool {
    entry.1 matches DatumView::Table(block) && (text(block, "owner"@) == Some(Seq::<char>::empty())
        || text(block, "matrix_room_id"@) == Some(Seq::<char>::empty()))
}

/// What one entry of a document adds to the document's entries.
pub open spec fn added_by(entry: (Seq<char>, DatumView)) -> Seq<ProcessWrapperView> {
    match wrapper_of(entry.0, entry.1) {
        Some(w) => seq![w],
        None => Seq::empty(),
    }
}

/// `block` without every entry whose key is `key`.
pub open spec fn without_key(block: TableView, key: Seq<char>) -> TableView
    decreases block.len(),
{
    if block.len() == 0 {
        Seq::empty()
    } else {
        let rest = without_key(block.skip(1), key);
        if block[0].0 == key {
            rest
        } else {
            seq![block[0]] + rest
        }
    }
}

/// Every record that a document gives comes from one of its entries: no
/// record is made up, and none lacks its owner, its chat room or its
/// whitelist in the document.
pub proof fn lemma_records_come_from_entries(table: TableView, k: int)
    requires
        0 <= k < wrappers_of(table).len(),
        wrappers_of(table)[k] is Project,
    ensures
        exists|i: int|
            0 <= i < table.len() && comes_from(wrappers_of(table)[k]->Project_0, #[trigger] table[i]),
    decreases table.len(),
{
    let front = table.drop_last();
    let last = table.last();
    if k < wrappers_of(front).len() {
        lemma_records_come_from_entries(front, k);
        let i = choose|i: int|
            0 <= i < front.len() && comes_from(wrappers_of(front)[k]->Project_0, #[trigger] front[i]);
        assert(table[i] == front[i]);
    } else {
        assert(comes_from(wrappers_of(table)[k]->Project_0, table[table.len() - 1]));
    }
}

/// In a document none of whose tables names an empty owner or an empty chat
/// room, every record has an owner and a chat room that are not empty.
pub proof fn lemma_records_name_owner_and_room(table: TableView, k: int)
    requires
        forall|i: int| 0 <= i < table.len() ==> !names_nobody(#[trigger] table[i]),
        0 <= k < wrappers_of(table).len(),
        wrappers_of(table)[k] is Project,
    ensures
        wrappers_of(table)[k]->Project_0.owner.len() > 0,
        wrappers_of(table)[k]->Project_0.matrix_room_id.len() > 0,
{
    lemma_records_come_from_entries(table, k);
    let record = wrappers_of(table)[k]->Project_0;
    let i = choose|i: int| 0 <= i < table.len() && comes_from(record, #[trigger] table[i]);
    assert(!names_nobody(table[i]));
    assert(record.owner.len() == 0 ==> record.owner =~= Seq::<char>::empty());
    assert(record.matrix_room_id.len() == 0 ==> record.matrix_room_id =~= Seq::<char>::empty());
}

/// The entries of two documents laid end to end are the entries of the
/// first followed by those of the second.
pub proof fn lemma_wrappers_of_concat(a: TableView, b: TableView)
    ensures
        wrappers_of(a + b) == wrappers_of(a) + wrappers_of(b),
    decreases b.len(),
{
    if b.len() == 0 {
        assert(a + b =~= a);
        assert(wrappers_of(a) + wrappers_of(b) =~= wrappers_of(a));
    } else {
        lemma_wrappers_of_concat(a, b.drop_last());
        assert((a + b).drop_last() =~= a + b.drop_last());
        assert((a + b).last() == b.last());
        match wrapper_of(b.last().0, b.last().1) {
            Some(w) => {
                assert(wrappers_of(a + b) =~= wrappers_of(a) + wrappers_of(b));
            },
            None => {},
        }
    }
}

/// A document's entries are those before one of its entries, what that
/// entry adds, and those after it.
pub proof fn lemma_wrappers_of_split(table: TableView, i: int)
    requires
        0 <= i < table.len(),
    ensures
        wrappers_of(table) == wrappers_of(table.take(i)) + added_by(table[i]) + wrappers_of(
            table.skip(i + 1),
        ),
{
    let one = seq![table[i]];
    assert(table =~= table.take(i) + one + table.skip(i + 1));
    lemma_wrappers_of_concat(table.take(i) + one, table.skip(i + 1));
    lemma_wrappers_of_concat(table.take(i), one);
    assert(one.drop_last() =~= Seq::empty());
    assert(wrappers_of(one.drop_last()) =~= Seq::empty());
    assert(wrappers_of(one) =~= added_by(table[i]));
}

/// A table no longer has a key that was taken out of it.
pub proof fn lemma_without_key_lacks_key(block: TableView, key: Seq<char>)
    ensures
        lookup(without_key(block, key), key) is None,
    decreases block.len(),
{
    if block.len() > 0 {
        lemma_without_key_lacks_key(block.skip(1), key);
        if block[0].0 != key {
            let rest = without_key(block.skip(1), key);
            assert((seq![block[0]] + rest).skip(1) =~= rest);
        }
    }
}

/// Taking the owner, the whitelist or the chat room out of a project's
/// table takes exactly that project's record out of what the document gives:
/// what the entries before and after it give stays as it was.
pub proof fn lemma_dropping_a_required_key_drops_the_project(
    table: TableView,
    i: int,
    key: Seq<char>,
)
    requires
        0 <= i < table.len(),
        table[i].1 is Table,
        table[i].0 != FEATURES_KEY@,
        key == "owner"@ || key == "whitelist"@ || key == "matrix_room_id"@,
    ensures
        wrappers_of(table) == wrappers_of(table.take(i)) + added_by(table[i]) + wrappers_of(
            table.skip(i + 1),
        ),
        wrappers_of(
            table.update(i, (table[i].0, DatumView::Table(without_key(table[i].1->Table_0, key)))),
        ) == wrappers_of(table.take(i)) + wrappers_of(table.skip(i + 1)),
{
    let block = table[i].1->Table_0;
    let thinned = (table[i].0, DatumView::Table(without_key(block, key)));
    let changed = table.update(i, thinned);
    lemma_wrappers_of_split(table, i);
    lemma_wrappers_of_split(changed, i);
    lemma_without_key_lacks_key(block, key);
    assert(!is_complete(without_key(block, key)));
    assert(added_by(thinned) =~= Seq::empty());
    assert(changed.take(i) =~= table.take(i));
    assert(changed.skip(i + 1) =~= table.skip(i + 1));
    assert(wrappers_of(table.take(i)) + Seq::<ProcessWrapperView>::empty() + wrappers_of(
        table.skip(i + 1),
    ) =~= wrappers_of(table.take(i)) + wrappers_of(table.skip(i + 1)));
}

/// Parsing is a function of the text: whatever two runs on the same text
/// return, they return the same entries in the same order, or refuse the
/// text at the same stage.
pub proof fn lemma_same_text_same_outcome(
    first_text: Seq<char>,
    first: Result<Vec<ProcessWrapper>, Failure>,
    second_text: Seq<char>,
    second: Result<Vec<ProcessWrapper>, Failure>,
)
    requires
        first_text == second_text,
        outcome_view(first) == document(encode_utf8(first_text)),
        outcome_view(second) == document(encode_utf8(second_text)),
    ensures
        outcome_view(first) == outcome_view(second),
{
}

} // verus!
