//! TOML data as a policy document holds it: keys, and values that are text,
//! flags, numbers, lists or tables of their own.

use vstd::prelude::*;

verus! {

/// One value of a table.
///
/// Numbers with a fraction and dates carry no payload here: nothing in this
/// crate reads them.
#[derive(Debug, PartialEq)]
pub enum Datum {
    String(String),
    Integer(i64),
    Float,
    Boolean(bool),
    Datetime,
    Array(Vec<Datum>),
    Table(Table),
}

/// Keys with their values, in the order the table yields them. A key is
/// looked up from the front.
#[derive(Debug, PartialEq)]
pub struct Table {
    pub entries: Vec<(String, Datum)>,
}

/// A value as plain data.
pub enum DatumView {
    String(Seq<char>),
    Integer(int),
    Float,
    Boolean(bool),
    Datetime,
    Array(Seq<DatumView>),
    Table(Seq<(Seq<char>, DatumView)>),
}

/// A table as plain data: its keys with their values, in order.
pub type TableView = Seq<(Seq<char>, DatumView)>;

/// The plain data of a value, level by level.
pub open spec fn datum_view(value: Datum) -> DatumView
    decreases value,
{
    match value {
        Datum::String(s) => DatumView::String(s@),
        Datum::Integer(i) => DatumView::Integer(i as int),
        Datum::Float => DatumView::Float,
        Datum::Boolean(b) => DatumView::Boolean(b),
        Datum::Datetime => DatumView::Datetime,
        Datum::Array(items) => DatumView::Array(
            Seq::new(
                items@.len(),
                |i: int|
                    if 0 <= i < items@.len() {
                        datum_view(items@[i])
                    } else {
                        DatumView::Float
                    },
            ),
        ),
        Datum::Table(table) => DatumView::Table(
            Seq::new(
                table.entries@.len(),
                |i: int|
                    if 0 <= i < table.entries@.len() {
                        (table.entries@[i].0@, datum_view(table.entries@[i].1))
                    } else {
                        (Seq::empty(), DatumView::Float)
                    },
            ),
        ),
    }
}

/// The plain data of a list of values.
pub open spec fn data_view(items: Seq<Datum>) -> Seq<DatumView> {
    Seq::new(items.len(), |i: int| datum_view(items[i]))
}

/// The plain data of a list of entries.
pub open spec fn entries_view(entries: Seq<(String, Datum)>) -> TableView {
    Seq::new(entries.len(), |i: int| (entries[i].0@, datum_view(entries[i].1)))
}

impl View for Datum {
    type V = DatumView;

    open spec fn view(&self) -> DatumView {
        datum_view(*self)
    }
}

impl View for Table {
    type V = TableView;

    open spec fn view(&self) -> TableView {
        entries_view(self.entries@)
    }
}

/// The view of a list is the list of its items' views, and the view of a
/// table that of its entries.
pub proof fn lemma_view_unfolds(value: Datum)
    ensures
        value matches Datum::Array(items) ==> value@ == DatumView::Array(data_view(items@)),
        value matches Datum::Table(table) ==> value@ == DatumView::Table(table@),
{
    match value {
        Datum::Array(items) => {
            assert(value@->Array_0 =~= data_view(items@));
        },
        Datum::Table(table) => {
            assert(value@->Table_0 =~= table@);
        },
        _ => {},
    }
}

/// The value of the first entry of `table` whose key is `key`.
pub open spec fn lookup(table: TableView, key: Seq<char>) -> Option<DatumView>
    decreases table.len(),
{
    if table.len() == 0 {
        None
    } else if table[0].0 == key {
        Some(table[0].1)
    } else {
        lookup(table.skip(1), key)
    }
}

impl DatumView {
    pub open spec fn as_bool(self) -> Option<bool> {
        match self {
            DatumView::Boolean(b) => Some(b),
            _ => None,
        }
    }

    pub open spec fn as_str(self) -> Option<Seq<char>> {
        match self {
            DatumView::String(s) => Some(s),
            _ => None,
        }
    }

    pub open spec fn as_array(self) -> Option<Seq<DatumView>> {
        match self {
            DatumView::Array(items) => Some(items),
            _ => None,
        }
    }

    pub open spec fn as_table(self) -> Option<TableView> {
        match self {
            DatumView::Table(table) => Some(table),
            _ => None,
        }
    }
}

impl Datum {
    /// The flag, if the value is one.
    pub fn as_bool(&self) -> (flag: Option<bool>)
        ensures
            flag == self@.as_bool(),
    {
        match self {
            Datum::Boolean(b) => Some(*b),
            _ => None,
        }
    }

    /// The text, if the value is text.
    pub fn as_str(&self) -> (text: Option<&str>)
        ensures
            text is Some == self@.as_str() is Some,
            text matches Some(s) ==> Some(s@) == self@.as_str(),
    {
        match self {
            Datum::String(s) => Some(s.as_str()),
            _ => None,
        }
    }

    /// The items, if the value is a list.
    pub fn as_array(&self) -> (items: Option<&Vec<Datum>>)
        ensures
            items is Some == self@.as_array() is Some,
            items matches Some(list) ==> Some(data_view(list@)) == self@.as_array(),
    {
        proof {
            lemma_view_unfolds(*self);
        }
        match self {
            Datum::Array(items) => Some(items),
            _ => None,
        }
    }

    /// The table, if the value is one.
    pub fn as_table(&self) -> (table: Option<&Table>)
        ensures
            table is Some == self@.as_table() is Some,
            table matches Some(t) ==> Some(t@) == self@.as_table(),
    {
        proof {
            lemma_view_unfolds(*self);
        }
        match self {
            Datum::Table(table) => Some(table),
            _ => None,
        }
    }
}

impl Table {
    /// The value of the first entry whose key is `key`.
    pub fn get(&self, key: &str) -> (value: Option<&Datum>)
        ensures
            value is Some == lookup(self@, key@) is Some,
            value matches Some(v) ==> Some(v@) == lookup(self@, key@),
    {
        let mut i: usize = 0;
        assert(self@.skip(0) =~= self@);
        while i < self.entries.len()
            invariant
                i <= self.entries.len(),
                lookup(self@, key@) == lookup(self@.skip(i as int), key@),
            decreases self.entries.len() - i,
        {
            let ghost rest = self@.skip(i as int);
            assert(rest[0] == self@[i as int]);
            if self.entries[i].0.as_str().eq(key) {
                return Some(&self.entries[i].1);
            }
            assert(rest.skip(1) =~= self@.skip(i as int + 1));
            i += 1;
        }
        None
    }
}

} // verus!
