//! Values handed between the agent and its scripts.
use vstd::prelude::*;

use crate::text::same_text;

verus! {

/// A script value: nothing, a string, an integer, a float (held as its
/// IEEE-754 bits), a boolean, a table of named values or an array.
///
/// A table holds its entries in a vector. A script table has each name once
/// (`names_once`), and so do the tables this library builds; a name is looked
/// up by its first entry.
#[derive(Debug)]
pub enum ValueType {
    Empty,
    String(String),
    Integer(i64),
    Float(u64),
    Boolean(bool),
    Table(Vec<(String, ValueType)>),
    Array(Vec<ValueType>),
}

/// The value of the first entry named `key`.
pub open spec fn entry_value(entries: Seq<(String, ValueType)>, key: Seq<char>) -> Option<ValueType>
    decreases entries.len(),
{
    if entries.len() == 0 {
        None
    } else if entries[0].0@ == key {
        Some(entries[0].1)
    } else {
        entry_value(entries.drop_first(), key)
    }
}

/// The value named `key` in `v`, when `v` is a table that has one.
pub open spec fn table_value(v: ValueType, key: Seq<char>) -> Option<ValueType> {
    match v {
        ValueType::Table(t) => entry_value(t@, key),
        _ => None,
    }
}

/// The string named `key` in `v`, when there is one and it is a string.
pub open spec fn string_field(v: ValueType, key: Seq<char>) -> Option<String> {
    match table_value(v, key) {
        Some(ValueType::String(s)) => Some(s),
        _ => None,
    }
}

/// Each name of a table's entries is given once, as in a script table.
pub open spec fn names_once(entries: Seq<(String, ValueType)>) -> bool {
    forall|i: int, j: int|
        0 <= i < j < entries.len() ==> #[trigger] entries[i].0@ != #[trigger] entries[j].0@
}

/// The names of a table's entries, in order.
pub open spec fn entry_names(entries: Seq<(String, ValueType)>) -> Seq<Seq<char>> {
    entries.map_values(|e: (String, ValueType)| e.0@)
}

/// The entries of `entries` whose value is a string, as name and text.
pub open spec fn string_entries(entries: Seq<(String, ValueType)>) -> Seq<(Seq<char>, Seq<char>)>
    decreases entries.len(),
{
    if entries.len() == 0 {
        Seq::empty()
    } else {
        let rest = string_entries(entries.drop_last());
        match entries.last().1 {
            ValueType::String(s) => rest.push((entries.last().0@, s@)),
            _ => rest,
        }
    }
}

/// The index of the first entry named `key`.
pub fn find_entry(entries: &Vec<(String, ValueType)>, key: &str) -> (found: Option<usize>)
    ensures
        match found {
            Some(i) => {
                &&& i < entries.len()
                &&& entries@[i as int].0@ == key@
                &&& forall|j: int| 0 <= j < i ==> entries@[j].0@ != key@
                &&& entry_value(entries@, key@) == Some(entries@[i as int].1)
            },
            None => {
                &&& forall|j: int| 0 <= j < entries.len() ==> entries@[j].0@ != key@
                &&& entry_value(entries@, key@) is None
            },
        },
{
    let mut i: usize = 0;
    assert(entries@.subrange(0, entries.len() as int) =~= entries@);
    while i < entries.len()
        invariant
            0 <= i <= entries.len(),
            forall|j: int| 0 <= j < i ==> entries@[j].0@ != key@,
            entry_value(entries@, key@) == entry_value(
                entries@.subrange(i as int, entries.len() as int),
                key@,
            ),
        decreases entries.len() - i,
    {
        let ghost rest = entries@.subrange(i as int, entries.len() as int);
        assert(rest.drop_first() =~= entries@.subrange(i + 1, entries.len() as int));
        if same_text(entries[i].0.as_str(), key) {
            return Some(i);
        }
        i = i + 1;
    }
    None
}

impl ValueType {
    /// The value named `key`, when `self` is a table that has one.
    pub fn table_entry(&self, key: &str) -> (found: Option<&ValueType>)
        ensures
            match found {
                Some(v) => table_value(*self, key@) == Some(*v),
                None => table_value(*self, key@) is None,
            },
    {
        match self {
            ValueType::Table(t) => match find_entry(t, key) {
                Some(i) => Some(&t[i].1),
                None => None,
            },
            _ => None,
        }
    }

    /// The string named `key`, when `self` is a table that has one.
    pub fn table_string(&self, key: &str) -> (s: Option<String>)
        ensures
            s == string_field(*self, key@),
    {
        match self.table_entry(key) {
            Some(ValueType::String(s)) => Some(s.clone()),
            _ => None,
        }
    }

    /// The entries of the table named `key`, when `self` is a table that has one.
    pub fn table_table(&self, key: &str) -> (t: Option<&Vec<(String, ValueType)>>)
        ensures
            match t {
                Some(e) => table_value(*self, key@) == Some(ValueType::Table(*e)),
                None => !(table_value(*self, key@) matches Some(ValueType::Table(_))),
            },
    {
        match self.table_entry(key) {
            Some(ValueType::Table(e)) => Some(e),
            _ => None,
        }
    }
}

/// The entries of a table whose value is a string, as name and text, in the
/// table's order.
pub fn strings_of(entries: &Vec<(String, ValueType)>) -> (pairs: Vec<(String, String)>)
    ensures
        crate::text::pair_views(pairs@) == string_entries(entries@),
{
    let mut pairs: Vec<(String, String)> = Vec::new();
    let mut i: usize = 0;
    while i < entries.len()
        invariant
            0 <= i <= entries.len(),
            crate::text::pair_views(pairs@) == string_entries(entries@.take(i as int)),
        decreases entries.len() - i,
    {
        assert(entries@.take(i + 1).drop_last() =~= entries@.take(i as int));
        match &entries[i].1 {
            ValueType::String(s) => {
                pairs.push((entries[i].0.clone(), s.clone()));
                assert(crate::text::pair_views(pairs@) =~= string_entries(entries@.take(i as int)).push(
                    (entries@[i as int].0@, s@),
                ));
            },
            _ => {},
        }
        i = i + 1;
    }
    assert(entries@.take(entries.len() as int) =~= entries@);
    pairs
}

} // verus!
