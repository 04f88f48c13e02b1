//! Structured evidence: an ordered record of named plain values, read as a map
//! in which a later value of a name replaces an earlier one.
use vstd::prelude::*;

use crate::text;
use crate::text::{clone_texts, same_text};

verus! {

/// A plain value inside a nested record.
#[derive(Debug)]
pub enum Scalar {
    Null,
    Bool(bool),
    Int(i128),
    Text(String),
}

/// What a [`Scalar`] says.
pub ghost enum ScalarView {
    Null,
    Bool(bool),
    Int(int),
    Text(Seq<char>),
}

impl View for Scalar {
    type V = ScalarView;

    open spec fn view(&self) -> ScalarView {
        match self {
            Scalar::Null => ScalarView::Null,
            Scalar::Bool(value) => ScalarView::Bool(*value),
            Scalar::Int(value) => ScalarView::Int(*value as int),
            Scalar::Text(value) => ScalarView::Text(value@),
        }
    }
}

/// A value of a record that stands in a list.
#[derive(Debug)]
pub enum Entry {
    Plain(Scalar),
    Record(Vec<(String, Scalar)>),
}

/// What an [`Entry`] says.
pub ghost enum EntryView {
    Plain(ScalarView),
    Record(Seq<(Seq<char>, ScalarView)>),
}

impl View for Entry {
    type V = EntryView;

    open spec fn view(&self) -> EntryView {
        match self {
            Entry::Plain(value) => EntryView::Plain(value@),
            Entry::Record(values) => EntryView::Record(record_view(values@)),
        }
    }
}

pub open spec fn entries_view(record: Seq<(String, Entry)>) -> Seq<(Seq<char>, EntryView)> {
    record.map_values(|entry: (String, Entry)| (entry.0@, entry.1@))
}

pub open spec fn records_view(records: Seq<Vec<(String, Entry)>>) -> Seq<
    Seq<(Seq<char>, EntryView)>,
> {
    records.map_values(|record: Vec<(String, Entry)>| entries_view(record@))
}

/// A value of one evidence field.
#[derive(Debug)]
pub enum Detail {
    Null,
    Bool(bool),
    Int(i128),
    Text(String),
    Texts(Vec<String>),
    Ints(Vec<i64>),
    /// A number in floating point, by its bits.
    Real(i64),
    /// Numbers in floating point, by their bits.
    Reals(Vec<i64>),
    Record(Vec<(String, Scalar)>),
    Records(Vec<Vec<(String, Entry)>>),
    /// A value that was serialized as JSON.
    Json(String),
}

/// What a [`Detail`] says.
pub ghost enum DetailView {
    Null,
    Bool(bool),
    Int(int),
    Text(Seq<char>),
    Texts(Seq<Seq<char>>),
    Ints(Seq<int>),
    Real(i64),
    Reals(Seq<i64>),
    Record(Seq<(Seq<char>, ScalarView)>),
    Records(Seq<Seq<(Seq<char>, EntryView)>>),
    Json(Seq<char>),
}

pub open spec fn record_view(record: Seq<(String, Scalar)>) -> Seq<(Seq<char>, ScalarView)> {
    record.map_values(|entry: (String, Scalar)| (entry.0@, entry.1@))
}

pub open spec fn ints_view(list: Seq<i64>) -> Seq<int> {
    list.map_values(|value: i64| value as int)
}

impl View for Detail {
    type V = DetailView;

    open spec fn view(&self) -> DetailView {
        match self {
            Detail::Null => DetailView::Null,
            Detail::Bool(value) => DetailView::Bool(*value),
            Detail::Int(value) => DetailView::Int(*value as int),
            Detail::Text(value) => DetailView::Text(value@),
            Detail::Texts(values) => DetailView::Texts(text::texts(values@)),
            Detail::Ints(values) => DetailView::Ints(ints_view(values@)),
            Detail::Real(bits) => DetailView::Real(*bits),
            Detail::Reals(values) => DetailView::Reals(values@),
            Detail::Record(values) => DetailView::Record(record_view(values@)),
            Detail::Records(values) => DetailView::Records(records_view(values@)),
            Detail::Json(value) => DetailView::Json(value@),
        }
    }
}

impl DetailView {
    pub open spec fn optional_bool(value: Option<bool>) -> DetailView {
        match value {
            Some(value) => DetailView::Bool(value),
            None => DetailView::Null,
        }
    }

    pub open spec fn optional_int(value: Option<int>) -> DetailView {
        match value {
            Some(value) => DetailView::Int(value),
            None => DetailView::Null,
        }
    }

    pub open spec fn optional_text(value: Option<Seq<char>>) -> DetailView {
        match value {
            Some(value) => DetailView::Text(value),
            None => DetailView::Null,
        }
    }
}

impl Detail {
    pub fn text(value: &str) -> (detail: Detail)
        ensures
            detail@ == DetailView::Text(value@),
    {
        Detail::Text(value.to_owned())
    }

    pub fn optional_bool(value: Option<bool>) -> (detail: Detail)
        ensures
            detail@ == DetailView::optional_bool(value),
    {
        match value {
            Some(value) => Detail::Bool(value),
            None => Detail::Null,
        }
    }

    pub fn optional_i32(value: Option<i32>) -> (detail: Detail)
        ensures
            detail@ == DetailView::optional_int(
                match value {
                    Some(value) => Some(value as int),
                    None => None,
                },
            ),
    {
        match value {
            Some(value) => Detail::Int(value as i128),
            None => Detail::Null,
        }
    }

    pub fn optional_text(value: &Option<String>) -> (detail: Detail)
        ensures
            detail@ == DetailView::optional_text(text::optional_text(*value)),
    {
        match value {
            Some(value) => Detail::Text(value.clone()),
            None => Detail::Null,
        }
    }
}

impl Clone for Scalar {
    fn clone(&self) -> (copy: Self)
        ensures
            copy@ == self@,
    {
        match self {
            Scalar::Null => Scalar::Null,
            Scalar::Bool(value) => Scalar::Bool(*value),
            Scalar::Int(value) => Scalar::Int(*value),
            Scalar::Text(value) => Scalar::Text(value.clone()),
        }
    }
}

fn clone_record(record: &Vec<(String, Scalar)>) -> (copy: Vec<(String, Scalar)>)
    ensures
        record_view(copy@) == record_view(record@),
{
    let mut copy: Vec<(String, Scalar)> = Vec::new();
    let mut index: usize = 0;
    while index < record.len()
        invariant
            index <= record.len(),
            copy.len() == index,
            forall|i: int|
                0 <= i < index ==> (#[trigger] copy[i]).0@ == record[i].0@ && copy[i].1@
                    == record[i].1@,
        decreases record.len() - index,
    {
        copy.push((record[index].0.clone(), record[index].1.clone()));
        index = index + 1;
    }
    assert(record_view(copy@) =~= record_view(record@));
    copy
}

fn clone_entries(record: &Vec<(String, Entry)>) -> (copy: Vec<(String, Entry)>)
    ensures
        entries_view(copy@) == entries_view(record@),
{
    let mut copy: Vec<(String, Entry)> = Vec::new();
    let mut index: usize = 0;
    while index < record.len()
        invariant
            index <= record.len(),
            copy.len() == index,
            forall|i: int|
                0 <= i < index ==> (#[trigger] copy[i]).0@ == record[i].0@ && copy[i].1@
                    == record[i].1@,
        decreases record.len() - index,
    {
        let value: Entry = match &record[index].1 {
            Entry::Plain(value) => Entry::Plain(value.clone()),
            Entry::Record(values) => Entry::Record(clone_record(values)),
        };
        copy.push((record[index].0.clone(), value));
        index = index + 1;
    }
    assert(entries_view(copy@) =~= entries_view(record@));
    copy
}

fn clone_records(records: &Vec<Vec<(String, Entry)>>) -> (copy: Vec<Vec<(String, Entry)>>)
    ensures
        records_view(copy@) == records_view(records@),
{
    let mut copy: Vec<Vec<(String, Entry)>> = Vec::new();
    let mut index: usize = 0;
    while index < records.len()
        invariant
            index <= records.len(),
            copy.len() == index,
            forall|i: int|
                0 <= i < index ==> entries_view((#[trigger] copy[i])@) == entries_view(
                    records[i]@,
                ),
        decreases records.len() - index,
    {
        copy.push(clone_entries(&records[index]));
        index = index + 1;
    }
    assert(records_view(copy@) =~= records_view(records@));
    copy
}

fn clone_ints(list: &Vec<i64>) -> (copy: Vec<i64>)
    ensures
        copy@ == list@,
{
    let mut copy: Vec<i64> = Vec::new();
    let mut index: usize = 0;
    while index < list.len()
        invariant
            index <= list.len(),
            copy@ == list@.take(index as int),
        decreases list.len() - index,
    {
        copy.push(list[index]);
        index = index + 1;
        assert(list@.take(index as int) =~= list@.take(index as int - 1).push(list[index - 1]));
    }
    assert(list@.take(index as int) =~= list@);
    copy
}

impl Clone for Detail {
    fn clone(&self) -> (copy: Self)
        ensures
            copy@ == self@,
    {
        match self {
            Detail::Null => Detail::Null,
            Detail::Bool(value) => Detail::Bool(*value),
            Detail::Int(value) => Detail::Int(*value),
            Detail::Text(value) => Detail::Text(value.clone()),
            Detail::Texts(values) => Detail::Texts(clone_texts(values)),
            Detail::Ints(values) => Detail::Ints(clone_ints(values)),
            Detail::Real(bits) => Detail::Real(*bits),
            Detail::Reals(values) => Detail::Reals(clone_ints(values)),
            Detail::Record(values) => Detail::Record(clone_record(values)),
            Detail::Records(values) => Detail::Records(clone_records(values)),
            Detail::Json(value) => Detail::Json(value.clone()),
        }
    }
}

/// Named evidence values in the order they were reported.
#[derive(Debug)]
pub struct Fields {
    pub entries: Vec<(String, Detail)>,
}

/// The map that a list of reports stands for: the last report of a name counts.
pub open spec fn fields_map(entries: Seq<(String, Detail)>) -> Map<Seq<char>, DetailView>
    decreases entries.len(),
{
    if entries.len() == 0 {
        Map::empty()
    } else {
        fields_map(entries.drop_last()).insert(entries.last().0@, entries.last().1@)
    }
}

impl View for Fields {
    type V = Map<Seq<char>, DetailView>;

    open spec fn view(&self) -> Map<Seq<char>, DetailView> {
        fields_map(self.entries@)
    }
}

impl Fields {
    pub fn new() -> (fields: Fields)
        ensures
            fields@ == Map::<Seq<char>, DetailView>::empty(),
    {
        Fields { entries: Vec::new() }
    }

    pub fn insert(&mut self, name: &str, value: Detail)
        ensures
            final(self)@ == old(self)@.insert(name@, value@),
    {
        self.entries.push((name.to_owned(), value));
        assert(self.entries@.drop_last() =~= old(self).entries@);
    }

    /// Adds every field of another record, whose values win.
    pub fn extend(&mut self, other: &Fields)
        ensures
            final(self)@ == old(self)@.union_prefer_right(other@),
    {
        let mut index: usize = 0;
        assert(self@ =~= self@.union_prefer_right(fields_map(other.entries@.take(0))));
        while index < other.entries.len()
            invariant
                index <= other.entries.len(),
                self@ == old(self)@.union_prefer_right(
                    fields_map(other.entries@.take(index as int)),
                ),
            decreases other.entries.len() - index,
        {
            let ghost before = self@;
            let ghost prefix = other.entries@.take(index as int);
            let ghost longer = other.entries@.take(index as int + 1);
            self.insert(other.entries[index].0.as_str(), other.entries[index].1.clone());
            index = index + 1;
            assert(longer.drop_last() =~= prefix);
            assert(self@ =~= old(self)@.union_prefer_right(fields_map(longer)));
        }
        assert(other.entries@.take(index as int) =~= other.entries@);
    }

    pub fn get(&self, name: &str) -> (value: Option<&Detail>)
        ensures
            match value {
                Some(value) => self@.contains_key(name@) && self@[name@] == value@,
                None => !self@.contains_key(name@),
            },
    {
        let mut index: usize = self.entries.len();
        assert(self.entries@.take(index as int) =~= self.entries@);
        while index > 0
            invariant
                index <= self.entries.len(),
                fields_map(self.entries@.take(index as int)).contains_key(name@)
                    == self@.contains_key(name@),
                self@.contains_key(name@) ==> fields_map(self.entries@.take(index as int))[name@]
                    == self@[name@],
            decreases index,
        {
            index = index - 1;
            assert(self.entries@.take(index as int + 1).drop_last() =~= self.entries@.take(
                index as int,
            ));
            if same_text(self.entries[index].0.as_str(), name) {
                return Some(&self.entries[index].1);
            }
        }
        None
    }
}

impl Clone for Fields {
    fn clone(&self) -> (copy: Self)
        ensures
            copy@ == self@,
    {
        let mut copy: Fields = Fields::new();
        copy.extend(self);
        assert(copy@ =~= self@);
        copy
    }
}

} // verus!
