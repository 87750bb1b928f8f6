//! Records as the statements see them: a value for each column of a row
//! that is written.

use vstd::prelude::*;
use vstd::string::StringExecFns;
use crate::text::names_view;

verus! {

/// The value of one column of a row that is written.
#[derive(Debug)]
pub enum ColumnValue {
    /// An integer.
    Integer(i32),
    /// An integer, or null.
    OptionalInteger(Option<i32>),
    /// A text.
    Text(String),
    /// A text, or null.
    OptionalText(Option<String>),
    /// A fixed-point decimal.
    Decimal(sqlx::types::BigDecimal),
    /// A value of an enumerated type of the store, given by its canonical
    /// lowercase name. The caller binds it with the type of its column.
    Enumerated(String),
    /// A value that stays with the caller, who binds it: a floating-point
    /// number, a JSON document, or the value of a column that the record
    /// does not have.
    Deferred,
}

/// A column value as the contracts see it.
pub enum ColumnValueView {
    Integer(int),
    OptionalInteger(Option<int>),
    Text(Seq<char>),
    OptionalText(Option<Seq<char>>),
    Decimal(sqlx::types::BigDecimal),
    Enumerated(Seq<char>),
    Deferred,
}

impl View for ColumnValue {
    type V = ColumnValueView;

    open spec fn view(&self) -> ColumnValueView {
        match self {
            ColumnValue::Integer(value) => ColumnValueView::Integer(*value as int),
            ColumnValue::OptionalInteger(Some(value)) => ColumnValueView::OptionalInteger(
                Some(*value as int),
            ),
            ColumnValue::OptionalInteger(None) => ColumnValueView::OptionalInteger(None),
            ColumnValue::Text(value) => ColumnValueView::Text(value@),
            ColumnValue::OptionalText(Some(value)) => ColumnValueView::OptionalText(Some(value@)),
            ColumnValue::OptionalText(None) => ColumnValueView::OptionalText(None),
            ColumnValue::Decimal(value) => ColumnValueView::Decimal(*value),
            ColumnValue::Enumerated(name) => ColumnValueView::Enumerated(name@),
            ColumnValue::Deferred => ColumnValueView::Deferred,
        }
    }
}

/// The values of a list, as the contracts see them.
pub open spec fn values_view(values: Seq<ColumnValue>) -> Seq<ColumnValueView> {
    values.map_values(|value: ColumnValue| value@)
}

/// The view of an optional integer.
pub open spec fn optional_integer(value: Option<i32>) -> ColumnValueView {
    match value {
        Some(number) => ColumnValueView::OptionalInteger(Some(number as int)),
        None => ColumnValueView::OptionalInteger(None),
    }
}

/// The view of an optional text.
pub open spec fn optional_text_value(value: Option<String>) -> ColumnValueView {
    match value {
        Some(text) => ColumnValueView::OptionalText(Some(text@)),
        None => ColumnValueView::OptionalText(None),
    }
}

/// A record that has a value for each of its columns.
pub trait Record {
    /// The value that the record has for `column`; `Deferred` for a column
    /// whose value stays with the caller.
    spec fn value_of(&self, column: Seq<char>) -> ColumnValueView;

    /// The value that the record has for `column`.
    fn column_value(&self, column: &str) -> (value: ColumnValue)
        ensures
            value@ == self.value_of(column@),
    ;
}

/// For each column the value that the record has for it, in the order of
/// the columns.
pub open spec fn values_of<R: Record>(record: &R, columns: Seq<Seq<char>>) -> Seq<ColumnValueView> {
    Seq::new(columns.len(), |i: int| record.value_of(columns[i]))
}

/// Whether two texts are the same.
pub fn same_text(left: &str, right: &str) -> (same: bool)
    ensures
        same == (left@ == right@),
{
    String::from_str(left) == String::from_str(right)
}

/// For each column the value that the record has for it, in the order of
/// the columns.
pub fn column_values<R: Record>(record: &R, columns: &Vec<String>) -> (values: Vec<ColumnValue>)
    ensures
        values_view(values@) == values_of(record, names_view(columns@)),
{
    let mut values: Vec<ColumnValue> = Vec::new();
    let mut i: usize = 0;
    while i < columns.len()
        invariant
            i <= columns.len(),
            values@.len() == i,
            forall|k: int| 0 <= k < i ==> (#[trigger] values@[k])@ == record.value_of(columns@[k]@),
        decreases columns.len() - i,
    {
        values.push(record.column_value(columns[i].as_str()));
        i = i + 1;
    }
    values
}

} // verus!
