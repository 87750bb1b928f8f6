//! Entity descriptors: how an entity maps to its table, and the statements
//! that follow from the mapping alone.

use vstd::prelude::*;
use vstd::string::StringExecFns;
use crate::record::column_values;
use crate::record::ColumnValue;
use crate::record::ColumnValueView;
use crate::record::Record;
use crate::record::values_of;
use crate::record::values_view;
use crate::text::assignment_names;
use crate::text::assignment_strings;
use crate::text::comma_list;
use crate::text::contains_name;
use crate::text::copy_names;
use crate::text::join_with_commas;
use crate::text::names_view;
use crate::text::placeholder_names;
use crate::text::placeholder_strings;

verus! {

/// Static metadata of one entity type: its table and its column lists.
pub struct EntityDescriptor {
    /// The table that holds the entity's rows.
    pub table: String,
    /// The columns that an insert writes, in binding order.
    pub insert_columns: Vec<String>,
    /// The columns that an update writes, in binding order; the primary key
    /// is not among them.
    pub update_columns: Vec<String>,
    /// The audit columns that the store maintains for this entity.
    pub audit_columns: Vec<String>,
}

/// A descriptor as the contracts see it.
pub struct DescriptorView {
    /// The table name.
    pub table: Seq<char>,
    /// The insert columns, in order.
    pub insert_columns: Seq<Seq<char>>,
    /// The update columns, in order.
    pub update_columns: Seq<Seq<char>>,
    /// The audit columns.
    pub audit_columns: Seq<Seq<char>>,
}

impl View for EntityDescriptor {
    type V = DescriptorView;

    open spec fn view(&self) -> DescriptorView {
        DescriptorView {
            table: self.table@,
            insert_columns: names_view(self.insert_columns@),
            update_columns: names_view(self.update_columns@),
            audit_columns: names_view(self.audit_columns@),
        }
    }
}

/// A statement that writes a row: the text, and for each placeholder the
/// column whose value belongs to it and that value.
pub struct Statement {
    /// The SQL text, with the placeholders `$1` to `$n`.
    pub sql: String,
    /// Entry `i` names the column whose value is bound to placeholder
    /// `i + 1`.
    pub columns: Vec<String>,
    /// Entry `i` is the value to bind to placeholder `i + 1`.
    pub values: Vec<ColumnValue>,
}

/// A statement as the contracts see it.
pub struct StatementView {
    /// The SQL text.
    pub sql: Seq<char>,
    /// The columns to bind, in binding order.
    pub columns: Seq<Seq<char>>,
    /// The values to bind, in binding order.
    pub values: Seq<ColumnValueView>,
}

impl View for Statement {
    type V = StatementView;

    open spec fn view(&self) -> StatementView {
        StatementView {
            sql: self.sql@,
            columns: names_view(self.columns@),
            values: values_view(self.values@),
        }
    }
}

/// The greatest number of parameters that one statement can bind.
pub const MAX_PARAMETERS: usize = 65535;

impl DescriptorView {
    /// Every statement of the entity stays within the number of parameters
    /// that one statement can bind.
    pub open spec fn well_formed(self) -> bool {
        self.insert_columns.len() <= MAX_PARAMETERS && self.update_columns.len() < MAX_PARAMETERS
    }

    /// The columns that a caller may sort by: the primary key and every
    /// column that the descriptor names.
    pub open spec fn sortable_columns(self) -> Seq<Seq<char>> {
        seq!["id"@] + self.insert_columns + self.update_columns + self.audit_columns
    }

    /// `SELECT * FROM <table>`.
    pub open spec fn select_all_text(self) -> Seq<char> {
        "SELECT * FROM "@ + self.table
    }

    /// `SELECT * FROM <table> WHERE 1=1`, the text that the filters of a
    /// listing follow.
    pub open spec fn select_where_text(self) -> Seq<char> {
        "SELECT * FROM "@ + self.table + " WHERE 1=1"@
    }

    /// `SELECT COUNT(*) FROM <table> WHERE 1=1`, the text that the filters of
    /// a count follow.
    pub open spec fn count_where_text(self) -> Seq<char> {
        "SELECT COUNT(*) FROM "@ + self.table + " WHERE 1=1"@
    }

    /// `SELECT * FROM <table> WHERE id = `, the text that the bound key of a
    /// read by key follows.
    pub open spec fn select_by_id_text(self) -> Seq<char> {
        "SELECT * FROM "@ + self.table + " WHERE id = "@
    }

    /// `DELETE FROM <table> WHERE id = `, the text that the bound key of a
    /// delete follows.
    pub open spec fn delete_by_id_text(self) -> Seq<char> {
        "DELETE FROM "@ + self.table + " WHERE id = "@
    }

    /// `INSERT INTO <table> (<columns>) VALUES (<placeholders>) RETURNING *`
    /// with one placeholder for each insert column, numbered from 1 in
    /// column order.
    pub open spec fn insert_text(self) -> Seq<char> {
        "INSERT INTO "@ + self.table + " ("@ + comma_list(self.insert_columns) + ") VALUES ("@
            + comma_list(placeholder_names(1, self.insert_columns.len())) + ") RETURNING *"@
    }

    /// `UPDATE <table> SET <assignments> WHERE id = $1 RETURNING *` with one
    /// assignment for each update column, numbered from 2 in column order.
    pub open spec fn update_text(self) -> Seq<char> {
        "UPDATE "@ + self.table + " SET "@ + comma_list(
            assignment_names(self.update_columns, 2),
        ) + " WHERE id = $1 RETURNING *"@
    }

    /// The columns whose values an update binds: the key first, then the
    /// update columns in their order.
    pub open spec fn update_bindings(self) -> Seq<Seq<char>> {
        seq!["id"@] + self.update_columns
    }

    /// The insert statement of a record: it binds the record's values of
    /// the insert columns, in column order.
    pub open spec fn insert_statement<R: Record>(self, record: &R) -> StatementView {
        StatementView {
            sql: self.insert_text(),
            columns: self.insert_columns,
            values: values_of(record, self.insert_columns),
        }
    }

    /// The update statement of a record: it binds the record's key first,
    /// then the record's values of the update columns in column order.
    pub open spec fn update_statement<R: Record>(self, record: &R) -> StatementView {
        StatementView {
            sql: self.update_text(),
            columns: self.update_bindings(),
            values: values_of(record, self.update_bindings()),
        }
    }
}

impl EntityDescriptor {
    /// Whether the descriptor's statements stay within the number of
    /// parameters that one statement can bind.
    pub fn is_well_formed(&self) -> (result: bool)
        ensures
            result == self@.well_formed(),
    {
        self.insert_columns.len() <= MAX_PARAMETERS && self.update_columns.len() < MAX_PARAMETERS
    }

    /// Whether a listing may be sorted by `column`: whether it is the primary
    /// key or a column that the descriptor names.
    pub fn is_sortable(&self, column: &String) -> (result: bool)
        ensures
            result == self@.sortable_columns().contains(column@),
    {
        let key = String::from_str("id");
        let is_key = key == *column;
        let found = is_key || contains_name(&self.insert_columns, column) || contains_name(
            &self.update_columns,
            column,
        ) || contains_name(&self.audit_columns, column);
        proof {
            let all = self@.sortable_columns();
            let head = seq!["id"@];
            let a = self@.insert_columns;
            let b = self@.update_columns;
            let c = self@.audit_columns;
            assert(head[0] == "id"@);
            if found {
                if is_key {
                    assert(all[0] == column@);
                } else if a.contains(column@) {
                    let k = choose|k: int| 0 <= k < a.len() && a[k] == column@;
                    assert(all[1 + k] == column@);
                } else if b.contains(column@) {
                    let k = choose|k: int| 0 <= k < b.len() && b[k] == column@;
                    assert(all[1 + a.len() + k] == column@);
                } else {
                    let k = choose|k: int| 0 <= k < c.len() && c[k] == column@;
                    assert(all[1 + a.len() + b.len() + k] == column@);
                }
            } else {
                if all.contains(column@) {
                    let k = choose|k: int| 0 <= k < all.len() && all[k] == column@;
                    if k < 1 {
                        assert(head[k] == column@);
                    } else if k < 1 + a.len() {
                        assert(a[k - 1] == column@);
                    } else if k < 1 + a.len() + b.len() {
                        assert(b[k - 1 - a.len()] == column@);
                    } else {
                        assert(c[k - 1 - a.len() - b.len()] == column@);
                    }
                }
            }
        }
        found
    }

    /// The text of the read of every row.
    pub fn select_all_sql(&self) -> (sql: String)
        ensures
            sql@ == self@.select_all_text(),
    {
        String::from_str("SELECT * FROM ").concat(self.table.as_str())
    }

    /// The text that the filters of a listing follow.
    pub fn select_where_sql(&self) -> (sql: String)
        ensures
            sql@ == self@.select_where_text(),
    {
        String::from_str("SELECT * FROM ").concat(self.table.as_str()).concat(" WHERE 1=1")
    }

    /// The text that the filters of a count follow.
    pub fn count_where_sql(&self) -> (sql: String)
        ensures
            sql@ == self@.count_where_text(),
    {
        String::from_str("SELECT COUNT(*) FROM ").concat(self.table.as_str()).concat(" WHERE 1=1")
    }

    /// The text that the bound key of a read by key follows.
    pub fn select_by_id_sql(&self) -> (sql: String)
        ensures
            sql@ == self@.select_by_id_text(),
    {
        String::from_str("SELECT * FROM ").concat(self.table.as_str()).concat(" WHERE id = ")
    }

    /// The text that the bound key of a delete follows.
    pub fn delete_by_id_sql(&self) -> (sql: String)
        ensures
            sql@ == self@.delete_by_id_text(),
    {
        String::from_str("DELETE FROM ").concat(self.table.as_str()).concat(" WHERE id = ")
    }

    /// The insert statement of a record of the entity.
    pub fn insert_statement<R: Record>(&self, record: &R) -> (statement: Statement)
        requires
            self@.well_formed(),
        ensures
            statement@ == self@.insert_statement(record),
    {
        let columns = join_with_commas(&self.insert_columns);
        let placeholders = placeholder_strings(1, self.insert_columns.len());
        let values = join_with_commas(&placeholders);
        let sql = String::from_str("INSERT INTO ").concat(self.table.as_str()).concat(" (").concat(
            columns.as_str(),
        ).concat(") VALUES (").concat(values.as_str()).concat(") RETURNING *");
        let columns = copy_names(&self.insert_columns);
        let values = column_values(record, &columns);
        Statement { sql, columns, values }
    }

    /// The update statement of a record of the entity.
    pub fn update_statement<R: Record>(&self, record: &R) -> (statement: Statement)
        requires
            self@.well_formed(),
        ensures
            statement@ == self@.update_statement(record),
    {
        let assignments = assignment_strings(&self.update_columns, 2);
        let list = join_with_commas(&assignments);
        let sql = String::from_str("UPDATE ").concat(self.table.as_str()).concat(" SET ").concat(
            list.as_str(),
        ).concat(" WHERE id = $1 RETURNING *");
        let mut columns: Vec<String> = Vec::new();
        columns.push(String::from_str("id"));
        let rest = copy_names(&self.update_columns);
        let mut i: usize = 0;
        while i < rest.len()
            invariant
                i <= rest.len(),
                names_view(rest@) == self@.update_columns,
                names_view(columns@) =~= seq!["id"@] + self@.update_columns.take(i as int),
            decreases rest.len() - i,
        {
            let ghost before = names_view(columns@);
            columns.push(rest[i].clone());
            proof {
                assert(names_view(rest@)[i as int] == rest@[i as int]@);
                assert(names_view(columns@) =~= before.push(rest@[i as int]@));
                assert(self@.update_columns.take(i as int + 1) =~= self@.update_columns.take(
                    i as int,
                ).push(rest@[i as int]@));
            }
            i = i + 1;
        }
        proof {
            assert(self@.update_columns.take(rest.len() as int) =~= self@.update_columns);
        }
        let values = column_values(record, &columns);
        Statement { sql, columns, values }
    }
}

} // verus!
