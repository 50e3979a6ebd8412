//! Column metadata: what an expression knows of a catalog column, and the
//! identity by which columns are matched across expression trees.

use crate::types::LogicalType;
use std::sync::Arc;
use vstd::prelude::*;

verus! {

/// The identity of a column: its catalog id where it has one, its name, and
/// the table it belongs to.
#[derive(Debug, Clone, PartialEq, Eq, Hash)]
pub struct ColumnSummary {
    pub id: Option<u32>,
    pub name: String,
    pub table_name: Option<String>,
}

#[derive(Debug, Clone, Copy, PartialEq, Eq, Hash)]
pub struct ColumnDesc {
    pub column_datatype: LogicalType,
    pub is_primary: bool,
    pub is_unique: bool,
}

#[derive(Debug, Clone, PartialEq, Eq, Hash)]
pub struct ColumnCatalog {
    pub summary: ColumnSummary,
    pub nullable: bool,
    pub desc: ColumnDesc,
}

/// A shared handle to a column of the catalog.
pub type ColumnRef = Arc<ColumnCatalog>;

/// The mathematical value of a `ColumnSummary`.
pub ghost struct SummaryView {
    pub id: Option<u32>,
    pub name: Seq<char>,
    pub table_name: Option<Seq<char>>,
}

/// The mathematical value of a `ColumnCatalog`.
pub ghost struct ColumnView {
    pub summary: SummaryView,
    pub nullable: bool,
    pub desc: ColumnDesc,
}

impl View for ColumnSummary {
    type V = SummaryView;

    open spec fn view(&self) -> SummaryView {
        SummaryView {
            id: self.id,
            name: self.name@,
            table_name: match self.table_name {
                Some(t) => Some(t@),
                None => None,
            },
        }
    }
}

impl View for ColumnCatalog {
    type V = ColumnView;

    open spec fn view(&self) -> ColumnView {
        ColumnView { summary: self.summary@, nullable: self.nullable, desc: self.desc }
    }
}

impl SummaryView {
    /// The name qualified by the table, `table.name`, or the bare name of a
    /// column without a table.
    pub open spec fn full_name(&self) -> Seq<char> {
        match self.table_name {
            Some(t) => t + "."@ + self.name,
            None => self.name,
        }
    }
}

impl ColumnView {
    /// The column that stands for a computed expression: nullable, named
    /// after the expression, without id or table.
    pub open spec fn synthetic(name: Seq<char>, datatype: LogicalType) -> ColumnView {
        ColumnView {
            summary: SummaryView { id: None, name: name, table_name: None },
            nullable: true,
            desc: ColumnDesc { column_datatype: datatype, is_primary: false, is_unique: false },
        }
    }
}

impl ColumnDesc {
    pub fn new(column_datatype: LogicalType, is_primary: bool, is_unique: bool) -> (r: ColumnDesc)
        ensures
            r == (ColumnDesc { column_datatype, is_primary, is_unique }),
    {
        ColumnDesc { column_datatype, is_primary, is_unique }
    }
}

impl ColumnSummary {
    /// Whether two summaries name the same column: same id, same name, same
    /// table.
    pub fn same(&self, other: &ColumnSummary) -> (r: bool)
        ensures
            r == (self@ == other@),
    {
        let ids = match (&self.id, &other.id) {
            (Some(a), Some(b)) => *a == *b,
            (None, None) => true,
            _ => false,
        };
        let tables = match (&self.table_name, &other.table_name) {
            (Some(a), Some(b)) => *a == *b,
            (None, None) => true,
            _ => false,
        };
        ids && tables && self.name == other.name
    }
}

impl ColumnCatalog {
    /// A column that belongs to no table yet: no id, no table name.
    pub fn new(column_name: String, nullable: bool, column_desc: ColumnDesc) -> (r: ColumnCatalog)
        ensures
            r@ == (ColumnView {
                summary: SummaryView { id: None, name: column_name@, table_name: None },
                nullable,
                desc: column_desc,
            }),
    {
        ColumnCatalog {
            summary: ColumnSummary { id: None, name: column_name, table_name: None },
            nullable,
            desc: column_desc,
        }
    }

    /// Whether two columns have the same identity.
    pub fn same_summary(&self, other: &ColumnCatalog) -> (r: bool)
        ensures
            r == (self@.summary == other@.summary),
    {
        self.summary.same(&other.summary)
    }

    pub fn summary(&self) -> (r: &ColumnSummary)
        ensures
            *r == self.summary,
    {
        &self.summary
    }

    pub fn datatype(&self) -> (r: &LogicalType)
        ensures
            *r == self.desc.column_datatype,
    {
        &self.desc.column_datatype
    }

    pub fn name(&self) -> (r: &str)
        ensures
            r@ == self.summary.name@,
    {
        self.summary.name.as_str()
    }

    /// The fully-qualified name of the column.
    pub fn full_name(&self) -> (r: String)
        ensures
            r@ == self@.summary.full_name(),
    {
        match &self.summary.table_name {
            Some(table) => {
                let mut s = table.clone();
                s.append(".");
                s.append(self.summary.name.as_str());
                s
            },
            None => self.summary.name.clone(),
        }
    }
}

/// Trusted: `Arc::clone` hands out another handle to the same value, so the
/// value behind it is the one behind the argument.
#[verifier::external_body]
pub(crate) fn share<T>(handle: &Arc<T>) -> (r: Arc<T>)
    ensures
        r == *handle,
{
    handle.clone()
}

} // verus!
