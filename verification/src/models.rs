//! The data of a query response and the records drawn from it, each with
//! the mathematical value that contracts speak of.

use vstd::prelude::*;

verus! {

/// One cell of a result row. The backend types its cells loosely: a cell may
/// hold any JSON value, whatever its column is declared as.
#[derive(Debug, PartialEq, Eq)]
pub enum Cell {
    Null,
    Bool(bool),
    /// A number, kept as the text it is written as.
    Number(String),
    Text(String),
    /// An array or an object.
    Nested,
}

/// A cell as contracts see it.
pub enum CellView {
    Null,
    Bool(bool),
    Number(Seq<char>),
    Text(Seq<char>),
    Nested,
}

impl View for Cell {
    type V = CellView;

    open spec fn view(&self) -> CellView {
        match *self {
            Cell::Null => CellView::Null,
            Cell::Bool(b) => CellView::Bool(b),
            Cell::Number(n) => CellView::Number(n@),
            Cell::Text(t) => CellView::Text(t@),
            Cell::Nested => CellView::Nested,
        }
    }
}

impl DeepView for Cell {
    type V = CellView;

    open spec fn deep_view(&self) -> CellView {
        self@
    }
}

/// The description of one column of a table.
#[derive(Debug, PartialEq, Eq)]
pub struct Column {
    pub name: String,
    pub column_type: String,
}

/// A column as contracts see it.
pub struct ColumnView {
    pub name: Seq<char>,
    pub column_type: Seq<char>,
}

impl View for Column {
    type V = ColumnView;

    open spec fn view(&self) -> ColumnView {
        ColumnView { name: self.name@, column_type: self.column_type@ }
    }
}

impl DeepView for Column {
    type V = ColumnView;

    open spec fn deep_view(&self) -> ColumnView {
        self@
    }
}

/// One result table: its columns, and its rows in the order of the response.
#[derive(Debug, PartialEq, Eq)]
pub struct Table {
    pub columns: Vec<Column>,
    pub rows: Vec<Vec<Cell>>,
}

/// A table as contracts see it.
pub struct TableView {
    pub columns: Seq<ColumnView>,
    pub rows: Seq<Seq<CellView>>,
}

impl View for Table {
    type V = TableView;

    open spec fn view(&self) -> TableView {
        TableView { columns: self.columns.deep_view(), rows: self.rows.deep_view() }
    }
}

impl DeepView for Table {
    type V = TableView;

    open spec fn deep_view(&self) -> TableView {
        self@
    }
}

/// The tables that the backend answered a query with.
#[derive(Debug, PartialEq, Eq)]
pub struct QueryResponse {
    pub tables: Vec<Table>,
}

impl View for QueryResponse {
    type V = Seq<TableView>;

    open spec fn view(&self) -> Seq<TableView> {
        self.tables.deep_view()
    }
}

/// One exception of the report.
#[derive(Debug, PartialEq, Eq)]
pub struct Exception {
    pub timestamp: String,
    pub exception_type: String,
    pub message: String,
    pub operation_name: String,
}

/// An exception as contracts see it.
pub struct ExceptionView {
    pub timestamp: Seq<char>,
    pub exception_type: Seq<char>,
    pub message: Seq<char>,
    pub operation_name: Seq<char>,
}

impl View for Exception {
    type V = ExceptionView;

    open spec fn view(&self) -> ExceptionView {
        ExceptionView {
            timestamp: self.timestamp@,
            exception_type: self.exception_type@,
            message: self.message@,
            operation_name: self.operation_name@,
        }
    }
}

impl DeepView for Exception {
    type V = ExceptionView;

    open spec fn deep_view(&self) -> ExceptionView {
        self@
    }
}

} // verus!
