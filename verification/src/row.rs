//! Values as the store takes and gives them: a statement's parameters and the
//! columns of a row.

use vstd::prelude::*;

verus! {

/// One value of a parameter list or of a row.
#[derive(Debug, Clone, PartialEq, Eq)]
pub enum Value {
    /// A 32-bit integer.
    Int(i32),
    /// A text.
    Text(String),
    /// The store's null.
    Null,
}

/// The mathematical value of a `Value`.
pub ghost enum ValueView {
    Int(int),
    Text(Seq<char>),
    Null,
}

impl View for Value {
    type V = ValueView;

    open spec fn view(&self) -> ValueView {
        match *self {
            Value::Int(n) => ValueView::Int(n as int),
            Value::Text(text) => ValueView::Text(text@),
            Value::Null => ValueView::Null,
        }
    }
}

/// The values of a list, each by its view.
pub open spec fn values_view(values: Seq<Value>) -> Seq<ValueView> {
    values.map_values(|v: Value| v@)
}

/// One row of a result: its columns in the order of the projection.
#[derive(Debug, Clone, PartialEq, Eq)]
pub struct Row {
    pub columns: Vec<Value>,
}

impl View for Row {
    type V = Seq<ValueView>;

    open spec fn view(&self) -> Seq<ValueView> {
        values_view(self.columns@)
    }
}

/// The rows of a result, each by its view.
pub open spec fn rows_view(rows: Seq<Row>) -> Seq<Seq<ValueView>> {
    rows.map_values(|r: Row| r@)
}

} // verus!
