//! What `get` and `save` return for each answer of the store.

use vstd::prelude::*;
use crate::contact::{Contact, ContactView};
use crate::error::{ErrorView, RepositoryError};
use crate::row::{rows_view, Row, Value, ValueView};
use crate::text::{
    not_found_message, not_found_text, unreadable_row_message, unreadable_row_text,
};

verus! {

/// Whether a row can be read as a contact: an integer in its first column and
/// texts in the four that follow. Columns beyond the fifth are not looked at.
pub open spec fn holds_contact(row: Seq<ValueView>) -> bool {
    &&& row.len() >= 5
    &&& row[0] is Int
    &&& row[1] is Text
    &&& row[2] is Text
    &&& row[3] is Text
    &&& row[4] is Text
}

/// The contact that a row holds, column by column: id, firstname, lastname,
/// phone, email.
pub open spec fn contact_of(row: Seq<ValueView>) -> ContactView
    recommends
        holds_contact(row),
{
    ContactView {
        id: row[0]->Int_0,
        firstname: row[1]->Text_0,
        lastname: row[2]->Text_0,
        phone: row[3]->Text_0,
        email: row[4]->Text_0,
    }
}

/// What `get(id)` returns, for every answer of the store. Where the driver
/// failed, its error, kept as it came. Where the store gave no row, an error
/// of the repository's own that names the id. Where the first row holds a
/// contact, that contact; where it does not (a null, a column too few, a
/// value of another kind), an error of the repository's own that says so.
/// Further rows are not looked at.
pub open spec fn get_result(
    id: int,
    fetched: Result<Seq<Seq<ValueView>>, tokio_postgres::Error>,
) -> Result<ContactView, ErrorView> {
    match fetched {
        Err(e) => Err(ErrorView::Db(e)),
        Ok(rows) => if rows.len() == 0 {
            Err(ErrorView::Intern(not_found_text(id)))
        } else if holds_contact(rows[0]) {
            Ok(contact_of(rows[0]))
        } else {
            Err(ErrorView::Intern(unreadable_row_text(id)))
        },
    }
}

/// What `save` returns: the number of rows that the store reports as
/// affected, or the driver's error, kept as it came.
pub open spec fn save_result(executed: Result<u64, tokio_postgres::Error>) -> Result<
    u64,
    ErrorView,
> {
    match executed {
        Err(e) => Err(ErrorView::Db(e)),
        Ok(affected) => Ok(affected),
    }
}

/// The store's answer to the select, each row by its view.
pub open spec fn fetched_view(fetched: Result<Vec<Row>, tokio_postgres::Error>) -> Result<
    Seq<Seq<ValueView>>,
    tokio_postgres::Error,
> {
    match fetched {
        Err(e) => Err(e),
        Ok(rows) => Ok(rows_view(rows@)),
    }
}

/// The result of `get`, by the views of the contact and of the error.
pub open spec fn found_view(result: Result<Contact, RepositoryError>) -> Result<
    ContactView,
    ErrorView,
> {
    match result {
        Err(e) => Err(e@),
        Ok(contact) => Ok(contact@),
    }
}

/// The result of `save`, by the view of the error.
pub open spec fn saved_view(result: Result<u64, RepositoryError>) -> Result<u64, ErrorView> {
    match result {
        Err(e) => Err(e@),
        Ok(affected) => Ok(affected),
    }
}

/// Tells whether a row can be read as a contact.
pub fn is_contact_row(row: &Row) -> (b: bool)
    ensures
        b == holds_contact(row@),
{
    if row.columns.len() < 5 {
        return false;
    }
    let first: bool = match &row.columns[0] {
        Value::Int(_) => true,
        _ => false,
    };
    first && is_text(&row.columns[1]) && is_text(&row.columns[2]) && is_text(&row.columns[3])
        && is_text(&row.columns[4])
}

/// Tells whether a value is a text.
fn is_text(value: &Value) -> (b: bool)
    ensures
        b == (value@ is Text),
{
    match value {
        Value::Text(_) => true,
        _ => false,
    }
}

/// The integer of a value that holds one.
fn int_of(value: &Value) -> (n: i32)
    requires
        value@ is Int,
    ensures
        value@ == ValueView::Int(n as int),
{
    match value {
        Value::Int(n) => *n,
        _ => unreached(),
    }
}

/// A copy of the text of a value that holds one.
fn text_of(value: &Value) -> (text: String)
    requires
        value@ is Text,
    ensures
        value@ == ValueView::Text(text@),
{
    match value {
        Value::Text(text) => text.clone(),
        _ => unreached(),
    }
}

/// Reads a row as a contact, column by column.
pub fn contact_from_row(row: &Row) -> (contact: Contact)
    requires
        holds_contact(row@),
    ensures
        contact@ == contact_of(row@),
{
    Contact {
        id: int_of(&row.columns[0]),
        firstname: text_of(&row.columns[1]),
        lastname: text_of(&row.columns[2]),
        phone: text_of(&row.columns[3]),
        email: text_of(&row.columns[4]),
    }
}

/// Decides what `get(id)` returns, given the store's answer to the select,
/// whatever that answer holds.
pub fn get_outcome(id: i32, fetched: Result<Vec<Row>, tokio_postgres::Error>) -> (result: Result<
    Contact,
    RepositoryError,
>)
    ensures
        found_view(result) == get_result(id as int, fetched_view(fetched)),
{
    match fetched {
        Err(e) => Err(RepositoryError::from(e)),
        Ok(rows) => {
            if rows.len() == 0 {
                Err(RepositoryError::Intern(not_found_message(id)))
            } else if is_contact_row(&rows[0]) {
                Ok(contact_from_row(&rows[0]))
            } else {
                Err(RepositoryError::Intern(unreadable_row_message(id)))
            }
        },
    }
}

/// Decides what `save` returns, given the store's answer to the insert.
pub fn save_outcome(executed: Result<u64, tokio_postgres::Error>) -> (result: Result<
    u64,
    RepositoryError,
>)
    ensures
        saved_view(result) == save_result(executed),
{
    match executed {
        Err(e) => Err(RepositoryError::from(e)),
        Ok(affected) => Ok(affected),
    }
}

} // verus!
