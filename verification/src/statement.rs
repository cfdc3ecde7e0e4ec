//! The two statements that the repository sends, and their parameters.

use vstd::prelude::*;
use crate::contact::{Contact, ContactView};
use crate::row::{values_view, Value, ValueView};

verus! {

/// A contact as a list of five values, in the order of the table's columns:
/// id, firstname, lastname, phone, email.
pub open spec fn contact_values(c: ContactView) -> Seq<ValueView> {
    seq![
        ValueView::Int(c.id),
        ValueView::Text(c.firstname),
        ValueView::Text(c.lastname),
        ValueView::Text(c.phone),
        ValueView::Text(c.email),
    ]
}

/// The select that `get` sends. It projects the five columns in the order
/// id, firstname, lastname, phone, email and takes the id as its one
/// parameter.
pub fn select_statement() -> (sql: &'static str)
    ensures
        sql@ == "SELECT id, firstname, lastname, phone, email FROM contact WHERE id=$1"@,
{
    "SELECT id, firstname, lastname, phone, email FROM contact WHERE id=$1"
}

/// The parameters of the select: the id alone.
pub fn select_parameters(id: i32) -> (params: Vec<Value>)
    ensures
        values_view(params@) == seq![ValueView::Int(id as int)],
{
    let mut params: Vec<Value> = Vec::new();
    params.push(Value::Int(id));
    assert(values_view(params@) =~= seq![ValueView::Int(id as int)]);
    params
}

/// The insert that `save` sends. Its five parameters fill the columns
/// id, firstname, lastname, phone, email in that order.
pub fn insert_statement() -> (sql: &'static str)
    ensures
        sql@
            == "INSERT INTO contact (id, firstname, lastname, phone, email) VALUES ($1, $2, $3, $4, $5)"@,
{
    "INSERT INTO contact (id, firstname, lastname, phone, email) VALUES ($1, $2, $3, $4, $5)"
}

/// The parameters of the insert: the contact's five fields in the order of
/// the columns.
pub fn insert_parameters(contact: &Contact) -> (params: Vec<Value>)
    ensures
        values_view(params@) == contact_values(contact@),
{
    let mut params: Vec<Value> = Vec::new();
    params.push(Value::Int(contact.id));
    params.push(Value::Text(contact.firstname.clone()));
    params.push(Value::Text(contact.lastname.clone()));
    params.push(Value::Text(contact.phone.clone()));
    params.push(Value::Text(contact.email.clone()));
    assert(values_view(params@) =~= contact_values(contact@));
    params
}

} // verus!
