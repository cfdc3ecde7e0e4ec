//! The table `contact` as a mathematical object, and what the repository
//! owes its callers over a store that behaves like it.
//!
//! The store itself is not part of this library. `Table` writes down what is
//! expected of it: it keeps each inserted row under the row's id, gives it
//! back unchanged, and refuses a second row under an id that it holds.

use vstd::prelude::*;
use crate::contact::ContactView;
use crate::error::ErrorView;
use crate::repository::{contact_of, get_result, holds_contact, save_result};
use crate::row::ValueView;
use crate::statement::contact_values;
use crate::text::{not_found_text, unreadable_row_text};

verus! {

/// The rows of the table, each under its id, the primary key.
pub ghost struct Table {
    pub rows: Map<int, Seq<ValueView>>,
}

/// The id that a parameter list starts with.
pub open spec fn leading_id(params: Seq<ValueView>) -> int
    recommends
        params.len() >= 1,
        params[0] is Int,
{
    params[0]->Int_0
}

/// The rows that the table gives for the select with these parameters: the
/// row under the id, or none.
pub open spec fn selected(table: Table, params: Seq<ValueView>) -> Seq<Seq<ValueView>> {
    if table.rows.contains_key(leading_id(params)) {
        seq![table.rows[leading_id(params)]]
    } else {
        Seq::empty()
    }
}

/// Whether the table takes the insert with these parameters: they hold a
/// contact, and the table has no row under its id.
pub open spec fn admits(table: Table, params: Seq<ValueView>) -> bool {
    holds_contact(params) && !table.rows.contains_key(leading_id(params))
}

/// The table after the insert with these parameters: with the new row if it
/// takes the insert, unchanged if not.
pub open spec fn inserted(table: Table, params: Seq<ValueView>) -> Table {
    if admits(table, params) {
        Table { rows: table.rows.insert(leading_id(params), params) }
    } else {
        table
    }
}

/// The table's answer to the insert with these parameters: one affected row
/// if it takes the insert; if not, the error with which the driver reports
/// the refusal, whatever that error is.
pub open spec fn insert_answer(
    table: Table,
    params: Seq<ValueView>,
    refusal: tokio_postgres::Error,
) -> Result<u64, tokio_postgres::Error> {
    if admits(table, params) {
        Ok(1)
    } else {
        Err(refusal)
    }
}

/// What `get(id)` returns over this table, the connection being sound.
pub open spec fn get_over(table: Table, id: int) -> Result<ContactView, ErrorView> {
    get_result(id, Ok(selected(table, seq![ValueView::Int(id)])))
}

/// What `save` of this contact returns over this table, the connection being
/// sound. `refusal` is the error with which the driver reports a refused
/// insert.
pub open spec fn save_over(table: Table, c: ContactView, refusal: tokio_postgres::Error) -> Result<
    u64,
    ErrorView,
> {
    save_result(insert_answer(table, contact_values(c), refusal))
}

/// A row that was made from a contact reads back as that contact: the order
/// of the insert's parameters is the order in which a row is read.
pub proof fn lemma_row_reads_back(c: ContactView)
    ensures
        holds_contact(contact_values(c)),
        contact_of(contact_values(c)) == c,
{
}

/// `get` of an id under which the table holds no row is the repository's own
/// error with the message that names the id, and never a driver's error.
pub proof fn lemma_get_absent(table: Table, id: i32)
    requires
        !table.rows.contains_key(id as int),
    ensures
        get_over(table, id as int) == Err::<ContactView, ErrorView>(
            ErrorView::Intern(not_found_text(id as int)),
        ),
        !(get_over(table, id as int) matches Err(ErrorView::Db(_))),
{
}

/// Saving a contact whose id the table does not hold succeeds, and getting
/// that id afterwards gives the contact back, equal in all five fields.
pub proof fn lemma_save_then_get(table: Table, c: ContactView, refusal: tokio_postgres::Error)
    requires
        !table.rows.contains_key(c.id),
    ensures
        save_over(table, c, refusal) is Ok,
        get_over(inserted(table, contact_values(c)), c.id) == Ok::<ContactView, ErrorView>(c),
{
    lemma_row_reads_back(c);
}

/// Saving a contact whose id the table holds already fails with the driver's
/// error, never with a count and never with an error of the repository's
/// own, whatever the row under that id holds; and every row of the table
/// stays as it was.
pub proof fn lemma_save_duplicate(table: Table, c: ContactView, refusal: tokio_postgres::Error)
    requires
        table.rows.contains_key(c.id),
    ensures
        save_over(table, c, refusal) == Err::<u64, ErrorView>(ErrorView::Db(refusal)),
        inserted(table, contact_values(c)) == table,
{
}

/// Whatever the table holds, a save that succeeds reports exactly one
/// affected row, and the table then holds one row more, under the contact's
/// id.
pub proof fn lemma_save_affects_one(table: Table, c: ContactView, refusal: tokio_postgres::Error)
    ensures
        save_over(table, c, refusal) matches Ok(n) ==> n == 1,
        save_over(table, c, refusal) is Ok ==> !table.rows.contains_key(c.id) && inserted(
            table,
            contact_values(c),
        ).rows.dom() == table.rows.dom().insert(c.id),
{
    lemma_row_reads_back(c);
}

/// Whatever the table holds under an id, `get` of that id returns a result:
/// the contact of the row where the row holds one, and an error of the
/// repository's own where it does not.
pub proof fn lemma_get_present(table: Table, id: i32)
    requires
        table.rows.contains_key(id as int),
    ensures
        holds_contact(table.rows[id as int]) ==> get_over(table, id as int) == Ok::<
            ContactView,
            ErrorView,
        >(contact_of(table.rows[id as int])),
        !holds_contact(table.rows[id as int]) ==> get_over(table, id as int) == Err::<
            ContactView,
            ErrorView,
        >(ErrorView::Intern(unreadable_row_text(id as int))),
{
}

} // verus!
