//! The contact record.

use vstd::prelude::*;

verus! {

/// A contact as the caller holds it. The id is assigned by the caller; the
/// store keeps it unique.
#[derive(Debug, Clone, PartialEq, Eq)]
pub struct Contact {
    pub id: i32,
    pub firstname: String,
    pub lastname: String,
    pub phone: String,
    pub email: String,
}

/// The mathematical value of a contact: its id and the four texts.
pub ghost struct ContactView {
    pub id: int,
    pub firstname: Seq<char>,
    pub lastname: Seq<char>,
    pub phone: Seq<char>,
    pub email: Seq<char>,
}

impl View for Contact {
    type V = ContactView;

    open spec fn view(&self) -> ContactView {
        ContactView {
            id: self.id as int,
            firstname: self.firstname@,
            lastname: self.lastname@,
            phone: self.phone@,
            email: self.email@,
        }
    }
}

} // verus!
