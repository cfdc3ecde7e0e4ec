//! A contact repository over a relational store: the contact value, the two
//! statements with their parameters, and what `get` and `save` make of the
//! store's answers.

pub mod contact;
pub mod error;
pub mod repository;
pub mod row;
pub mod statement;
pub mod store;
pub mod text;
