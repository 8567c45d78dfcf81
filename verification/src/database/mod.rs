//! The catalog's records: the plain model of a book, and how the rows of a
//! catalog query become the books of a session.

pub mod connection;
pub mod models;
