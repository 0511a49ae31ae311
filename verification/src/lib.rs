//! A small user-directory service library.
//!
//! The library models a single collection of user documents together with
//! the operations the service performs on it: create, read one, read all,
//! update, delete and field-equality search, plus a signed-token builder.
//! Every function here carries a contract describing exactly what it
//! returns and how it changes the collection state.

pub mod b64;
pub mod jsonenc;
pub mod jwt;
pub mod model;
pub mod routes;
pub mod store;
