//! The data model: user documents, token claims and the error types.

use vstd::prelude::*;

verus! {

/// A user document as stored in the collection. All fields are free-form
/// strings; `id` is assigned by the service at creation time.
pub struct User {
    pub id: String,
    pub first_name: String,
    pub last_name: String,
    pub username: String,
    pub email: String,
}

/// The mathematical view of a user document: five character sequences.
pub struct UserView {
    pub id: Seq<char>,
    pub first_name: Seq<char>,
    pub last_name: Seq<char>,
    pub username: Seq<char>,
    pub email: Seq<char>,
}

impl View for User {
    type V = UserView;

    open spec fn view(&self) -> UserView {
        UserView {
            id: self.id@,
            first_name: self.first_name@,
            last_name: self.last_name@,
            username: self.username@,
            email: self.email@,
        }
    }
}

impl User {
    /// A field-for-field copy of the document.
    pub fn duplicate(&self) -> (r: User)
        ensures
            r@ == self@,
    {
        let r = User {
            id: self.id.clone(),
            first_name: self.first_name.clone(),
            last_name: self.last_name.clone(),
            username: self.username.clone(),
            email: self.email.clone(),
        };
        assert(r@ == self@);
        r
    }
}

/// Credentials presented to the token-minting operation; never persisted.
pub struct Claims {
    pub username: String,
    pub password: String,
}

/// The claims embedded in a signed token: the username as subject, the
/// password echoed as a plaintext claim, and an expiry timestamp.
pub struct Info {
    pub id: String,
    pub pass: String,
    pub exp: usize,
}

/// A field-equality search request: the name of a user field and the
/// value it must equal.
pub struct Filter {
    pub filter_field: String,
    pub filter_key: String,
}

/// Failures of the token-minting path.
#[allow(non_camel_case_types)]
#[derive(Debug)]
pub enum Error_JWT {
    WrongCredentialsError,
    JWTTokenError,
    JWTTokenCreationError,
    NoAuthHeaderError,
    InvalidAuthHeaderError,
    NoPermissionError,
}

/// Failures of a collection operation. The service treats a missing
/// document as an error of the whole request, not as an empty success.
#[derive(Debug)]
pub enum DbError {
    NotFound,
}

} // verus!
