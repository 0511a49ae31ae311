//! The verified route layer.
//!
//! Each function here is one route's decision logic: it takes the request
//! values and the collection, performs the one operation the route exists
//! for, and produces the reply the service sends — status 200 with the
//! JSON body on success, status 500 with the error text on any failure.
//! No other status is ever produced.

use vstd::prelude::*;

use crate::jsonenc::delete_ack_json;
use crate::jsonenc::insert_ack_json;
use crate::jsonenc::json_of_delete_ack;
use crate::jsonenc::json_of_insert_ack;
use crate::jsonenc::json_of_string;
use crate::jsonenc::json_of_user;
use crate::jsonenc::json_of_users;
use crate::jsonenc::string_json;
use crate::jsonenc::user_json;
use crate::jsonenc::users_json;
use crate::jwt::token_of;
use crate::model::Claims;
use crate::model::Error_JWT;
use crate::model::Filter;
use crate::model::User;
use crate::model::UserView;
use crate::store::spec_delete;
use crate::store::spec_get;
use crate::store::spec_search;
use crate::store::spec_update;
use crate::store::first_match;
use crate::store::UserStore;

verus! {

/// A reply: the status code and the body text. The service answers 200
/// with a JSON body or 500 with a plain error text, nothing else.
pub struct Reply {
    pub status: u16,
    pub body: String,
}

impl Error_JWT {
    /// The error's text, as the reply body shows it.
    pub fn message(&self) -> (s: &'static str)
        ensures
            s@ == self.spec_message(),
    {
        match self {
            Error_JWT::WrongCredentialsError => "wrong credentials",
            Error_JWT::JWTTokenError => "jwt token not valid",
            Error_JWT::JWTTokenCreationError => "jwt token creation error",
            Error_JWT::NoAuthHeaderError => "no auth header",
            Error_JWT::InvalidAuthHeaderError => "invalid auth header",
            Error_JWT::NoPermissionError => "no permission",
        }
    }

    /// The error's text.
    pub open spec fn spec_message(&self) -> Seq<char> {
        match self {
            Error_JWT::WrongCredentialsError => "wrong credentials"@,
            Error_JWT::JWTTokenError => "jwt token not valid"@,
            Error_JWT::JWTTokenCreationError => "jwt token creation error"@,
            Error_JWT::NoAuthHeaderError => "no auth header"@,
            Error_JWT::InvalidAuthHeaderError => "invalid auth header"@,
            Error_JWT::NoPermissionError => "no permission"@,
        }
    }
}

/// The liveness route: always 200 with the fixed greeting.
pub fn index() -> (r: Reply)
    ensures
        r.status == 200,
        r.body@ == "Rust microservice alive!"@,
{
    Reply { status: 200, body: String::from_str("Rust microservice alive!") }
}

/// Relies on `uuid::Uuid::new_v4` rendered by its `Display`: a fresh
/// random identifier in the hyphenated form, which is 36 characters long.
/// Nothing is assumed about which identifier comes back.
#[verifier::external_body]
fn new_uuid_v4() -> (r: String)
    ensures
        r@.len() == 36,
{
    uuid::Uuid::new_v4().to_string()
}

/// The request document with the server-assigned id in place of whatever
/// id the client sent.
pub open spec fn renamed(u: UserView, id: Seq<char>) -> UserView {
    UserView { id: id, ..u }
}

/// Replaces the client-sent id by the server-assigned one; every other
/// field is kept as sent.
pub fn with_new_id(req: &User, uid: String) -> (r: User)
    ensures
        r@ == renamed(req@, uid@),
{
    User {
        id: uid,
        first_name: req.first_name.clone(),
        last_name: req.last_name.clone(),
        username: req.username.clone(),
        email: req.email.clone(),
    }
}

/// The read-one route. The authorization header must carry at least the
/// seven-character scheme prefix; the authorization test asks nothing
/// more than that some character follows that prefix. When it does:
/// 200 with the document found by id, or 500 with the error text when
/// the id is absent.
pub fn get_user(store: &UserStore, id: &String, req_authorization: &String) -> (r: Reply)
    requires
        req_authorization@.len() >= 7,
    ensures
        req_authorization@.len() == 7 ==> r.status == 500 && r.body@ == "authorization failed"@,
        req_authorization@.len() > 7 ==> match spec_get(store@, id@) {
            Some(u) => r.status == 200 && r.body@ == json_of_user(u),
            None => r.status == 500 && r.body@ == "not found"@,
        },
{
    let token_len = req_authorization.as_str().unicode_len() - 7;
    if token_len > 0 {
        match store.get_user(id) {
            Ok(u) => Reply { status: 200, body: user_json(&u) },
            Err(_) => Reply { status: 500, body: String::from_str("not found") },
        }
    } else {
        Reply { status: 500, body: String::from_str("authorization failed") }
    }
}

/// The create route: assigns a fresh 36-character identifier, stores the
/// document with it, and acknowledges with that identifier. Every
/// document already present is untouched; nothing else is added.
pub fn create_user(store: &mut UserStore, req: &User) -> (r: Reply)
    ensures
        r.status == 200,
        final(store)@.len() == old(store)@.len() + 1,
        forall|j: int| 0 <= j < old(store)@.len() ==> final(store)@[j] == old(store)@[j],
        final(store)@.last().first_name == req@.first_name,
        final(store)@.last().last_name == req@.last_name,
        final(store)@.last().username == req@.username,
        final(store)@.last().email == req@.email,
        final(store)@.last().id.len() == 36,
        r.body@ == json_of_insert_ack(final(store)@.last().id),
{
    let uid = new_uuid_v4();
    create_user_with_id(store, req, uid)
}

/// The create route with the assigned identifier handed in: stores the
/// request document under `uid` and acknowledges with `uid`.
pub fn create_user_with_id(store: &mut UserStore, req: &User, uid: String) -> (r: Reply)
    ensures
        r.status == 200,
        final(store)@ == old(store)@.push(renamed(req@, uid@)),
        r.body@ == json_of_insert_ack(uid@),
{
    let body = insert_ack_json(uid.as_str());
    let new_doc = with_new_id(req, uid);
    store.create_user(new_doc);
    Reply { status: 200, body }
}

/// The update route: the request's own id names the document; every field
/// of the first document bearing it is overwritten, and the reply carries
/// the post-update document read back by that same id — or the error text
/// when no document bears it.
pub fn update_user(store: &mut UserStore, req: &User) -> (r: Reply)
    ensures
        final(store)@ == spec_update(old(store)@, req@.id, req@),
        match spec_get(final(store)@, req@.id) {
            Some(u) => r.status == 200 && r.body@ == json_of_user(u),
            None => r.status == 500 && r.body@ == "not found"@,
        },
{
    match store.update_user(&req.id, req.duplicate(), &req.id) {
        Ok(u) => Reply { status: 200, body: user_json(&u) },
        Err(_) => Reply { status: 500, body: String::from_str("not found") },
    }
}

/// The list route: always 200, with every document as a JSON array, in
/// collection order, unfiltered and unpaginated.
pub fn get_all_users(store: &UserStore) -> (r: Reply)
    ensures
        r.status == 200,
        r.body@ == json_of_users(store@),
{
    let users = store.get_all_users();
    Reply { status: 200, body: users_json(&users) }
}

/// The delete route: removes the first document bearing the id and
/// acknowledges with the count removed — zero when none matched, which is
/// no error.
pub fn delete_user(store: &mut UserStore, id: &String) -> (r: Reply)
    ensures
        final(store)@ == spec_delete(old(store)@, id@),
        r.status == 200,
        r.body@ == json_of_delete_ack(
            if first_match(old(store)@, id@) < old(store)@.len() {
                1nat
            } else {
                0nat
            },
        ),
{
    let ack = store.delete_user(id);
    Reply { status: 200, body: delete_ack_json(ack.deleted_count) }
}

/// The token route: 200 with the signed token as a JSON string, or 500
/// with the creation error's text.
pub fn create_jwt_token(req_data: Claims) -> (r: Reply)
    ensures
        r.status == 200 ==> exists|exp: nat|
            r.body@ == json_of_string(token_of(req_data.username@, req_data.password@, exp)),
        r.status != 200 ==> r.status == 500 && r.body@ == "jwt token creation error"@,
{
    let ghost username = req_data.username@;
    let ghost password = req_data.password@;
    match crate::jwt::create_jwt_token(req_data) {
        Ok(t) => {
            let body = string_json(t.as_str());
            proof {
                let exp = choose|exp: nat| t@ == token_of(username, password, exp);
                assert(body@ == json_of_string(token_of(username, password, exp)));
            }
            Reply { status: 200, body }
        },
        Err(e) => Reply { status: 500, body: String::from_str(e.message()) },
    }
}

/// The search route: always 200, with every document whose named field
/// equals the key, as a JSON array in collection order.
pub fn search_users(store: &UserStore, new_filter: &Filter) -> (r: Reply)
    ensures
        r.status == 200,
        r.body@ == json_of_users(
            spec_search(store@, new_filter.filter_field@, new_filter.filter_key@),
        ),
{
    let found = store.search_users(new_filter);
    Reply { status: 200, body: users_json(&found) }
}

} // verus!
