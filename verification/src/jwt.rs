//! Verified construction of the signed token.
//!
//! A token is three base64url segments joined by dots: a fixed header, the
//! claims object, and an HMAC-SHA512 signature of the first two segments
//! under a fixed secret. The claims carry the presented username as the
//! subject, the presented password echoed as a plaintext claim, and an
//! expiry sixty seconds past the time of minting. Everything but the
//! signature bytes themselves is computed and stated here; the signature is
//! the named result of the signing routine of the `jsonwebtoken` crate.

use vstd::prelude::*;

use crate::b64::b64url_of;
use crate::b64::base64url;
use crate::jsonenc::dec_of;
use crate::jsonenc::dec_string;
use crate::jsonenc::esc;
use crate::jsonenc::append_escaped;
use crate::model::Claims;
use crate::model::Error_JWT;
use crate::model::Info;
use vstd::utf8::encode_utf8;

verus! {

/// The base64url HMAC-SHA512 signature that `jsonwebtoken::crypto::sign`
/// computes for a message under a key: a function of the two byte
/// sequences alone.
pub uninterp spec fn hs512_sig_of(message: Seq<u8>, key: Seq<u8>) -> Seq<char>;

/// The `jsonwebtoken` crate's error type, declared so the signing call
/// can return it; it is carried through opaquely and mapped at once to
/// the library's own error.
#[verifier::external_type_specification]
#[verifier::external_body]
pub struct ExJwtError(jsonwebtoken::errors::Error);

/// Relies on `jsonwebtoken::crypto::sign` with `Algorithm::HS512` and a
/// key from `EncodingKey::from_secret`: for an HMAC algorithm the signing
/// always succeeds, and its result is the base64url HMAC-SHA512 signature
/// of the message under the key bytes, determined by them alone.
#[verifier::external_body]
fn sign_hs512(message: &[u8], key: &[u8]) -> (r: Result<String, jsonwebtoken::errors::Error>)
    ensures
        r is Ok,
        r matches Ok(s) ==> s@ == hs512_sig_of(message@, key@),
{
    jsonwebtoken::crypto::sign(
        message,
        &jsonwebtoken::EncodingKey::from_secret(key),
        jsonwebtoken::Algorithm::HS512,
    )
}

/// Relies on `chrono::Utc::now`, read as a unix timestamp in whole
/// seconds. The clock decides the value; nothing is assumed of it.
#[verifier::external_body]
fn now_unix() -> i64 {
    chrono::Utc::now().timestamp()
}

/// The fixed signing secret.
pub fn jwt_secret() -> (s: &'static str)
    ensures
        s@ == "secret"@,
{
    "secret"
}

/// The fixed token header naming the signing algorithm.
pub fn jwt_header_json() -> (s: &'static str)
    ensures
        s@ == "{\"typ\":\"JWT\",\"alg\":\"HS512\"}"@,
{
    "{\"typ\":\"JWT\",\"alg\":\"HS512\"}"
}

/// The claims object as JSON: subject, echoed password, expiry.
pub open spec fn json_of_info(username: Seq<char>, password: Seq<char>, exp: nat) -> Seq<char> {
    "{\"id\":\""@ + esc(username) + "\",\"pass\":\""@ + esc(password) + "\",\"exp\":"@ + dec_of(
        exp,
    ) + "}"@
}

/// Encodes the claims object as JSON.
pub fn info_json(info: &Info) -> (r: String)
    ensures
        r@ == json_of_info(info.id@, info.pass@, info.exp as nat),
{
    let mut out = String::new();
    out.append("{\"id\":\"");
    append_escaped(&mut out, info.id.as_str());
    out.append("\",\"pass\":\"");
    append_escaped(&mut out, info.pass.as_str());
    out.append("\",\"exp\":");
    let num = dec_string(info.exp as u64);
    out.append(num.as_str());
    out.append("}");
    assert(out@ =~= json_of_info(info.id@, info.pass@, info.exp as nat));
    out
}

/// Whether an expiry sixty seconds past `now` exists at all: it must be
/// representable both on the machine and in the claims field.
pub open spec fn exp_in_range(now: i64) -> bool {
    &&& 0 <= now + 60
    &&& now + 60 <= usize::MAX
    &&& now + 60 <= i64::MAX
}

/// Builds the claims for credentials presented at time `now`: the username
/// as subject, the password echoed, and expiry exactly sixty seconds on.
pub fn make_claims(request_data: &Claims, now: i64) -> (r: Info)
    requires
        exp_in_range(now),
    ensures
        r.id@ == request_data.username@,
        r.pass@ == request_data.password@,
        r.exp == now + 60,
{
    Info {
        id: request_data.username.clone(),
        pass: request_data.password.clone(),
        exp: (now + 60) as usize,
    }
}

/// The unsigned part of a token: both payload segments joined by a dot.
pub open spec fn message_of(username: Seq<char>, password: Seq<char>, exp: nat) -> Seq<char> {
    b64url_of(encode_utf8("{\"typ\":\"JWT\",\"alg\":\"HS512\"}"@)) + "."@ + b64url_of(
        encode_utf8(json_of_info(username, password, exp)),
    )
}

/// A whole token: the unsigned part, a dot, and its signature under the
/// fixed secret.
pub open spec fn token_of(username: Seq<char>, password: Seq<char>, exp: nat) -> Seq<char> {
    message_of(username, password, exp) + "."@ + hs512_sig_of(
        encode_utf8(message_of(username, password, exp)),
        encode_utf8("secret"@),
    )
}

/// Mints the token for credentials presented at time `now`. Exactly when
/// an expiry sixty seconds past `now` is representable, the result is the
/// token of those credentials with that expiry; otherwise it is the
/// creation error, the one failure this path reports.
pub fn create_jwt_token_at(request_data: &Claims, now: i64) -> (r: Result<String, Error_JWT>)
    ensures
        exp_in_range(now) ==> (r matches Ok(t) && t@ == token_of(
            request_data.username@,
            request_data.password@,
            (now + 60) as nat,
        )),
        !exp_in_range(now) ==> (r matches Err(e) && e == Error_JWT::JWTTokenCreationError),
{
    if now >= -60 && now <= i64::MAX - 60 {
        let e64: i64 = now + 60;
        if (e64 as u64) <= (usize::MAX as u64) {
            let info = make_claims(request_data, now);
            let header = jwt_header_json();
            let payload = info_json(&info);
            let h64 = base64url(header.as_bytes());
            let p64 = base64url(payload.as_str().as_bytes());
            let mut message = h64;
            message.append(".");
            message.append(p64.as_str());
            let ghost exp = (now + 60) as nat;
            proof {
                assert(message@ =~= message_of(request_data.username@, request_data.password@,
                    exp));
            }
            let secret = jwt_secret();
            let sig = sign_hs512(message.as_str().as_bytes(), secret.as_bytes());
            match sig {
                Ok(s) => {
                    let mut token = message;
                    token.append(".");
                    token.append(s.as_str());
                    proof {
                        assert(token@ =~= token_of(request_data.username@,
                            request_data.password@, exp));
                    }
                    return Ok(token);
                },
                Err(_) => {
                    return Err(Error_JWT::JWTTokenCreationError);
                },
            }
        }
    }
    Err(Error_JWT::JWTTokenCreationError)
}

/// Mints a token for the presented credentials at the current time. On
/// success the token is the token of these credentials for some expiry
/// the clock gave; the only reported failure is the creation error, on a
/// clock reading with no representable expiry.
pub fn create_jwt_token(request_data: Claims) -> (r: Result<String, Error_JWT>)
    ensures
        r matches Ok(t) ==> exists|exp: nat|
            t@ == token_of(request_data.username@, request_data.password@, exp),
        r matches Err(e) ==> e == Error_JWT::JWTTokenCreationError,
{
    let now = now_unix();
    let r = create_jwt_token_at(&request_data, now);
    proof {
        if exp_in_range(now) {
            assert(r matches Ok(t) ==> t@ == token_of(request_data.username@,
                request_data.password@, (now + 60) as nat));
        }
    }
    r
}

} // verus!
