//! The token codec: signs an account identifier into a compact token and
//! reads it back. Only the signature is checked; a token never expires.

use vstd::prelude::*;
use crate::decimal::decimal_text;
use crate::decimal::format_id;
use crate::decimal::parse_id;
use crate::decimal::parsed_id;
use crate::model::Claims;
use crate::model::text_of;

verus! {

/// The error of `jsonwebtoken`, `jsonwebtoken::errors::Error`. It is only
/// carried from the call to the place that turns it into a refusal; nothing
/// is claimed of what it holds.
#[verifier::external_type_specification]
#[verifier::external_body]
pub struct ExTokenFault(jsonwebtoken::errors::Error);

/// The token that `jsonwebtoken::encode` produces for claims that hold one
/// text, `value`, under `name`, with the default header and the HMAC key
/// `secret`; `None` where it fails.
pub uninterp spec fn signed_claim(name: Seq<char>, value: Seq<char>, secret: Seq<u8>) -> Option<
    Seq<char>,
>;

/// What `jsonwebtoken::decode` makes of `token` under the HMAC key `secret`
/// when neither an expiry nor any other claim is demanded: `None` where it
/// rejects the token, else the claim `name`, itself `None` where the claims
/// hold no text under that name.
pub uninterp spec fn token_claim(token: Seq<char>, name: Seq<char>, secret: Seq<u8>) -> Option<
    Option<Seq<char>>,
>;

/// Calls `jsonwebtoken::encode` with `Header::default()` (HS256), claims
/// that hold `value` under `name`, and `EncodingKey::from_secret(secret)`.
///
/// Trusted: the result is the named token; and where the claim is the
/// subject, `jsonwebtoken::decode` under the same secret, demanding no
/// claim, accepts that token and finds `value` under `name`.
#[verifier::external_body]
fn sign_claim(name: &str, value: &str, secret: &[u8]) -> (r: Result<
    String,
    jsonwebtoken::errors::Error,
>)
    ensures
        r.is_ok() == signed_claim(name@, value@, secret@).is_some(),
        r matches Ok(t) ==> signed_claim(name@, value@, secret@) == Some(t@) && (name@ == "sub"@
            ==> token_claim(t@, name@, secret@) == Some(Some(value@))),
{
    let mut claims = serde_json::Map::new();
    claims.insert(name.to_string(), serde_json::Value::String(value.to_string()));
    let key = jsonwebtoken::EncodingKey::from_secret(secret);
    jsonwebtoken::encode(&jsonwebtoken::Header::default(), &claims, &key)
}

/// Calls `jsonwebtoken::decode` with `DecodingKey::from_secret(secret)` and a
/// default validation (HS256) from which the demand for an expiry and its
/// check are removed, and picks the claim `name` where it is a text.
///
/// Trusted: the result is the named one.
#[verifier::external_body]
fn decode_claim(token: &str, name: &str, secret: &[u8]) -> (r: Result<
    Option<String>,
    jsonwebtoken::errors::Error,
>)
    ensures
        r.is_ok() == token_claim(token@, name@, secret@).is_some(),
        r matches Ok(s) ==> token_claim(token@, name@, secret@) == Some(text_of(s)),
{
    let mut validation = jsonwebtoken::Validation::default();
    validation.required_spec_claims = std::collections::HashSet::default();
    validation.validate_exp = false;
    let key = jsonwebtoken::DecodingKey::from_secret(secret);
    let data = jsonwebtoken::decode::<serde_json::Map<String, serde_json::Value>>(
        token,
        &key,
        &validation,
    )?;
    match data.claims.get(name) {
        Some(serde_json::Value::String(s)) => Ok(Some(s.clone())),
        _ => Ok(None),
    }
}

/// Why a token was not accepted.
#[derive(Clone, Copy, Debug, PartialEq, Eq, Structural)]
pub enum TokenError {
    /// Bad shape, bad signature, or no subject inside.
    Invalid,
}

/// The name of the claim that carries the account identifier.
pub open spec fn subject_claim() -> Seq<char> {
    "sub"@
}

/// The subject that a token vouches for under a secret, if any.
pub open spec fn subject_of(token: Seq<char>, secret: Seq<u8>) -> Option<Seq<char>> {
    match token_claim(token, subject_claim(), secret) {
        Some(Some(subject)) => Some(subject),
        _ => None,
    }
}

/// The token issued for an account under a secret, if signing succeeds.
pub open spec fn issued(account_id: int, secret: Seq<u8>) -> Option<Seq<char>> {
    signed_claim(subject_claim(), decimal_text(account_id), secret)
}

/// The account identifier that a token resolves to under a secret: its
/// subject, read as a number. `None` where the token is invalid or its subject
/// is no identifier.
pub open spec fn account_of(token: Seq<char>, secret: Seq<u8>) -> Option<i32> {
    match subject_of(token, secret) {
        Some(subject) => parsed_id(subject),
        None => None,
    }
}

/// Signs and checks tokens under one symmetric secret, handed in when the
/// process starts.
pub struct TokenCodec {
    secret: Vec<u8>,
}

impl TokenCodec {
    /// The secret this codec signs with.
    pub closed spec fn secret(&self) -> Seq<u8> {
        self.secret@
    }

    pub fn new(secret: Vec<u8>) -> (codec: TokenCodec)
        ensures
            codec.secret() == secret@,
    {
        TokenCodec { secret }
    }

    /// Signs a token whose subject is `account_id` in decimal. `None` only
    /// where the signer itself fails.
    pub fn issue(&self, account_id: i32) -> (token: Option<String>)
        ensures
            text_of(token) == issued(account_id as int, self.secret()),
            token matches Some(t) ==> subject_of(t@, self.secret()) == Some(
                decimal_text(account_id as int),
            ) && account_of(t@, self.secret()) == Some(account_id),
    {
        let subject = format_id(account_id);
        match sign_claim("sub", subject.as_str(), self.secret.as_slice()) {
            Ok(token) => Some(token),
            Err(_) => None,
        }
    }

    /// Checks the signature of `token` and returns its claims. An expiry
    /// inside the token is not looked at.
    pub fn verify(&self, token: &str) -> (r: Result<Claims, TokenError>)
        ensures
            match subject_of(token@, self.secret()) {
                Some(subject) => r matches Ok(claims) && claims.sub@ == subject,
                None => r == Err::<Claims, TokenError>(TokenError::Invalid),
            },
    {
        match decode_claim(token, "sub", self.secret.as_slice()) {
            Ok(Some(sub)) => Ok(Claims { sub }),
            _ => Err(TokenError::Invalid),
        }
    }

    /// Reads the subject of verified claims as an account identifier.
    pub fn account_id(claims: &Claims) -> (id: Option<i32>)
        ensures
            id == parsed_id(claims.sub@),
    {
        parse_id(claims.sub.as_str())
    }
}

} // verus!
