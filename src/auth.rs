use vstd::prelude::*;
use mongodb::bson::oid::ObjectId;
use mongodb::bson::Document;
use crate::error::StoreError;

verus! {

#[verifier::external_type_specification]
#[verifier::external_body]
pub struct ExObjectId(mongodb::bson::oid::ObjectId);

#[verifier::external_type_specification]
#[verifier::external_body]
pub struct ExDocument(mongodb::bson::Document);

#[verifier::external_type_specification]
#[verifier::external_body]
pub struct ExJwtErrorKind(jsonwebtoken::errors::ErrorKind);

/// Why a request was refused by the guard.
#[derive(PartialEq, Eq, Structural)]
pub enum AuthorizationError {
    /// The request has no `Authorization` header.
    MissingKey,
    /// The token could not be decoded or its signature is wrong.
    InvalidKey,
    /// The token is sound, but the lookup of its user failed.
    NoUserFound,
}

impl AuthorizationError {
    /// The HTTP status that reports this refusal.
    pub fn status(&self) -> (r: u16)
        ensures
            *self == AuthorizationError::MissingKey ==> r == 400,
            *self != AuthorizationError::MissingKey ==> r == 500,
    {
        match self {
            AuthorizationError::MissingKey => 400,
            AuthorizationError::InvalidKey => 500,
            AuthorizationError::NoUserFound => 500,
        }
    }
}

/// Why a bearer token gives no user identifier.
pub enum TokenError {
    /// The token was refused by the decoder: bad form, bad signature, expired.
    Rejected(jsonwebtoken::errors::ErrorKind),
    /// The claims hold no `user_id` that is an object identifier.
    MissingUserId,
}

/// Relies on jsonwebtoken::decode with an HS256 validation and the shared
/// secret as HMAC key: it checks the signature, the expiry against the
/// clock, and returns the claims as a document. Nothing is stated of the
/// result, which depends on the time of the call.
#[verifier::external_body]
fn decode_claims(shared_secret: &str, key: &str) -> (r: Result<Document, jsonwebtoken::errors::ErrorKind>) {
    jsonwebtoken::decode::<Document>(
        key,
        &jsonwebtoken::DecodingKey::from_secret(shared_secret.as_bytes()),
        &jsonwebtoken::Validation::new(jsonwebtoken::Algorithm::HS256),
    ).map(|data| data.claims).map_err(|e| e.into_kind())
}

/// Relies on bson's Document::get_object_id: the value under `user_id`,
/// when it is stored as an object identifier.
#[verifier::external_body]
fn claim_user_id(claims: &Document) -> (r: Option<ObjectId>) {
    claims.get_object_id("user_id").ok()
}

/// Relies on bson's Document::get_str: the value under `user_id`, when it is
/// stored as a string.
#[verifier::external_body]
fn claim_user_id_text(claims: &Document) -> (r: Option<String>) {
    claims.get_str("user_id").ok().map(String::from)
}

/// Relies on bson's ObjectId::parse_str: the identifier written as 24 hex
/// digits. A text of any other length is refused.
#[verifier::external_body]
fn parse_object_id(text: &str) -> (r: Option<ObjectId>)
    ensures
        text@.len() != 24 ==> r is None,
{
    ObjectId::parse_str(text).ok()
}

/// What the token step gives, from what decoding the claims gave.
pub open spec fn token_user(decoded: Result<Option<ObjectId>, jsonwebtoken::errors::ErrorKind>) -> Result<ObjectId, TokenError> {
    match decoded {
        Ok(Some(id)) => Ok(id),
        Ok(None) => Err(TokenError::MissingUserId),
        Err(kind) => Err(TokenError::Rejected(kind)),
    }
}

/// Decides the token step from what decoding gave: the claimed user's
/// identifier, `MissingUserId` when the claims name none, or the decoder's
/// refusal.
pub fn user_id_outcome(decoded: Result<Option<ObjectId>, jsonwebtoken::errors::ErrorKind>) -> (r: Result<ObjectId, TokenError>)
    ensures
        r == token_user(decoded),
{
    match decoded {
        Ok(Some(id)) => Ok(id),
        Ok(None) => Err(TokenError::MissingUserId),
        Err(kind) => Err(TokenError::Rejected(kind)),
    }
}

/// The identifier a claim gives: the one stored as such, else the one its
/// text spells.
pub fn claimed_id(stored: Option<ObjectId>, parsed: Option<ObjectId>) -> (r: Option<ObjectId>)
    ensures
        stored is Some ==> r == stored,
        stored is None ==> r == parsed,
{
    match stored {
        Some(id) => Some(id),
        None => parsed,
    }
}

/// Decodes and verifies a bearer token, and reads the identifier of the
/// user it was issued to, stored as an object identifier or as its 24 hex
/// digits. Whether the decoder accepts the token depends on the clock.
pub fn decode_token(shared_secret: &str, key: &str) -> (r: Result<ObjectId, TokenError>)
    ensures
        exists|decoded: Result<Option<ObjectId>, jsonwebtoken::errors::ErrorKind>| r == token_user(decoded),
{
    let decoded = match decode_claims(shared_secret, key) {
        Ok(claims) => {
            let stored = claim_user_id(&claims);
            let parsed = match stored {
                Some(_) => None,
                None => match claim_user_id_text(&claims) {
                    Some(text) => parse_object_id(text.as_str()),
                    None => None,
                },
            };
            Ok(claimed_id(stored, parsed))
        },
        Err(kind) => Err(kind),
    };
    let r = user_id_outcome(decoded);
    assert(r == token_user(decoded));
    r
}

/// What the guard has learnt at one step of a request.
pub enum AuthEvent<U, E> {
    /// The value of the `Authorization` header, if the request has one.
    Header(Option<String>),
    /// What decoding the token gave.
    Decoded(Result<ObjectId, TokenError>),
    /// What looking the user up by identifier gave.
    Found(Result<U, StoreError<E>>),
}

/// What the guard does next.
pub enum AuthAction<U> {
    /// Decode this token.
    Decode(String),
    /// Look up the user with this identifier.
    Lookup(ObjectId),
    /// Let the request through as this user.
    Accept(U),
    /// Refuse the request.
    Reject(AuthorizationError),
}

/// The guard's answer to each event.
pub open spec fn auth_next<U, E>(event: AuthEvent<U, E>) -> AuthAction<U> {
    match event {
        AuthEvent::Header(None) => AuthAction::Reject(AuthorizationError::MissingKey),
        AuthEvent::Header(Some(key)) => AuthAction::Decode(key),
        AuthEvent::Decoded(Err(_)) => AuthAction::Reject(AuthorizationError::InvalidKey),
        AuthEvent::Decoded(Ok(id)) => AuthAction::Lookup(id),
        AuthEvent::Found(Err(_)) => AuthAction::Reject(AuthorizationError::NoUserFound),
        AuthEvent::Found(Ok(user)) => AuthAction::Accept(user),
    }
}

/// Decides the guard's next action from what the last step gave.
pub fn authenticate<U, E>(event: AuthEvent<U, E>) -> (r: AuthAction<U>)
    ensures
        r == auth_next(event),
{
    match event {
        AuthEvent::Header(None) => AuthAction::Reject(AuthorizationError::MissingKey),
        AuthEvent::Header(Some(key)) => AuthAction::Decode(key),
        AuthEvent::Decoded(Err(_)) => AuthAction::Reject(AuthorizationError::InvalidKey),
        AuthEvent::Decoded(Ok(id)) => AuthAction::Lookup(id),
        AuthEvent::Found(Err(_)) => AuthAction::Reject(AuthorizationError::NoUserFound),
        AuthEvent::Found(Ok(user)) => AuthAction::Accept(user),
    }
}

/// The guard's verdict on a request, run from its header through the
/// decoding of the token to the lookup of the user.
pub open spec fn auth_verdict<U, E>(
    header: Option<String>,
    decoded: Result<ObjectId, TokenError>,
    found: Result<U, StoreError<E>>,
) -> Result<U, AuthorizationError> {
    match auth_next::<U, E>(AuthEvent::Header(header)) {
        AuthAction::Decode(_) => match auth_next::<U, E>(AuthEvent::Decoded(decoded)) {
            AuthAction::Lookup(_) => match auth_next(AuthEvent::Found(found)) {
                AuthAction::Accept(user) => Ok(user),
                AuthAction::Reject(why) => Err(why),
                _ => Err(AuthorizationError::NoUserFound),
            },
            AuthAction::Reject(why) => Err(why),
            _ => Err(AuthorizationError::InvalidKey),
        },
        AuthAction::Reject(why) => Err(why),
        _ => Err(AuthorizationError::MissingKey),
    }
}

/// A request without a header is refused for a missing key; a token that does
/// not decode, for an invalid key; a sound token whose user cannot be found,
/// as a database failure; and a sound token whose user is found lets the
/// request through as that user.
pub proof fn lemma_auth_guard<U, E>(
    header: Option<String>,
    decoded: Result<ObjectId, TokenError>,
    found: Result<U, StoreError<E>>,
)
    ensures
        header is None ==> auth_verdict(header, decoded, found) == Err::<U, AuthorizationError>(AuthorizationError::MissingKey),
        header is Some && decoded is Err ==> auth_verdict(header, decoded, found) == Err::<U, AuthorizationError>(AuthorizationError::InvalidKey),
        header is Some && decoded is Ok && found is Err ==> auth_verdict(header, decoded, found) == Err::<U, AuthorizationError>(AuthorizationError::NoUserFound),
        header is Some && decoded is Ok && found is Ok ==> auth_verdict(header, decoded, found) == Ok::<U, AuthorizationError>(found->Ok_0),
{
}

} // verus!
