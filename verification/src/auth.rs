//! The identity service's settings and the data it hands out.

use crate::ids::{generate_uuid, is_random_uuid, uuid_value};
use uuid::Uuid;
use vstd::prelude::*;
use vstd::string::StringExecFns;

verus! {

/// A user as the service knows them.
#[derive(Debug, Clone)]
pub struct User {
    pub id: Uuid,
    pub username: String,
    pub email: String,
    pub roles: Vec<String>,
}

/// The roles that a realm grants.
#[derive(Debug, Clone)]
pub struct RealmAccess {
    pub roles: Vec<String>,
}

/// The claims of an access token.
#[derive(Debug, Clone)]
pub struct TokenClaims {
    pub sub: String,
    pub exp: usize,
    pub iat: usize,
    pub preferred_username: Option<String>,
    pub email: Option<String>,
    pub realm_access: Option<RealmAccess>,
}

/// Where tokens are verified.
pub struct AuthService {
    pub keycloak_url: String,
    pub realm: String,
    pub client_id: String,
}

impl User {
    /// Whether this is the stand-in user: a random id, fixed name and
    /// address, and the single role `user`.
    pub open spec fn is_placeholder(&self) -> bool {
        &&& is_random_uuid(uuid_value(self.id))
        &&& self.username@ == "placeholder"@
        &&& self.email@ == "placeholder@example.com"@
        &&& self.roles@.len() == 1
        &&& self.roles@[0]@ == "user"@
    }
}

impl AuthService {
    /// The service at `keycloak_url` for the given realm and client.
    pub fn new(keycloak_url: String, realm: String, client_id: String) -> (service: Self)
        ensures
            service.keycloak_url == keycloak_url,
            service.realm == realm,
            service.client_id == client_id,
    {
        AuthService { keycloak_url, realm, client_id }
    }

    /// Accepts every token and answers with the stand-in user under a
    /// fresh id.
    pub fn verify_token(&self, token: &str) -> (verified: Result<User, String>)
        ensures
            verified is Ok,
            verified->Ok_0.is_placeholder(),
    {
        let mut roles: Vec<String> = Vec::new();
        roles.push(String::from_str("user"));
        Ok(
            User {
                id: generate_uuid(),
                username: String::from_str("placeholder"),
                email: String::from_str("placeholder@example.com"),
                roles,
            },
        )
    }
}

} // verus!
