use vstd::prelude::*;

verus! {

/// A stored user. The identifier is the hex form of the store's object id,
/// absent until the record is inserted; instants are milliseconds since the
/// Unix epoch.
#[derive(Debug, Clone)]
pub struct User {
    pub id: Option<String>,
    pub username: String,
    pub password_hash: String,
    pub email: String,
    pub created_at: i64,
    pub updated_at: i64,
}

impl User {
    /// A user not yet stored, created and last updated at `now_millis`.
    pub fn new(username: String, email: String, password_hash: String, now_millis: i64) -> (r: Self)
        ensures
            r.id is None,
            r.username@ == username@,
            r.email@ == email@,
            r.password_hash@ == password_hash@,
            r.created_at == now_millis,
            r.updated_at == now_millis,
    {
        User { id: None, username, password_hash, email, created_at: now_millis, updated_at: now_millis }
    }
}

/// A stored item owned by a user; instants are milliseconds since the epoch.
#[derive(Debug, Clone)]
pub struct Item {
    pub id: Option<String>,
    pub user_id: String,
    pub title: String,
    pub description: String,
    pub created_at: i64,
    pub updated_at: i64,
}

impl Item {
    /// An item not yet stored, created and last updated at `now_millis`.
    pub fn new(user_id: String, title: String, description: String, now_millis: i64) -> (r: Self)
        ensures
            r.id is None,
            r.user_id@ == user_id@,
            r.title@ == title@,
            r.description@ == description@,
            r.created_at == now_millis,
            r.updated_at == now_millis,
    {
        Item { id: None, user_id, title, description, created_at: now_millis, updated_at: now_millis }
    }
}

#[derive(Debug, Clone)]
pub struct LoginRequest {
    pub username: String,
    pub password: String,
}

#[derive(Debug, Clone)]
pub struct RegisterRequest {
    pub username: String,
    pub email: String,
    pub password: String,
}

/// The claims carried inside a session token: subject, issue and expiry
/// instants in whole seconds since the epoch.
#[derive(Debug, Clone)]
pub struct TokenClaims {
    pub sub: String,
    pub iat: i64,
    pub exp: i64,
}

impl TokenClaims {
    pub open spec fn view(&self) -> (Seq<char>, i64, i64) {
        (self.sub@, self.iat, self.exp)
    }
}

#[derive(Debug, Clone)]
pub struct CreateItemRequest {
    pub title: String,
    pub description: String,
}

#[derive(Debug, Clone)]
pub struct UpdateItemRequest {
    pub title: Option<String>,
    pub description: Option<String>,
}

} // verus!
