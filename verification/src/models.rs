use vstd::prelude::*;

verus! {

/// A stored identity record.  The creation time is kept as unix
/// seconds; the id is assigned by the store and unique, as are the
/// username and the email.
#[derive(Debug)]
pub struct User {
    pub id: i32,
    pub username: String,
    pub email: String,
    pub password_hash: String,
    pub role: String,
    pub created_at: i64,
}

pub ghost struct UserView {
    pub id: int,
    pub username: Seq<char>,
    pub email: Seq<char>,
    pub password_hash: Seq<char>,
    pub role: Seq<char>,
    pub created_at: int,
}

impl View for User {
    type V = UserView;

    open spec fn view(&self) -> UserView {
        UserView {
            id: self.id as int,
            username: self.username@,
            email: self.email@,
            password_hash: self.password_hash@,
            role: self.role@,
            created_at: self.created_at as int,
        }
    }
}

/// The registration request body: a role may be given, otherwise the
/// new user gets the default role.
#[derive(Debug)]
pub struct UserRegistration {
    pub username: String,
    pub email: String,
    pub password: String,
    pub role: Option<String>,
}

/// The role a registration ends up with: the requested one, or "user".
pub open spec fn role_or_default(role: Option<String>) -> Seq<char> {
    match role {
        Some(r) => r@,
        None => "user"@,
    }
}

/// The login request body.
#[derive(Debug)]
pub struct UserLogin {
    pub email: String,
    pub password: String,
}

/// The public fields of a user; the password hash never leaves the
/// store through this type.
#[derive(Debug)]
pub struct UserResponse {
    pub id: i32,
    pub username: String,
    pub email: String,
    pub role: String,
}

/// A successful login: the signed token and the user's public fields.
#[derive(Debug)]
pub struct AuthResponse {
    pub token: String,
    pub user: UserResponse,
}

/// The token payload: subject (user id as a decimal string), expiry
/// and issue time in unix seconds, and the user's role.
#[derive(Debug)]
pub struct Claims {
    pub sub: String,
    pub exp: u64,
    pub iat: u64,
    pub role: String,
}

pub ghost struct ClaimsView {
    pub sub: Seq<char>,
    pub exp: int,
    pub iat: int,
    pub role: Seq<char>,
}

impl View for Claims {
    type V = ClaimsView;

    open spec fn view(&self) -> ClaimsView {
        ClaimsView {
            sub: self.sub@,
            exp: self.exp as int,
            iat: self.iat as int,
            role: self.role@,
        }
    }
}

/// The identity a validated request carries to downstream handlers.
#[derive(Debug)]
pub struct AuthContext {
    pub user_id: i32,
    pub role: String,
}

} // verus!
