use vstd::prelude::*;
use crate::config::Config;
use crate::errors::AuthError;
use crate::jwt::{claims_for, generate_token, token_of, token_window_ok};
use crate::models::{
    AuthResponse, UserLogin, UserRegistration, UserResponse, UserView, role_or_default,
};
use crate::password::{hash_password, hashable, password_verifies, verify_password};
use crate::store::{UserStore, has_email, has_user_id, has_username, lemma_email_unique};

verus! {

/// Registration: reject when the email or username is taken, leaving
/// the store as it was; otherwise hash the password, append the user
/// under a fresh id with the requested role (default "user"), and
/// return the public fields.  The password itself is never stored.
/// A password beyond the hasher's input bound, like an exhausted id
/// counter, is an internal failure that leaves the store unchanged.
pub fn register(store: &mut UserStore, user_data: &UserRegistration, now: i64) -> (r: Result<
    UserResponse,
    AuthError,
>)
    requires
        old(store).wf(),
    ensures
        final(store).wf(),
        has_email(old(store)@, user_data.email@) || has_username(old(store)@, user_data.username@)
            ==> r == Err::<UserResponse, AuthError>(AuthError::Conflict) && final(store)@ == old(
            store,
        )@,
        !(has_email(old(store)@, user_data.email@) || has_username(
            old(store)@,
            user_data.username@,
        )) ==> match r {
            Ok(resp) => {
                &&& exists|h: Seq<char>| #[trigger] password_verifies(h, user_data.password@)
                    && final(store)@ == old(store)@.push(
                    UserView {
                        id: resp.id as int,
                        username: user_data.username@,
                        email: user_data.email@,
                        password_hash: h,
                        role: role_or_default(user_data.role),
                        created_at: now as int,
                    },
                )
                &&& resp.id as int == old(store).spec_next_id()
                &&& final(store).spec_next_id() == old(store).spec_next_id() + 1
                &&& resp.username@ == user_data.username@
                &&& resp.email@ == user_data.email@
                &&& resp.role@ == role_or_default(user_data.role)
            },
            Err(e) => e == AuthError::Internal && final(store)@ == old(store)@ && (old(
                store,
            ).spec_next_id() == i32::MAX || !hashable(user_data.password@)),
        },
{
    if store.exists_username_or_email(user_data.username.as_str(), user_data.email.as_str()) {
        return Err(AuthError::Conflict);
    }
    let password_hash = match hash_password(user_data.password.as_str()) {
        Some(h) => h,
        None => {
            return Err(AuthError::Internal);
        },
    };
    let role: String = match &user_data.role {
        Some(r) => r.clone(),
        None => String::from_str("user"),
    };
    let ghost hash_view: Seq<char> = password_hash@;
    match store.insert_user(
        user_data.username.clone(),
        user_data.email.clone(),
        password_hash,
        role.clone(),
        now,
    ) {
        Some(id) => {
            proof {
                assert(password_verifies(hash_view, user_data.password@));
            }
            Ok(
                UserResponse {
                    id,
                    username: user_data.username.clone(),
                    email: user_data.email.clone(),
                    role,
                },
            )
        },
        None => Err(AuthError::Internal),
    }
}

/// Login: an unknown email and a wrong password produce the same
/// error value, so the two cases cannot be told apart by the caller.
/// A correct password yields a signed token for the stored user's id
/// and role, alongside the public fields.
pub fn login(store: &UserStore, login_data: &UserLogin, config: &Config, now: i64) -> (r: Result<
    AuthResponse,
    AuthError,
>)
    requires
        store.wf(),
    ensures
        !has_email(store@, login_data.email@) ==> r == Err::<AuthResponse, AuthError>(
            AuthError::InvalidCredentials,
        ),
        forall|u: UserView| #[trigger]
            store@.contains(u) && u.email == login_data.email@ && !password_verifies(
                u.password_hash,
                login_data.password@,
            ) ==> r == Err::<AuthResponse, AuthError>(AuthError::InvalidCredentials),
        forall|u: UserView| #[trigger]
            store@.contains(u) && u.email == login_data.email@ && password_verifies(
                u.password_hash,
                login_data.password@,
            ) ==> ((token_window_ok(now as int, config.jwt_expires_in as int) ==> (
            r matches Ok(a) && a.user.id as int == u.id && a.user.username@ == u.username
                && a.user.email@ == u.email && a.user.role@ == u.role && a.token@ == token_of(
                claims_for(u.id, u.role, now as int, config.jwt_expires_in as int),
                config.jwt_secret@,
            ))) && (!token_window_ok(now as int, config.jwt_expires_in as int) ==> r == Err::<
                AuthResponse,
                AuthError,
            >(AuthError::TokenCreation))),
{
    let user = match store.find_by_email(login_data.email.as_str()) {
        Some(u) => u,
        None => {
            return Err(AuthError::InvalidCredentials);
        },
    };
    proof {
        assert forall|u: UserView| #[trigger]
            store@.contains(u) && u.email == login_data.email@ implies u == user@ by {
            lemma_email_unique(*store, u, user@);
        }
    }
    if !verify_password(user.password_hash.as_str(), login_data.password.as_str()) {
        return Err(AuthError::InvalidCredentials);
    }
    match generate_token(user.id, user.role.as_str(), config, now) {
        Ok(token) => Ok(
            AuthResponse {
                token,
                user: UserResponse {
                    id: user.id,
                    username: user.username,
                    email: user.email,
                    role: user.role,
                },
            },
        ),
        Err(_) => Err(AuthError::TokenCreation),
    }
}

/// User lookup by id: the public fields of the matching record.
pub fn get_user(store: &UserStore, user_id: i32) -> (r: Option<UserResponse>)
    ensures
        match r {
            Some(resp) => exists|u: UserView| #[trigger]
                store@.contains(u) && u.id == user_id as int && resp.id as int == u.id
                    && resp.username@ == u.username && resp.email@ == u.email && resp.role@
                    == u.role,
            None => !has_user_id(store@, user_id as int),
        },
{
    match store.find_by_id(user_id) {
        Some(u) => Some(
            UserResponse { id: u.id, username: u.username, email: u.email, role: u.role },
        ),
        None => None,
    }
}

} // verus!
