use vstd::prelude::*;
use crate::config::Config;
use crate::decimal::{int_val, is_canonical_int, parse_i32};
use crate::errors::AuthError;
use crate::jwt::{decodes_to, token_of, validate_token};
use crate::models::{AuthContext, ClaimsView};

verus! {

/// Whether an `Authorization` header value carries a bearer token.
pub open spec fn is_bearer(h: Seq<char>) -> bool {
    h.len() >= 7 && h.subrange(0, 7) == "Bearer "@
}

/// The decision a protected route makes about one request, given the
/// raw `Authorization` header and the clock.  A missing header, a
/// header without the bearer prefix, and a token that does not
/// validate are each rejected; a valid token yields the identity that
/// downstream handlers observe.  Every acceptance carries a bearer
/// token that decodes under the secret, is unexpired, and whose
/// subject is exactly the reported user id.
pub fn authorize(header: Option<&str>, config: &Config, now: i64) -> (r: Result<
    AuthContext,
    AuthError,
>)
    ensures
        header is None ==> r == Err::<AuthContext, AuthError>(AuthError::NoToken),
        header matches Some(h) && !is_bearer(h@) ==> r == Err::<AuthContext, AuthError>(
            AuthError::InvalidTokenFormat,
        ),
        forall|c: ClaimsView|
            (header matches Some(h) && is_bearer(h@) && h@.skip(7) == #[trigger] token_of(
                c,
                config.jwt_secret@,
            )) ==> ((c.exp > now
                && is_canonical_int(c.sub) && i32::MIN <= int_val(c.sub) <= i32::MAX ==> (
            r matches Ok(ctx) && ctx.user_id == int_val(c.sub) && ctx.role@ == c.role)) && (c.exp
                <= now ==> r == Err::<AuthContext, AuthError>(AuthError::InvalidToken))),
        match r {
            Ok(ctx) => header matches Some(h) && is_bearer(h@) && (match decodes_to(
                h@.skip(7),
                config.jwt_secret@,
            ) {
                Some(c) => c.exp > now && is_canonical_int(c.sub) && ctx.user_id as int == int_val(
                    c.sub,
                ) && ctx.role@ == c.role,
                None => false,
            }),
            Err(_) => true,
        },
{
    let h: &str = match header {
        Some(h) => h,
        None => {
            return Err(AuthError::NoToken);
        },
    };
    let n = h.unicode_len();
    proof {
        reveal_strlit("Bearer ");
    }
    if n < 7 {
        return Err(AuthError::InvalidTokenFormat);
    }
    let prefix: &str = "Bearer ";
    let mut i: usize = 0;
    while i < 7
        invariant
            0 <= i <= 7,
            header == Some(h),
            n == h@.len(),
            n >= 7,
            prefix@ == "Bearer "@,
            prefix@.len() == 7,
            forall|j: int| 0 <= j < i ==> h@[j] == prefix@[j],
        decreases 7 - i,
    {
        if h.get_char(i) != prefix.get_char(i) {
            assert(h@.subrange(0, 7)[i as int] != "Bearer "@[i as int]);
            return Err(AuthError::InvalidTokenFormat);
        }
        i = i + 1;
    }
    assert(h@.subrange(0, 7) =~= "Bearer "@);
    let token = h.substring_char(7, n);
    proof {
        assert(token@ =~= h@.skip(7));
    }
    match validate_token(token, config, now) {
        Ok(claims) => match parse_i32(claims.sub.as_str()) {
            Some(uid) => Ok(AuthContext { user_id: uid, role: claims.role }),
            None => Err(AuthError::InvalidToken),
        },
        Err(_) => Err(AuthError::InvalidToken),
    }
}

} // verus!
