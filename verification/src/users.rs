//! Users of the platform.
use vstd::prelude::*;

use crate::ids::UserId;
use crate::text::{chars_of, opt_view, starts_with, string_from_range};
use crate::time::UtcTimestamp;

verus! {

#[derive(Debug, Clone)]
pub struct User {
    pub id: UserId,
    pub username: String,
    pub uuid: String,
    pub is_admin: bool,
    pub created_at: UtcTimestamp,
}

#[derive(Debug, Clone)]
pub struct NewUser {
    pub username: String,
    pub uuid: String,
}

impl User {
    pub fn new(
        id: UserId,
        username: String,
        uuid: String,
        is_admin: bool,
        created_at: UtcTimestamp,
    ) -> (u: Self)
        ensures
            u.id == id,
            u.username == username,
            u.uuid == uuid,
            u.is_admin == is_admin,
            u.created_at == created_at,
    {
        User { id, username, uuid, is_admin, created_at }
    }
}

impl NewUser {
    pub fn new(username: String, uuid: String) -> (u: Self)
        ensures
            u.username == username,
            u.uuid == uuid,
    {
        NewUser { username, uuid }
    }
}


/// A copy of a user, field for field.
fn copy_user(u: &User) -> (c: User)
    ensures
        c == *u,
{
    User {
        id: u.id,
        username: u.username.clone(),
        uuid: u.uuid.clone(),
        is_admin: u.is_admin,
        created_at: u.created_at,
    }
}

/// The user a request is made by.
///
/// When impersonation is active, `effective` is the impersonated user and
/// `real` is the admin who initiated it. Otherwise both are the same user.
#[derive(Debug, Clone)]
pub struct AuthenticatedUser {
    pub effective: User,
    pub real: User,
    pub is_impersonating: bool,
}

impl AuthenticatedUser {
    /// Whether the two users agree with the flag: the same user unless
    /// impersonating.
    pub open spec fn consistent(self) -> bool {
        !self.is_impersonating ==> self.effective == self.real
    }

    /// A user acting as themself (a bearer token, or a session without
    /// impersonation).
    pub fn acting_as_self(user: User) -> (a: Self)
        ensures
            a.effective == user,
            a.real == user,
            !a.is_impersonating,
            a.consistent(),
    {
        AuthenticatedUser { effective: copy_user(&user), real: user, is_impersonating: false }
    }

    /// The user a session authenticates: `owner` owns the session; `target`
    /// is the user it acts as, when it acts as one and that user was found.
    /// Without a target the session's own user acts as themself.
    pub fn from_session(owner: User, target: Option<User>) -> (a: Self)
        ensures
            a.real == owner,
            a.is_impersonating == target is Some,
            a.effective == match target {
                Some(t) => t,
                None => owner,
            },
            a.consistent(),
    {
        match target {
            Some(t) => AuthenticatedUser { effective: t, real: owner, is_impersonating: true },
            None => AuthenticatedUser::acting_as_self(owner),
        }
    }
}

/// The id a valid session acts under: the impersonated user's when it acts
/// as one, else its owner's.
pub fn effective_user_id(owner: UserId, acting_as: Option<UserId>) -> (id: UserId)
    ensures
        id == match acting_as {
            Some(t) => t,
            None => owner,
        },
{
    match acting_as {
        Some(t) => t,
        None => owner,
    }
}

/// The impersonation banner of a page: shown, with the impersonated user's
/// name, when the session acts as a user that was found.
pub fn impersonation_banner(target: Option<&User>) -> (r: (bool, String))
    ensures
        r.0 == target is Some,
        r.1@ == match target {
            Some(u) => u.username@,
            None => Seq::empty(),
        },
{
    match target {
        Some(u) => (true, u.username.clone()),
        None => (false, String::new()),
    }
}

/// The token of an `Authorization` header of the form `Bearer <token>`.
pub open spec fn bearer_token_spec(value: Seq<char>) -> Option<Seq<char>> {
    if "Bearer "@.len() <= value.len() && value.subrange(0, "Bearer "@.len() as int) == "Bearer "@ {
        Some(value.subrange("Bearer "@.len() as int, value.len() as int))
    } else {
        None
    }
}

pub fn bearer_token(value: &str) -> (r: Option<String>)
    ensures
        opt_view(r) == bearer_token_spec(value@),
{
    if starts_with(value, "Bearer ") {
        let v = chars_of(value);
        let n = "Bearer ".unicode_len();
        Some(string_from_range(&v, n, v.len()))
    } else {
        None
    }
}


// ---------------------------------------------------------------------------
// Account administration
// ---------------------------------------------------------------------------

/// Why an account action is refused.
#[derive(Debug, Clone, Copy, PartialEq, Eq, Structural)]
pub enum Refusal {
    /// The user may not do this (`403 Forbidden`).
    Forbidden,
    /// The request makes no sense in this state (`400 Bad Request`).
    BadRequest,
    /// The action would leave the account unusable (`409 Conflict`).
    Conflict,
    /// The entity belongs to another user, and is answered as if it did not
    /// exist (`404 Not Found`).
    NotFound,
}

/// A user acts only on their own entities; another user's entity is
/// answered as if it did not exist.
pub fn check_owner(owner: UserId, acting: UserId) -> (r: Result<(), Refusal>)
    ensures
        r is Ok <==> owner == acting,
        r is Err ==> r == Err::<(), Refusal>(Refusal::NotFound),
{
    if owner != acting {
        return Err(Refusal::NotFound);
    }
    Ok(())
}

/// Only an admin, acting through their own session, may create invites.
pub fn check_invite(auth: &AuthenticatedUser) -> (r: Result<(), Refusal>)
    ensures
        r is Ok <==> auth.real.is_admin,
        r is Err ==> r == Err::<(), Refusal>(Refusal::Forbidden),
{
    if !auth.real.is_admin {
        return Err(Refusal::Forbidden);
    }
    Ok(())
}

/// An admin may impersonate any user but themself; anyone else is
/// forbidden to.
pub fn check_start_impersonation(auth: &AuthenticatedUser, target: UserId) -> (r: Result<
    (),
    Refusal,
>)
    ensures
        r is Ok <==> (auth.real.is_admin && target != auth.real.id),
        r == Err::<(), Refusal>(Refusal::Forbidden) <==> !auth.real.is_admin,
        r == Err::<(), Refusal>(Refusal::BadRequest) <==> (auth.real.is_admin && target
            == auth.real.id),
{
    if !auth.real.is_admin {
        return Err(Refusal::Forbidden);
    }
    if target == auth.real.id {
        return Err(Refusal::BadRequest);
    }
    Ok(())
}

/// Impersonation can only be stopped while it is active.
pub fn check_stop_impersonation(auth: &AuthenticatedUser) -> (r: Result<(), Refusal>)
    ensures
        r is Ok <==> auth.is_impersonating,
        r is Err ==> r == Err::<(), Refusal>(Refusal::BadRequest),
{
    if !auth.is_impersonating {
        return Err(Refusal::BadRequest);
    }
    Ok(())
}

/// A passkey may be deleted only by the user it belongs to, and never when
/// it is that user's last one: `user_passkeys` counts the passkeys of the
/// user acting.
pub fn check_passkey_deletion(owner: UserId, acting: UserId, user_passkeys: usize) -> (r: Result<
    (),
    Refusal,
>)
    ensures
        r is Ok <==> (owner == acting && user_passkeys > 1),
        r == Err::<(), Refusal>(Refusal::Forbidden) <==> owner != acting,
        r == Err::<(), Refusal>(Refusal::Conflict) <==> (owner == acting && user_passkeys <= 1),
{
    if owner != acting {
        return Err(Refusal::Forbidden);
    }
    if user_passkeys <= 1 {
        return Err(Refusal::Conflict);
    }
    Ok(())
}

/// How long an invite link stays valid: seven days.
pub const INVITE_LIFETIME_SECONDS: i64 = 604_800;

/// How long the registration link of the first user stays valid: one hour.
pub const FIRST_REGISTRATION_LIFETIME_SECONDS: i64 = 3_600;

/// When an invite created at `now` expires: seven days later.
pub fn invite_expiry(now: &UtcTimestamp) -> (r: Option<UtcTimestamp>)
    ensures
        r is Some <==> crate::time::instant_in_range(
            now.seconds_spec() + INVITE_LIFETIME_SECONDS,
            now.nanos_spec() as int,
        ),
        r matches Some(t) ==> t.seconds_spec() == now.seconds_spec() + INVITE_LIFETIME_SECONDS
            && t.nanos_spec() == now.nanos_spec(),
{
    now.plus_seconds(INVITE_LIFETIME_SECONDS)
}

/// When the registration link of the first user, made at `now`, expires:
/// one hour later.
pub fn first_registration_expiry(now: &UtcTimestamp) -> (r: Option<UtcTimestamp>)
    ensures
        r is Some <==> crate::time::instant_in_range(
            now.seconds_spec() + FIRST_REGISTRATION_LIFETIME_SECONDS,
            now.nanos_spec() as int,
        ),
        r matches Some(t) ==> t.seconds_spec() == now.seconds_spec()
            + FIRST_REGISTRATION_LIFETIME_SECONDS && t.nanos_spec() == now.nanos_spec(),
{
    now.plus_seconds(FIRST_REGISTRATION_LIFETIME_SECONDS)
}

/// The link that an invite hands out: `{base_url}/register/{token}`.
pub fn invite_url(base_url: &str, token: &str) -> (s: String)
    ensures
        s@ == base_url@ + "/register/"@ + token@,
{
    let mut s = crate::text::owned(base_url);
    s.append("/register/");
    s.append(token);
    s
}

} // verus!
