use booklog::users::{
    Refusal, check_invite, check_passkey_deletion, check_start_impersonation,
    check_stop_impersonation, invite_url,
};
use booklog::ids::UserId;
use booklog::time::UtcTimestamp;
use booklog::users::{AuthenticatedUser, User, bearer_token, impersonation_banner};

fn user(id: i64, name: &str, is_admin: bool) -> User {
    User::new(
        UserId::new(id),
        name.to_string(),
        format!("uuid-{id}"),
        is_admin,
        UtcTimestamp::new(0, 0).unwrap(),
    )
}

#[test]
fn session_without_impersonation_acts_as_its_owner() {
    let a = AuthenticatedUser::from_session(user(1, "admin", true), None);
    assert!(!a.is_impersonating);
    assert_eq!(a.effective.id, UserId::new(1));
    assert_eq!(a.real.id, UserId::new(1));
    assert_eq!(a.effective.username, a.real.username);
}

#[test]
fn impersonating_session_acts_as_the_target() {
    let a = AuthenticatedUser::from_session(user(1, "admin", true), Some(user(7, "reader", false)));
    assert!(a.is_impersonating);
    assert_eq!(a.effective.id, UserId::new(7));
    assert_eq!(a.effective.username, "reader");
    assert_eq!(a.real.id, UserId::new(1));
}

#[test]
fn token_users_act_as_themselves() {
    let a = AuthenticatedUser::acting_as_self(user(3, "api", false));
    assert!(!a.is_impersonating);
    assert_eq!(a.effective.uuid, "uuid-3");
    assert_eq!(a.real.uuid, "uuid-3");
}

#[test]
fn impersonation_banner_names_the_target() {
    let target = user(7, "reader", false);
    assert_eq!(impersonation_banner(Some(&target)), (true, "reader".to_string()));
    assert_eq!(impersonation_banner(None), (false, String::new()));
}

#[test]
fn bearer_tokens_follow_the_scheme() {
    assert_eq!(bearer_token("Bearer abc123"), Some("abc123".to_string()));
    assert_eq!(bearer_token("Bearer "), Some(String::new()));
    assert_eq!(bearer_token("bearer abc123"), None);
    assert_eq!(bearer_token("Basic dXNlcjpwYXNz"), None);
    assert_eq!(bearer_token("Bearer"), None);
}

#[test]
fn only_admins_create_invites() {
    assert_eq!(
        check_invite(&AuthenticatedUser::acting_as_self(user(1, "admin", true))),
        Ok(())
    );
    assert_eq!(
        check_invite(&AuthenticatedUser::acting_as_self(user(2, "reader", false))),
        Err(Refusal::Forbidden)
    );
    // An admin impersonating a reader still acts with the admin's rights.
    let a = AuthenticatedUser::from_session(user(1, "admin", true), Some(user(2, "reader", false)));
    assert_eq!(check_invite(&a), Ok(()));
}

#[test]
fn impersonation_is_for_admins_on_other_users() {
    let admin = AuthenticatedUser::acting_as_self(user(1, "admin", true));
    assert_eq!(check_start_impersonation(&admin, UserId::new(2)), Ok(()));
    assert_eq!(
        check_start_impersonation(&admin, UserId::new(1)),
        Err(Refusal::BadRequest)
    );
    let reader = AuthenticatedUser::acting_as_self(user(2, "reader", false));
    assert_eq!(
        check_start_impersonation(&reader, UserId::new(1)),
        Err(Refusal::Forbidden)
    );
    assert_eq!(check_stop_impersonation(&admin), Err(Refusal::BadRequest));
    let acting = AuthenticatedUser::from_session(user(1, "admin", true), Some(user(2, "reader", false)));
    assert_eq!(check_stop_impersonation(&acting), Ok(()));
}

#[test]
fn the_last_passkey_cannot_be_deleted() {
    assert_eq!(check_passkey_deletion(UserId::new(1), UserId::new(1), 2), Ok(()));
    assert_eq!(
        check_passkey_deletion(UserId::new(1), UserId::new(1), 1),
        Err(Refusal::Conflict)
    );
    assert_eq!(
        check_passkey_deletion(UserId::new(1), UserId::new(2), 5),
        Err(Refusal::Forbidden)
    );
}

#[test]
fn invite_links_point_at_registration() {
    assert_eq!(
        invite_url("https://books.example.com", "abc"),
        "https://books.example.com/register/abc"
    );
}

#[test]
fn users_act_only_on_their_own_entities() {
    assert_eq!(booklog::users::check_owner(UserId::new(3), UserId::new(3)), Ok(()));
    assert_eq!(
        booklog::users::check_owner(UserId::new(3), UserId::new(4)),
        Err(Refusal::NotFound)
    );
}

#[test]
fn sessions_act_under_the_impersonated_id() {
    assert_eq!(
        booklog::users::effective_user_id(UserId::new(1), Some(UserId::new(7))),
        UserId::new(7)
    );
    assert_eq!(booklog::users::effective_user_id(UserId::new(1), None), UserId::new(1));
}

#[test]
fn signed_in_users_skip_the_login_page_unless_a_client_waits() {
    let plain = booklog::requests::LoginQuery { cli_callback: None };
    assert!(plain.redirects_home(true));
    assert!(!plain.redirects_home(false));
    let cli = booklog::requests::LoginQuery {
        cli_callback: Some("http://127.0.0.1:8765/callback".to_string()),
    };
    assert!(!cli.redirects_home(true));
}

#[test]
fn invites_last_a_week_and_the_first_registration_an_hour() {
    let now = UtcTimestamp::new(1_700_000_000, 5).unwrap();
    let invite = booklog::users::invite_expiry(&now).unwrap();
    assert_eq!(invite.seconds(), 1_700_000_000 + 7 * 24 * 3600);
    assert_eq!(invite.nanos(), 5);
    let first = booklog::users::first_registration_expiry(&now).unwrap();
    assert_eq!(first.seconds(), 1_700_000_000 + 3600);
    let end = UtcTimestamp::new(booklog::time::MAX_UTC_SECONDS - 10, 0).unwrap();
    assert!(booklog::users::invite_expiry(&end).is_none());
}
