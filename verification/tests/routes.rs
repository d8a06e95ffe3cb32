use newsletter::authentication::{compute_password_hash, validate_credentials, AuthError, Credentials};
use newsletter::idempotency::IdempotencyKey;
use newsletter::reply::{flash_messages_html, Location, Notice, Page, Reply, SessionUpdate};
use newsletter::routes::admin_dashboard::{admin_dashboard, DashboardAction, DashboardEvent, DashboardState};
use newsletter::routes::admin_access::admit_to_admin_area;
use newsletter::routes::admin_newsletters::{newsletter_form_for_bytes, newsletter_form_with_key, publish_newsletter_form};
use newsletter::routes::change_password::{
    change_password, FormData, PasswordChangeAction, PasswordChangeEvent, PasswordChangeState,
};
use newsletter::routes::change_password_form::change_password_form;
use newsletter::routes::login::{self as login_route, login, LoginAction, LoginEvent, LoginState};
use newsletter::routes::logout::log_out;
use newsletter::routes::newsletters;
use newsletter::routes::subscriptions_confirm::{
    confirm, ConfirmAction, ConfirmError, ConfirmEvent, ConfirmStage, ConfirmState, Parameters,
};
use uuid::Uuid;

fn form(current: &str, new: &str, check: &str) -> FormData {
    FormData {
        current_password: current.to_string(),
        new_password: new.to_string(),
        new_password_check: check.to_string(),
    }
}

fn assert_redirect_with(action: &PasswordChangeAction, notice: Notice) {
    match action {
        PasswordChangeAction::Respond(Some(n), Reply::SeeOther(location)) => {
            assert_eq!(*n, notice);
            assert_eq!(location.path(), "/admin/password");
        }
        _ => panic!("expected a redirect to /admin/password"),
    }
}

/// The change-password form as the user sees it after the notice was flashed.
fn form_page_after(notice: Notice) -> String {
    let reply = change_password_form(Ok(Some(Uuid::from_u128(42))), vec![notice.text().to_string()]);
    match reply {
        Reply::Page(page) => page.render(),
        _ => panic!("expected the form"),
    }
}

/// Applies a session update to the logged-in user of a session.
fn apply(session: Option<Uuid>, update: SessionUpdate) -> Option<Uuid> {
    match update {
        SessionUpdate::Unchanged => session,
        SessionUpdate::LogIn(id) => Some(id),
        SessionUpdate::LogOut => None,
    }
}

/// Runs a login with the stored credentials `stored` for the username, and
/// returns the session update, the notice and the reply.
fn run_login(username: &str, password: &str, stored: Result<Option<(Uuid, String)>, String>) -> (SessionUpdate, Option<Notice>, Reply) {
    let f = login_route::FormData { username: username.to_string(), password: password.to_string() };
    let (state, action) = login(&f, LoginEvent::Submitted);
    assert_eq!(state, LoginState::AwaitingCredentialCheck);
    let checked = match action {
        LoginAction::CheckCredentials(c) => {
            assert_eq!(c.username, username);
            validate_credentials(&c, stored)
        }
        _ => panic!("expected a credential check"),
    };
    let (state, action) = login(&f, LoginEvent::CredentialsChecked(checked));
    assert_eq!(state, LoginState::Done);
    match action {
        LoginAction::Respond(update, notice, reply) => (update, notice, reply),
        _ => panic!("expected a response"),
    }
}

/// The dashboard a visitor with this session gets.
fn dashboard_for(session: Option<Uuid>, username: &str) -> Reply {
    let (state, action) = admin_dashboard(DashboardEvent::SessionRead(Ok(session)));
    match action {
        DashboardAction::Respond(reply) => reply,
        DashboardAction::FetchUsername(_) => {
            match admin_dashboard(DashboardEvent::UsernameFetched(Ok(username.to_string()))).1 {
                DashboardAction::Respond(reply) => reply,
                _ => panic!("expected a response"),
            }
        }
    }
}

/// Drives a password change to the credential check, which the caller answers.
fn up_to_credential_check(f: &FormData, user: Uuid) {
    let (state, action) = change_password(f, user, PasswordChangeEvent::Submitted);
    assert_eq!(state, PasswordChangeState::AwaitingUsername);
    assert!(matches!(action, PasswordChangeAction::FetchUsername(id) if id == user));
    let (state, action) = change_password(f, user, PasswordChangeEvent::UsernameFetched(Ok("alice".to_string())));
    assert_eq!(state, PasswordChangeState::AwaitingCredentialCheck);
    match action {
        PasswordChangeAction::CheckCredentials(c) => {
            assert_eq!(c.username, "alice");
            assert_eq!(c.password, f.current_password);
        }
        _ => panic!("expected a credential check"),
    }
}

#[test]
fn new_password_fields_must_match() {
    let user = Uuid::from_u128(42);
    let f = form("old-password", "new-password-1234", "something-else-99");
    let (state, action) = change_password(&f, user, PasswordChangeEvent::Submitted);
    assert_eq!(state, PasswordChangeState::Done);
    assert_redirect_with(&action, Notice::PasswordFieldsDiffer);
    assert!(form_page_after(Notice::PasswordFieldsDiffer).contains(
        "<p><i>You entered two different new passwords - the field values must match.</i></p>",
    ));
    assert!(Notice::PasswordFieldsDiffer.is_error());
}

#[test]
fn current_password_must_be_valid() {
    let user = Uuid::from_u128(42);
    let f = form("not-the-password", "new-password-1234", "new-password-1234");
    up_to_credential_check(&f, user);
    let (state, action) = change_password(&f, user, PasswordChangeEvent::CredentialsChecked(Err(AuthError::InvalidCredentials("Invalid password".to_string()))),
    );
    assert_eq!(state, PasswordChangeState::Done);
    assert_redirect_with(&action, Notice::CurrentPasswordIncorrect);
    assert!(form_page_after(Notice::CurrentPasswordIncorrect).contains("<p><i>The current password is incorrect.</i></p>"));
}

#[test]
fn new_password_must_be_in_the_length_range() {
    let user = Uuid::from_u128(42);
    for new_password in ["a".repeat(12), "a".repeat(129)] {
        let f = form("current", &new_password, &new_password);
        up_to_credential_check(&f, user);
        let (state, action) = change_password(&f, user, PasswordChangeEvent::CredentialsChecked(Ok(user)));
        assert_eq!(state, PasswordChangeState::Done);
        assert_redirect_with(&action, Notice::NewPasswordLength);
        assert!(form_page_after(Notice::NewPasswordLength).contains(
            "<p><i>The new password must be longer than 12 and shorter than 129 characters.</i></p>",
        ));
    }
}

#[test]
fn new_passwords_of_13_and_128_characters_are_stored() {
    let user = Uuid::from_u128(42);
    for new_password in ["a".repeat(13), "a".repeat(128)] {
        let f = form("current", &new_password, &new_password);
        up_to_credential_check(&f, user);
        let (state, action) = change_password(&f, user, PasswordChangeEvent::CredentialsChecked(Ok(user)));
        assert_eq!(state, PasswordChangeState::AwaitingStore);
        assert!(matches!(action, PasswordChangeAction::StorePassword(id, ref p) if id == user && *p == new_password));
    }
}

#[test]
fn changing_password_works() {
    let user = Uuid::from_u128(42);
    let old_hash = compute_password_hash("the-old-password").unwrap();
    let new_password = Uuid::from_u128(99).to_string();
    let f = form("the-old-password", &new_password, &new_password);
    up_to_credential_check(&f, user);
    let checked = validate_credentials(
        &Credentials { username: "alice".to_string(), password: f.current_password.clone() },
        Ok(Some((user, old_hash))),
    );
    let (state, action) = change_password(&f, user, PasswordChangeEvent::CredentialsChecked(checked));
    let stored_hash = match action {
        PasswordChangeAction::StorePassword(id, p) => {
            assert_eq!(id, user);
            compute_password_hash(&p).unwrap()
        }
        _ => panic!("expected the new password to be stored"),
    };
    let (state, action) = change_password(&f, user, PasswordChangeEvent::PasswordStored(Ok(())));
    assert_eq!(state, PasswordChangeState::Done);
    assert_redirect_with(&action, Notice::PasswordChanged);
    assert!(!Notice::PasswordChanged.is_error());
    assert!(form_page_after(Notice::PasswordChanged).contains("<p><i>Your password has been changed.</i></p>"));

    // Log out.
    let (update, notice, reply) = log_out(Ok(Some(user)));
    assert_eq!(reply, Reply::SeeOther(Location::Login));
    assert_eq!(apply(Some(user), update), None);
    let login_page_flash = flash_messages_html(&vec![notice.unwrap().text().to_string()]);
    assert!(login_page_flash.contains("<p><i>You have successfully logged out.</i></p>"));

    // Log in with the new password: it works, and the old one no longer does.
    let (update, notice, reply) = run_login("alice", &new_password, Ok(Some((user, stored_hash.clone()))));
    assert_eq!(reply, Reply::SeeOther(Location::AdminDashboard));
    assert_eq!(Location::AdminDashboard.path(), "/admin/dashboard");
    assert!(notice.is_none());
    assert_eq!(apply(None, update), Some(user));
    let login_old = Credentials { username: "alice".to_string(), password: "the-old-password".to_string() };
    assert!(matches!(
        validate_credentials(&login_old, Ok(Some((user, stored_hash)))),
        Err(AuthError::InvalidCredentials(_))
    ));
}

#[test]
fn password_change_failures_answer_500() {
    let user = Uuid::from_u128(42);
    let f = form("current", "new-password-1234", "new-password-1234");
    let (state, _) = change_password(&f, user, PasswordChangeEvent::Submitted);
    let (_, action) = change_password(&f, user, PasswordChangeEvent::UsernameFetched(Err("db down".to_string())));
    assert!(matches!(action, PasswordChangeAction::Respond(None, Reply::ServerError(ref c)) if c == "db down"));

    up_to_credential_check(&f, user);
    let (_, action) = change_password(&f, user, PasswordChangeEvent::CredentialsChecked(Err(AuthError::UnexpectedError("bad hash".to_string()))),
    );
    assert!(matches!(action, PasswordChangeAction::Respond(None, Reply::ServerError(ref c)) if c == "bad hash"));

    up_to_credential_check(&f, user);
    let (state, _) = change_password(&f, user, PasswordChangeEvent::CredentialsChecked(Ok(user)));
    let (state, action) = change_password(&f, user, PasswordChangeEvent::PasswordStored(Err("update failed".to_string())));
    assert_eq!(state, PasswordChangeState::Done);
    match action {
        PasswordChangeAction::Respond(None, reply) => assert_eq!(reply.status_code(), 500),
        _ => panic!("expected a 500"),
    }
}

#[test]
fn admin_dashboard_requires_authentication() {
    let (state, action) = admin_dashboard(DashboardEvent::SessionRead(Ok(None)));
    assert_eq!(state, DashboardState::Done);
    match action {
        DashboardAction::Respond(reply) => {
            assert_eq!(reply, Reply::SeeOther(Location::Login));
            assert_eq!(reply.status_code(), 303);
            assert_eq!(Location::Login.path(), "/login");
        }
        _ => panic!("expected a redirect"),
    }
}

#[test]
fn logout_clears_session_state() {
    let user = Uuid::from_u128(5);
    let hash = compute_password_hash("alice-password-1").unwrap();

    // Part 1: log in.
    let (update, _, reply) = run_login("alice", "alice-password-1", Ok(Some((user, hash))));
    assert_eq!(reply, Reply::SeeOther(Location::AdminDashboard));
    let session = apply(None, update);

    // Part 2: follow the redirect.
    let html = match dashboard_for(session, "alice") {
        Reply::Page(page) => page.render(),
        _ => panic!("expected the dashboard"),
    };
    assert!(html.contains(&format!("Welcome {}!", "alice")));

    // Part 3: log out.
    let (update, notice, reply) = log_out(Ok(session));
    assert_eq!(reply, Reply::SeeOther(Location::Login));
    assert_eq!(Location::Login.path(), "/login");
    let session = apply(session, update);

    // Part 4: the login page shows the notice.
    let notice = notice.unwrap();
    assert!(!notice.is_error());
    let html = flash_messages_html(&vec![notice.text().to_string()]);
    assert!(html.contains(r#"<p><i>You have successfully logged out.</i></p>"#));

    // Part 5: the dashboard is out of reach again.
    assert_eq!(dashboard_for(session, "alice"), Reply::SeeOther(Location::Login));
}

#[test]
fn an_error_flash_message_is_set_on_failure() {
    let (update, notice, reply) = run_login("random-user", "random-password", Ok(None));
    assert_eq!(reply, Reply::SeeOther(Location::Login));
    assert_eq!(update, SessionUpdate::Unchanged);
    let notice = notice.unwrap();
    assert!(notice.is_error());
    assert_eq!(notice.text(), "Authentication failed");
    let html = flash_messages_html(&vec![notice.text().to_string()]);
    assert!(html.contains(r#"<p><i>Authentication failed</i></p>"#));
}

#[test]
fn a_wrong_password_fails_to_log_in() {
    let user = Uuid::from_u128(5);
    let hash = compute_password_hash("alice-password-1").unwrap();
    let (update, notice, reply) = run_login("alice", "not-her-password", Ok(Some((user, hash))));
    assert_eq!(reply, Reply::SeeOther(Location::Login));
    assert_eq!(update, SessionUpdate::Unchanged);
    assert_eq!(notice, Some(Notice::AuthenticationFailed));
}

#[test]
fn a_failed_lookup_during_login_answers_500() {
    let (update, notice, reply) = run_login("alice", "pw", Err("db down".to_string()));
    assert_eq!(update, SessionUpdate::Unchanged);
    assert!(notice.is_none());
    assert_eq!(reply, Reply::ServerError("db down".to_string()));
}

#[test]
fn logging_out_without_a_session_redirects_to_login() {
    let (update, notice, reply) = log_out(Ok(None));
    assert_eq!(update, SessionUpdate::Unchanged);
    assert!(notice.is_none());
    assert_eq!(reply, Reply::SeeOther(Location::Login));
}

#[test]
fn dashboard_failures_answer_500() {
    let (_, action) = admin_dashboard(DashboardEvent::SessionRead(Err("cookie".to_string())));
    assert!(matches!(action, DashboardAction::Respond(Reply::ServerError(ref c)) if c == "cookie"));
    let (_, action) = admin_dashboard(DashboardEvent::UsernameFetched(Err("db".to_string())));
    assert!(matches!(action, DashboardAction::Respond(Reply::ServerError(ref c)) if c == "db"));
}

#[test]
fn you_must_be_logged_in_to_see_the_change_password_form() {
    let reply = change_password_form(Ok(None), vec![]);
    assert_eq!(reply, Reply::SeeOther(Location::Login));
}

#[test]
fn the_change_password_form_is_served_to_a_logged_in_user() {
    let reply = change_password_form(Ok(Some(Uuid::from_u128(1))), vec![]);
    assert_eq!(reply, Reply::Page(Page::ChangePasswordForm(vec![])));
    let html = Page::ChangePasswordForm(vec![]).render();
    assert!(html.contains(r#"<form action="/admin/password" method="post">"#));
    assert!(html.contains(r#"name="current_password""#));
    assert!(html.contains(r#"name="new_password_check""#));
    assert!(!html.contains("<p><i>"));
    assert_eq!(change_password_form(Err("session".to_string()), vec![]).status_code(), 500);
}

#[test]
fn an_unknown_token_is_unauthorized() {
    let p = Parameters { subscription_token: "abc123".to_string() };
    let (state, action) = confirm(&p, ConfirmEvent::Requested);
    assert_eq!(state, ConfirmState::AwaitingLookup);
    assert!(matches!(action, ConfirmAction::LookUpToken(ref t) if t == "abc123"));
    let (state, action) = confirm(&p, ConfirmEvent::TokenLookedUp(Ok(None)));
    assert_eq!(state, ConfirmState::Done);
    match action {
        ConfirmAction::Respond(Err(e)) => {
            assert!(matches!(e, ConfirmError::UnknownToken));
            assert_eq!(e.status_code(), 401);
        }
        _ => panic!("expected an error"),
    }
}

#[test]
fn a_known_token_confirms_its_subscriber() {
    let p = Parameters { subscription_token: "abc123".to_string() };
    let id = Uuid::from_u128(77);
    let (state, _) = confirm(&p, ConfirmEvent::Requested);
    assert_eq!(state, ConfirmState::AwaitingLookup);
    let (state, action) = confirm(&p, ConfirmEvent::TokenLookedUp(Ok(Some(id))));
    assert_eq!(state, ConfirmState::AwaitingUpdate);
    assert!(matches!(action, ConfirmAction::MarkConfirmed(x) if x == id));
    let (state, action) = confirm(&p, ConfirmEvent::SubscriberMarked(Ok(())));
    assert_eq!(state, ConfirmState::Done);
    match action {
        ConfirmAction::Respond(Ok(reply)) => assert_eq!(reply.status_code(), 200),
        _ => panic!("expected 200"),
    }
}

#[test]
fn confirmation_failures_answer_500() {
    let p = Parameters { subscription_token: "t".to_string() };
    let (_, action) = confirm(&p, ConfirmEvent::TokenLookedUp(Err("db".to_string())));
    match action {
        ConfirmAction::Respond(Err(e)) => {
            assert_eq!(e.status_code(), 500);
            match e {
                ConfirmError::UnexpectedError(stage, cause) => {
                    assert_eq!(stage, ConfirmStage::TokenLookup);
                    assert_eq!(stage.message(), "Failed to retrieve subscriber id associated with the provided token.");
                    assert_eq!(cause, "db");
                }
                _ => panic!("expected an unexpected error"),
            }
        }
        _ => panic!("expected an error"),
    }
    let (_, action) = confirm(&p, ConfirmEvent::SubscriberMarked(Err("db".to_string())));
    match action {
        ConfirmAction::Respond(Err(ConfirmError::UnexpectedError(stage, _))) => {
            assert_eq!(stage, ConfirmStage::StatusUpdate);
            assert_eq!(stage.message(), "Failed to update status to `confirmed`.");
        }
        _ => panic!("expected an unexpected error"),
    }
}

#[test]
fn flash_messages_become_paragraphs() {
    let messages = vec!["First".to_string(), "Second".to_string()];
    assert_eq!(flash_messages_html(&messages), "<p><i>First</i></p>\n<p><i>Second</i></p>\n");
    assert_eq!(flash_messages_html(&Vec::new()), "");
}

#[test]
fn the_publication_form_carries_messages_and_key() {
    let messages = vec!["Published".to_string()];
    let html = newsletter_form_with_key(&messages, "key-123");
    assert!(html.contains("<p><i>Published</i></p>"));
    assert!(html.contains(r#"<input type="hidden" name="idempotency_key" value="key-123">"#));
    let html = publish_newsletter_form(&messages).unwrap();
    assert!(html.contains("<p><i>Published</i></p>"));
    let start = html.find(r#"name="idempotency_key" value=""#).unwrap() + r#"name="idempotency_key" value=""#.len();
    let key = &html[start..start + 36];
    assert!(Uuid::parse_str(key).is_ok());
    assert!(IdempotencyKey::try_from(key.to_string()).is_ok());
    // Two forms get two different keys.
    assert_ne!(publish_newsletter_form(&messages).unwrap(), html);
}

#[test]
fn the_plain_publication_form() {
    let html = newsletters::publish_newsletter_form();
    assert!(html.contains(r#"<form action="/newsletters" method="post">"#));
    assert!(!html.contains("idempotency_key"));
}

#[test]
fn the_form_key_is_the_uuid_of_the_given_bytes() {
    let html = newsletter_form_for_bytes(&vec![], [0u8; 16]);
    assert!(html.contains(r#"value="00000000-0000-4000-8000-000000000000""#));
    assert!(IdempotencyKey::try_from("00000000-0000-4000-8000-000000000000".to_string()).is_ok());
}

#[test]
fn the_admin_area_admits_only_logged_in_users() {
    let user = Uuid::from_u128(9);
    assert_eq!(admit_to_admin_area(Ok(Some(user))), Ok(user));
    assert_eq!(admit_to_admin_area(Ok(None)), Err(Reply::SeeOther(Location::Login)));
    assert_eq!(admit_to_admin_area(Err("cookie".to_string())), Err(Reply::ServerError("cookie".to_string())));
}
