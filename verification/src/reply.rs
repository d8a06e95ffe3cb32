//! What a handler answers: redirects, pages, failures, and the flash notices sent with them.
use vstd::prelude::*;

verus! {

/// The places a handler redirects to.
#[derive(Debug, Clone, Copy, PartialEq, Eq, Structural)]
pub enum Location {
    /// `/login`
    Login,
    /// `/`
    Home,
    /// `/admin/password`
    AdminPassword,
    /// `/admin/dashboard`
    AdminDashboard,
}

/// The path of a location.
pub open spec fn location_path(l: Location) -> Seq<char> {
    match l {
        Location::Login => "/login"@,
        Location::Home => "/"@,
        Location::AdminPassword => "/admin/password"@,
        Location::AdminDashboard => "/admin/dashboard"@,
    }
}

impl Location {
    /// The path sent in the `LOCATION` header.
    pub fn path(&self) -> (r: &'static str)
        ensures
            r@ == location_path(*self),
    {
        match self {
            Location::Login => "/login",
            Location::Home => "/",
            Location::AdminPassword => "/admin/password",
            Location::AdminDashboard => "/admin/dashboard",
        }
    }
}

/// The HTML pages the admin handlers serve.
#[derive(Debug, Clone, PartialEq, Eq)]
pub enum Page {
    /// The admin dashboard, greeting the named user.
    AdminDashboard(String),
    /// The form to change one's password, showing the flash messages.
    ChangePasswordForm(Vec<String>),
}

/// The dashboard page up to the greeting.
pub open spec fn dashboard_head() -> Seq<char> {
    "\n<html lang=\"en\">\n<head>\n    <meta http-equiv=\"content-type\" content=\"text/html; charset=utf-8\">\n    <title>Admin Dashboard</title>\n</head>\n<body>\n    <h1>"@
}

/// The dashboard page after the greeting.
pub open spec fn dashboard_tail() -> Seq<char> {
    "</h1>\n    <p>Available actions:</p>\n    <ol>\n        <li><a href=\"/admin/password\">Change password</a></li>\n        <li>\n            <form action=\"/admin/logout\" method=\"post\">\n                <button type=\"submit\">Logout</button>\n            </form>\n        </li>\n    </ol>\n</body>\n</html>\n    "@
}

/// The greeting of the dashboard for `username`.
pub open spec fn welcome(username: Seq<char>) -> Seq<char> {
    "Welcome "@ + username + "!"@
}

/// The dashboard page for `username`.
pub open spec fn dashboard_html(username: Seq<char>) -> Seq<char> {
    dashboard_head() + welcome(username) + dashboard_tail()
}

/// One flash message as an HTML paragraph.
pub open spec fn flash_paragraph(message: Seq<char>) -> Seq<char> {
    "<p><i>"@ + message + "</i></p>\n"@
}

/// The HTML that lists flash messages, one paragraph each, in order.
pub open spec fn flash_html(messages: Seq<Seq<char>>) -> Seq<char>
    decreases messages.len(),
{
    if messages.len() == 0 {
        Seq::empty()
    } else {
        flash_html(messages.drop_last()) + flash_paragraph(messages.last())
    }
}

/// The characters of each message.
pub open spec fn message_views(messages: Seq<String>) -> Seq<Seq<char>> {
    messages.map_values(|m: String| m@)
}

/// Listing two runs of messages one after the other lists each in turn.
pub proof fn lemma_flash_html_concat(a: Seq<Seq<char>>, b: Seq<Seq<char>>)
    ensures
        flash_html(a + b) == flash_html(a) + flash_html(b),
    decreases b.len(),
{
    if b.len() == 0 {
        assert(a + b =~= a);
    } else {
        lemma_flash_html_concat(a, b.drop_last());
        assert((a + b).drop_last() =~= a + b.drop_last());
        assert((a + b).last() == b.last());
    }
}

/// Every flash message shows in the list as its own paragraph, after those
/// of the messages before it.
pub proof fn lemma_flash_html_shows_message(messages: Seq<Seq<char>>, i: int)
    requires
        0 <= i < messages.len(),
    ensures
        ({
            let start = flash_html(messages.take(i)).len() as int;
            &&& start + flash_paragraph(messages[i]).len() <= flash_html(messages).len()
            &&& flash_html(messages).subrange(start, start + flash_paragraph(messages[i]).len())
                == flash_paragraph(messages[i])
        }),
{
    let before = messages.take(i);
    let one = seq![messages[i]];
    let after = messages.skip(i + 1);
    assert(messages =~= before + one + after);
    lemma_flash_html_concat(before + one, after);
    lemma_flash_html_concat(before, one);
    assert(one.drop_last() =~= Seq::<Seq<char>>::empty());
    assert(flash_html(one.drop_last()) =~= Seq::<char>::empty());
    assert(flash_html(one) =~= flash_paragraph(messages[i]));
    let start = flash_html(before).len() as int;
    assert(flash_html(messages).subrange(start, start + flash_paragraph(messages[i]).len())
        =~= flash_paragraph(messages[i]));
}

/// Lists the flash messages as HTML paragraphs.
pub fn flash_messages_html(messages: &Vec<String>) -> (r: String)
    ensures
        r@ == flash_html(message_views(messages@)),
{
    let mut html = String::new();
    let mut i: usize = 0;
    while i < messages.len()
        invariant
            i <= messages.len(),
            html@ == flash_html(message_views(messages@).take(i as int)),
        decreases messages.len() - i,
    {
        let ghost views = message_views(messages@);
        assert(views.take(i + 1).drop_last() =~= views.take(i as int));
        html.append("<p><i>");
        html.append(messages[i].as_str());
        html.append("</i></p>\n");
        i = i + 1;
    }
    assert(message_views(messages@).take(i as int) =~= message_views(messages@));
    html
}

/// The change-password form up to its flash messages.
pub open spec fn change_password_form_head() -> Seq<char> {
    "\n            <html lang=\"en\">\n            <head>\n                <meta http-equiv=\"content-type\" content=\"text/html; charset=utf-8\">\n                <title>Change password</title>\n            </head>\n            <body>\n"@
}

/// The change-password form after its flash messages.
pub open spec fn change_password_form_tail() -> Seq<char> {
    "                <h1>Change password</h1>\n                <form action=\"/admin/password\" method=\"post\">\n                    <label>Current password\n                        <input type=\"password\" placeholder=\"Enter current password\" name=\"current_password\">\n                    </label>\n                    <br>\n                    <label>New password\n                        <input type=\"password\" placeholder=\"Enter new password\" name=\"new_password\">\n                    </label>\n                    <br>\n                    <label>Confirm new password\n                        <input type=\"password\" placeholder=\"Type the new password again\" name=\"new_password_check\">\n                    </label>\n                    <button type=\"submit\">Change password</button>\n                </form>\n                <p><a href=\"/admin/dashboard\">&lt;- Back</a></p>\n            </body>\n            </html>\n        "@
}

/// The change-password form showing the flash messages `messages`.
pub open spec fn change_password_form_html(messages: Seq<Seq<char>>) -> Seq<char> {
    change_password_form_head() + flash_html(messages) + change_password_form_tail()
}

/// The HTML of a page.
pub open spec fn page_html(p: Page) -> Seq<char> {
    match p {
        Page::AdminDashboard(username) => dashboard_html(username@),
        Page::ChangePasswordForm(messages) => change_password_form_html(message_views(messages@)),
    }
}

impl Page {
    /// Writes the page out as HTML.
    pub fn render(&self) -> (r: String)
        ensures
            r@ == page_html(*self),
    {
        match self {
            Page::AdminDashboard(username) => {
                let mut html = String::from_str("\n<html lang=\"en\">\n<head>\n    <meta http-equiv=\"content-type\" content=\"text/html; charset=utf-8\">\n    <title>Admin Dashboard</title>\n</head>\n<body>\n    <h1>");
                html.append("Welcome ");
                html.append(username.as_str());
                html.append("!");
                html.append("</h1>\n    <p>Available actions:</p>\n    <ol>\n        <li><a href=\"/admin/password\">Change password</a></li>\n        <li>\n            <form action=\"/admin/logout\" method=\"post\">\n                <button type=\"submit\">Logout</button>\n            </form>\n        </li>\n    </ol>\n</body>\n</html>\n    ");
                html
            },
            Page::ChangePasswordForm(messages) => {
                let mut html = String::from_str("\n            <html lang=\"en\">\n            <head>\n                <meta http-equiv=\"content-type\" content=\"text/html; charset=utf-8\">\n                <title>Change password</title>\n            </head>\n            <body>\n");
                let flashes = flash_messages_html(messages);
                html.append(flashes.as_str());
                html.append("                <h1>Change password</h1>\n                <form action=\"/admin/password\" method=\"post\">\n                    <label>Current password\n                        <input type=\"password\" placeholder=\"Enter current password\" name=\"current_password\">\n                    </label>\n                    <br>\n                    <label>New password\n                        <input type=\"password\" placeholder=\"Enter new password\" name=\"new_password\">\n                    </label>\n                    <br>\n                    <label>Confirm new password\n                        <input type=\"password\" placeholder=\"Type the new password again\" name=\"new_password_check\">\n                    </label>\n                    <button type=\"submit\">Change password</button>\n                </form>\n                <p><a href=\"/admin/dashboard\">&lt;- Back</a></p>\n            </body>\n            </html>\n        ");
                html
            },
        }
    }
}

/// What a handler answers.
#[derive(Debug, Clone, PartialEq, Eq)]
pub enum Reply {
    /// `303 See Other`, redirecting to the location.
    SeeOther(Location),
    /// `200 OK` with an HTML page.
    Page(Page),
    /// `200 OK` with an empty body.
    Empty,
    /// `500 Internal Server Error`, with the cause of the failure.
    ServerError(String),
}

/// The status code of a reply.
pub open spec fn reply_status(r: Reply) -> u16 {
    match r {
        Reply::SeeOther(_) => 303,
        Reply::Page(_) => 200,
        Reply::Empty => 200,
        Reply::ServerError(_) => 500,
    }
}

impl Reply {
    /// The HTTP status code of the reply.
    pub fn status_code(&self) -> (r: u16)
        ensures
            r == reply_status(*self),
    {
        match self {
            Reply::SeeOther(_) => 303,
            Reply::Page(_) => 200,
            Reply::Empty => 200,
            Reply::ServerError(_) => 500,
        }
    }
}

/// The flash notices that handlers leave for the next page.
#[derive(Debug, Clone, Copy, PartialEq, Eq, Structural)]
pub enum Notice {
    /// The two new password fields differ.
    PasswordFieldsDiffer,
    /// The current password does not check out.
    CurrentPasswordIncorrect,
    /// The new password is too short or too long.
    NewPasswordLength,
    /// The password was changed.
    PasswordChanged,
    /// The login failed.
    AuthenticationFailed,
    /// The user logged out.
    LoggedOut,
}

/// The text of a notice.
pub open spec fn notice_text(n: Notice) -> Seq<char> {
    match n {
        Notice::PasswordFieldsDiffer => "You entered two different new passwords - the field values must match."@,
        Notice::CurrentPasswordIncorrect => "The current password is incorrect."@,
        Notice::NewPasswordLength => "The new password must be longer than 12 and shorter than 129 characters."@,
        Notice::PasswordChanged => "Your password has been changed."@,
        Notice::AuthenticationFailed => "Authentication failed"@,
        Notice::LoggedOut => "You have successfully logged out."@,
    }
}

/// Whether a notice is sent at the error level (else at the info level).
pub open spec fn notice_is_error(n: Notice) -> bool {
    n != Notice::PasswordChanged && n != Notice::LoggedOut
}

impl Notice {
    /// The text shown to the user.
    pub fn text(&self) -> (r: &'static str)
        ensures
            r@ == notice_text(*self),
    {
        match self {
            Notice::PasswordFieldsDiffer => "You entered two different new passwords - the field values must match.",
            Notice::CurrentPasswordIncorrect => "The current password is incorrect.",
            Notice::NewPasswordLength => "The new password must be longer than 12 and shorter than 129 characters.",
            Notice::PasswordChanged => "Your password has been changed.",
            Notice::AuthenticationFailed => "Authentication failed",
            Notice::LoggedOut => "You have successfully logged out.",
        }
    }

    /// Whether the notice is an error (else it is information).
    pub fn is_error(&self) -> (r: bool)
        ensures
            r == notice_is_error(*self),
    {
        match self {
            Notice::PasswordChanged => false,
            Notice::LoggedOut => false,
            _ => true,
        }
    }
}

/// What a handler does to the session.
#[derive(Debug, Clone, Copy, PartialEq, Eq)]
pub enum SessionUpdate {
    /// Leave the session as it is.
    Unchanged,
    /// Renew the session's key (what it holds is kept) and record the user as logged in.
    LogIn(uuid::Uuid),
    /// Purge the session: nobody is logged in any more.
    LogOut,
}

/// The logged-in user after the update, given the one before.
pub open spec fn session_user_after(before: Option<uuid::Uuid>, update: SessionUpdate) -> Option<uuid::Uuid> {
    match update {
        SessionUpdate::Unchanged => before,
        SessionUpdate::LogIn(user_id) => Some(user_id),
        SessionUpdate::LogOut => None,
    }
}

} // verus!
