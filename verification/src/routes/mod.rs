//! The decisions of the HTTP handlers, one module per handler.

pub mod admin_dashboard;
pub mod admin_access;
pub mod admin_newsletters;
pub mod change_password;
pub mod change_password_form;
pub mod login;
pub mod logout;
pub mod newsletters;
pub mod subscriptions_confirm;
