//! The login screen: two inputs, the last error, and whether a login is
//! under way.

use vstd::prelude::*;

use crate::error::LoginError;
use crate::error::LoginErrorView;

verus! {

/// What can be said to the login screen.
#[derive(Debug, Clone)]
pub enum LoginMessage {
    AttemptLogin,
    UsernameInputChanged(String),
    PasswordInputChanged(String),
}

/// The state of the login screen.
#[derive(Debug)]
pub struct LoginState {
    pub username_input: String,
    pub password_input: String,
    pub error: Option<LoginError>,
    pub is_authenticating: bool,
}

/// What a `LoginState` holds.
pub struct LoginStateView {
    pub username_input: Seq<char>,
    pub password_input: Seq<char>,
    pub error: Option<LoginErrorView>,
    pub is_authenticating: bool,
}

impl View for LoginState {
    type V = LoginStateView;

    open spec fn view(&self) -> LoginStateView {
        LoginStateView {
            username_input: self.username_input@,
            password_input: self.password_input@,
            error: self.error.deep_view(),
            is_authenticating: self.is_authenticating,
        }
    }
}

impl LoginStateView {
    /// Empty inputs, no error, no login under way.
    pub open spec fn initial() -> LoginStateView {
        LoginStateView {
            username_input: Seq::empty(),
            password_input: Seq::empty(),
            error: None,
            is_authenticating: false,
        }
    }
}

impl LoginState {
    /// A fresh login screen.
    pub fn new() -> (state: LoginState)
        ensures
            state@ == LoginStateView::initial(),
    {
        LoginState {
            username_input: String::new(),
            password_input: String::new(),
            error: None,
            is_authenticating: false,
        }
    }
}

/// The login screen after a message, and the credentials to try where the
/// message asks for a login: `AttemptLogin` marks a login as under way,
/// drops the earlier error and hands out the two inputs.
pub open spec fn login_step(s: LoginStateView, message: LoginMessage) -> (
    LoginStateView,
    Option<(Seq<char>, Seq<char>)>,
) {
    match message {
        LoginMessage::UsernameInputChanged(username) => (
            LoginStateView { username_input: username@, ..s },
            None,
        ),
        LoginMessage::PasswordInputChanged(password) => (
            LoginStateView { password_input: password@, ..s },
            None,
        ),
        LoginMessage::AttemptLogin => (
            LoginStateView { is_authenticating: true, error: None, ..s },
            Some((s.username_input, s.password_input)),
        ),
    }
}

impl LoginState {
    /// Applies a message as `login_step` says; returns the username and the
    /// password to try where the message asks for a login.
    pub fn update(&mut self, message: LoginMessage) -> (credentials: Option<(String, String)>)
        ensures
            final(self)@ == login_step(old(self)@, message).0,
            credentials.deep_view() == login_step(old(self)@, message).1,
    {
        match message {
            LoginMessage::UsernameInputChanged(username) => {
                self.username_input = username;
                None
            },
            LoginMessage::PasswordInputChanged(password) => {
                self.password_input = password;
                None
            },
            LoginMessage::AttemptLogin => {
                self.is_authenticating = true;
                self.error = None;
                Some((self.username_input.clone(), self.password_input.clone()))
            },
        }
    }
}

} // verus!
