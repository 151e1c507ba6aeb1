//! The closed taxonomy of errors that the client shows to its user.

use vstd::prelude::*;
use vstd::string::*;

use crate::text::debug_quoted;
use crate::text::debug_text;

verus! {

/// The body of a structured error answer of the backend.
#[derive(Debug, Clone)]
pub struct BackendError {
    pub message: String,
}

/// Why a password could not be changed.
#[derive(Debug, Clone)]
pub enum PasswordChangeError {
    CurrentPasswordIncorrect,
    NewPasswordInvalid(String),
    NetworkError(String),
    ServerError(String),
    Unknown(String),
}

/// What a `PasswordChangeError` holds.
pub enum PasswordChangeErrorView {
    CurrentPasswordIncorrect,
    NewPasswordInvalid(Seq<char>),
    NetworkError(Seq<char>),
    ServerError(Seq<char>),
    Unknown(Seq<char>),
}

impl View for PasswordChangeError {
    type V = PasswordChangeErrorView;

    open spec fn view(&self) -> PasswordChangeErrorView {
        match self {
            PasswordChangeError::CurrentPasswordIncorrect => {
                PasswordChangeErrorView::CurrentPasswordIncorrect
            },
            PasswordChangeError::NewPasswordInvalid(m) => PasswordChangeErrorView::NewPasswordInvalid(
                m@,
            ),
            PasswordChangeError::NetworkError(m) => PasswordChangeErrorView::NetworkError(m@),
            PasswordChangeError::ServerError(m) => PasswordChangeErrorView::ServerError(m@),
            PasswordChangeError::Unknown(m) => PasswordChangeErrorView::Unknown(m@),
        }
    }
}

impl DeepView for PasswordChangeError {
    type V = PasswordChangeErrorView;

    open spec fn deep_view(&self) -> PasswordChangeErrorView {
        self@
    }
}

/// Why the dashboard could not do what it was asked.
#[derive(Debug, Clone)]
pub enum DashboardError {
    StudentNotFound,
    PaymentDataNotLoaded,
    PasswordChange(PasswordChangeError),
}

/// What a `DashboardError` holds.
pub enum DashboardErrorView {
    StudentNotFound,
    PaymentDataNotLoaded,
    PasswordChange(PasswordChangeErrorView),
}

impl View for DashboardError {
    type V = DashboardErrorView;

    open spec fn view(&self) -> DashboardErrorView {
        match self {
            DashboardError::StudentNotFound => DashboardErrorView::StudentNotFound,
            DashboardError::PaymentDataNotLoaded => DashboardErrorView::PaymentDataNotLoaded,
            DashboardError::PasswordChange(e) => DashboardErrorView::PasswordChange(e@),
        }
    }
}

impl DeepView for DashboardError {
    type V = DashboardErrorView;

    open spec fn deep_view(&self) -> DashboardErrorView {
        self@
    }
}

/// Why a login failed.
#[derive(Debug, Clone)]
pub enum LoginError {
    UserNotFound(String),
    InvalidCredentials(String),
    NetworkIssue(String),
    ServerError(String),
}

/// What a `LoginError` holds.
pub enum LoginErrorView {
    UserNotFound(Seq<char>),
    InvalidCredentials(Seq<char>),
    NetworkIssue(Seq<char>),
    ServerError(Seq<char>),
}

impl View for LoginError {
    type V = LoginErrorView;

    open spec fn view(&self) -> LoginErrorView {
        match self {
            LoginError::UserNotFound(m) => LoginErrorView::UserNotFound(m@),
            LoginError::InvalidCredentials(m) => LoginErrorView::InvalidCredentials(m@),
            LoginError::NetworkIssue(m) => LoginErrorView::NetworkIssue(m@),
            LoginError::ServerError(m) => LoginErrorView::ServerError(m@),
        }
    }
}

impl DeepView for LoginError {
    type V = LoginErrorView;

    open spec fn deep_view(&self) -> LoginErrorView {
        self@
    }
}

/// Any error of the client.
#[derive(Debug, Clone)]
pub enum AppError {
    Login(LoginError),
    Dashboard(DashboardError),
    Configuration(String),
    NetworkIssue(String),
    SerializationError(String),
    BackendError(String),
    IoError(String),
}

/// What an `AppError` holds.
pub enum AppErrorView {
    Login(LoginErrorView),
    Dashboard(DashboardErrorView),
    Configuration(Seq<char>),
    NetworkIssue(Seq<char>),
    SerializationError(Seq<char>),
    BackendError(Seq<char>),
    IoError(Seq<char>),
}

impl View for AppError {
    type V = AppErrorView;

    open spec fn view(&self) -> AppErrorView {
        match self {
            AppError::Login(e) => AppErrorView::Login(e@),
            AppError::Dashboard(e) => AppErrorView::Dashboard(e@),
            AppError::Configuration(m) => AppErrorView::Configuration(m@),
            AppError::NetworkIssue(m) => AppErrorView::NetworkIssue(m@),
            AppError::SerializationError(m) => AppErrorView::SerializationError(m@),
            AppError::BackendError(m) => AppErrorView::BackendError(m@),
            AppError::IoError(m) => AppErrorView::IoError(m@),
        }
    }
}

impl DeepView for AppError {
    type V = AppErrorView;

    open spec fn deep_view(&self) -> AppErrorView {
        self@
    }
}

/// The sentence that a password-change error is shown as.
pub open spec fn password_change_error_text(e: PasswordChangeErrorView) -> Seq<char> {
    match e {
        PasswordChangeErrorView::CurrentPasswordIncorrect => "Current password incorrect."@,
        PasswordChangeErrorView::NewPasswordInvalid(m) => "New password invalid: "@ + m,
        PasswordChangeErrorView::NetworkError(m) => "Network error: "@ + m,
        PasswordChangeErrorView::ServerError(m) => "Server error: "@ + m,
        PasswordChangeErrorView::Unknown(m) => "Unknown error: "@ + m,
    }
}

/// The structural form of a password-change error: the variant's name and,
/// in brackets, its message in quotes.
pub open spec fn password_change_error_debug(e: PasswordChangeErrorView) -> Seq<char> {
    match e {
        PasswordChangeErrorView::CurrentPasswordIncorrect => "CurrentPasswordIncorrect"@,
        PasswordChangeErrorView::NewPasswordInvalid(m) => "NewPasswordInvalid("@ + debug_quoted(m)
            + ")"@,
        PasswordChangeErrorView::NetworkError(m) => "NetworkError("@ + debug_quoted(m) + ")"@,
        PasswordChangeErrorView::ServerError(m) => "ServerError("@ + debug_quoted(m) + ")"@,
        PasswordChangeErrorView::Unknown(m) => "Unknown("@ + debug_quoted(m) + ")"@,
    }
}

/// The sentence that a dashboard error is shown as.
pub open spec fn dashboard_error_text(e: DashboardErrorView) -> Seq<char> {
    match e {
        DashboardErrorView::StudentNotFound => "Student not found."@,
        DashboardErrorView::PaymentDataNotLoaded => "Payment data could not be loaded."@,
        DashboardErrorView::PasswordChange(inner) => "Password change error: "@
            + password_change_error_text(inner),
    }
}

/// The structural form of a dashboard error.
pub open spec fn dashboard_error_debug(e: DashboardErrorView) -> Seq<char> {
    match e {
        DashboardErrorView::StudentNotFound => "StudentNotFound"@,
        DashboardErrorView::PaymentDataNotLoaded => "PaymentDataNotLoaded"@,
        DashboardErrorView::PasswordChange(inner) => "PasswordChange("@
            + password_change_error_debug(inner) + ")"@,
    }
}

/// The sentence that a login error is shown as.
pub open spec fn login_error_text(e: LoginErrorView) -> Seq<char> {
    match e {
        LoginErrorView::UserNotFound(m) => "User not found: "@ + m,
        LoginErrorView::InvalidCredentials(m) => "Invalid credentials: "@ + m,
        LoginErrorView::NetworkIssue(m) => "Network problem: "@ + m,
        LoginErrorView::ServerError(m) => "Server error: "@ + m,
    }
}

/// The sentence that an error is shown as. A dashboard error appears in its
/// structural form.
pub open spec fn app_error_text(e: AppErrorView) -> Seq<char> {
    match e {
        AppErrorView::Login(inner) => "Login Error: "@ + login_error_text(inner),
        AppErrorView::Dashboard(inner) => "Dashboard Error: "@ + dashboard_error_debug(inner),
        AppErrorView::Configuration(m) => "Configuration Error: "@ + m,
        AppErrorView::NetworkIssue(m) => "Network Issue: "@ + m,
        AppErrorView::SerializationError(m) => "Serialization Error: "@ + m,
        AppErrorView::BackendError(m) => "Backend API Error: "@ + m,
        AppErrorView::IoError(m) => "IO Error: "@ + m,
    }
}

/// `label`, then `body` in round brackets.
fn bracketed(label: &str, body: &str) -> (out: String)
    ensures
        out@ == label@ + body@ + ")"@,
{
    let mut out = String::from_str(label);
    out.append(body);
    out.append(")");
    out
}

impl PasswordChangeError {
    /// The sentence that the error is shown as.
    pub fn to_string(&self) -> (text: String)
        ensures
            text@ == password_change_error_text(self@),
    {
        match self {
            PasswordChangeError::CurrentPasswordIncorrect => String::from_str(
                "Current password incorrect.",
            ),
            PasswordChangeError::NewPasswordInvalid(m) => String::from_str(
                "New password invalid: ",
            ).concat(m.as_str()),
            PasswordChangeError::NetworkError(m) => String::from_str("Network error: ").concat(
                m.as_str(),
            ),
            PasswordChangeError::ServerError(m) => String::from_str("Server error: ").concat(
                m.as_str(),
            ),
            PasswordChangeError::Unknown(m) => String::from_str("Unknown error: ").concat(
                m.as_str(),
            ),
        }
    }

    /// The structural form of the error.
    pub fn to_debug_string(&self) -> (text: String)
        ensures
            text@ == password_change_error_debug(self@),
    {
        match self {
            PasswordChangeError::CurrentPasswordIncorrect => String::from_str(
                "CurrentPasswordIncorrect",
            ),
            PasswordChangeError::NewPasswordInvalid(m) => bracketed(
                "NewPasswordInvalid(",
                debug_text(m.as_str()).as_str(),
            ),
            PasswordChangeError::NetworkError(m) => bracketed(
                "NetworkError(",
                debug_text(m.as_str()).as_str(),
            ),
            PasswordChangeError::ServerError(m) => bracketed(
                "ServerError(",
                debug_text(m.as_str()).as_str(),
            ),
            PasswordChangeError::Unknown(m) => bracketed(
                "Unknown(",
                debug_text(m.as_str()).as_str(),
            ),
        }
    }
}

impl DashboardError {
    /// The sentence that the error is shown as.
    pub fn to_string(&self) -> (text: String)
        ensures
            text@ == dashboard_error_text(self@),
    {
        match self {
            DashboardError::StudentNotFound => String::from_str("Student not found."),
            DashboardError::PaymentDataNotLoaded => String::from_str(
                "Payment data could not be loaded.",
            ),
            DashboardError::PasswordChange(e) => String::from_str(
                "Password change error: ",
            ).concat(e.to_string().as_str()),
        }
    }

    /// The structural form of the error.
    pub fn to_debug_string(&self) -> (text: String)
        ensures
            text@ == dashboard_error_debug(self@),
    {
        match self {
            DashboardError::StudentNotFound => String::from_str("StudentNotFound"),
            DashboardError::PaymentDataNotLoaded => String::from_str("PaymentDataNotLoaded"),
            DashboardError::PasswordChange(e) => bracketed(
                "PasswordChange(",
                e.to_debug_string().as_str(),
            ),
        }
    }
}

impl LoginError {
    /// The sentence that the error is shown as.
    pub fn to_string(&self) -> (text: String)
        ensures
            text@ == login_error_text(self@),
    {
        match self {
            LoginError::UserNotFound(m) => String::from_str("User not found: ").concat(m.as_str()),
            LoginError::InvalidCredentials(m) => String::from_str("Invalid credentials: ").concat(
                m.as_str(),
            ),
            LoginError::NetworkIssue(m) => String::from_str("Network problem: ").concat(
                m.as_str(),
            ),
            LoginError::ServerError(m) => String::from_str("Server error: ").concat(m.as_str()),
        }
    }
}

impl AppError {
    /// The sentence that the error is shown as.
    pub fn to_string(&self) -> (text: String)
        ensures
            text@ == app_error_text(self@),
    {
        match self {
            AppError::Login(e) => String::from_str("Login Error: ").concat(e.to_string().as_str()),
            AppError::Dashboard(e) => String::from_str("Dashboard Error: ").concat(
                e.to_debug_string().as_str(),
            ),
            AppError::Configuration(m) => String::from_str("Configuration Error: ").concat(
                m.as_str(),
            ),
            AppError::NetworkIssue(m) => String::from_str("Network Issue: ").concat(m.as_str()),
            AppError::SerializationError(m) => String::from_str("Serialization Error: ").concat(
                m.as_str(),
            ),
            AppError::BackendError(m) => String::from_str("Backend API Error: ").concat(
                m.as_str(),
            ),
            AppError::IoError(m) => String::from_str("IO Error: ").concat(m.as_str()),
        }
    }
}

impl From<BackendError> for AppError {
    fn from(err: BackendError) -> (e: AppError) {
        AppError::BackendError(err.message)
    }
}

impl vstd::std_specs::convert::FromSpecImpl<BackendError> for AppError {
    open spec fn obeys_from_spec() -> bool {
        true
    }

    open spec fn from_spec(err: BackendError) -> AppError {
        AppError::BackendError(err.message)
    }
}

impl From<LoginError> for AppError {
    fn from(e: LoginError) -> (err: AppError) {
        AppError::Login(e)
    }
}

impl vstd::std_specs::convert::FromSpecImpl<LoginError> for AppError {
    open spec fn obeys_from_spec() -> bool {
        true
    }

    open spec fn from_spec(e: LoginError) -> AppError {
        AppError::Login(e)
    }
}

impl From<DashboardError> for AppError {
    fn from(e: DashboardError) -> (err: AppError) {
        AppError::Dashboard(e)
    }
}

impl vstd::std_specs::convert::FromSpecImpl<DashboardError> for AppError {
    open spec fn obeys_from_spec() -> bool {
        true
    }

    open spec fn from_spec(e: DashboardError) -> AppError {
        AppError::Dashboard(e)
    }
}

} // verus!
