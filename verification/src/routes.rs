//! The backend gateway, seen from the dispatch loop: where each request
//! goes, and what each answer of the backend means.

use vstd::prelude::*;
use vstd::string::*;

use crate::error::AppError;
use crate::error::AppErrorView;
use crate::error::BackendError;
use crate::error::LoginError;
use crate::error::LoginErrorView;
use crate::ident::hyphenated;
use crate::ident::id_text;
use crate::models::Student;
use crate::models::UserResponse;

verus! {

/// The status line of an HTTP status code: the code and its canonical
/// reason phrase. `None` for a number that is no status code.
pub uninterp spec fn status_line(code: u16) -> Option<Seq<char>>;

/// `StatusCode::from_u16` of `reqwest`, and the `Display` form of the status
/// it gives: the code, a space, and the canonical reason phrase. A number is
/// a status code exactly if it has three digits.
#[verifier::external_body]
pub(crate) fn status_text(code: u16) -> (line: Option<String>)
    ensures
        line.deep_view() == status_line(code),
        line is Some <==> 100 <= code <= 999,
{
    match reqwest::StatusCode::from_u16(code) {
        Ok(status) => Some(status.to_string()),
        Err(_) => None,
    }
}

/// An HTTP status code: a number of three digits.
#[derive(Debug, Clone, Copy)]
pub struct HttpStatus {
    code: u16,
}

impl HttpStatus {
    /// Status codes have three digits.
    #[verifier::type_invariant]
    pub closed spec fn has_three_digits(self) -> bool {
        100 <= self.code <= 999
    }

    /// The number of the status.
    pub closed spec fn code_spec(self) -> u16 {
        self.code
    }

    /// The status with this number; `None` where the number does not have
    /// three digits.
    pub fn new(code: u16) -> (status: Option<HttpStatus>)
        ensures
            status is Some <==> 100 <= code <= 999,
            status matches Some(s) ==> s.code_spec() == code,
    {
        if 100 <= code && code <= 999 {
            Some(HttpStatus { code })
        } else {
            None
        }
    }

    /// The number of the status.
    pub fn code(&self) -> (code: u16)
        ensures
            code == self.code_spec(),
            100 <= code <= 999,
    {
        proof {
            use_type_invariant(self);
        }
        self.code
    }

    /// Whether the status reports success: 200 to 299.
    pub fn is_success(&self) -> (success: bool)
        ensures
            success == (200 <= self.code_spec() <= 299),
    {
        200 <= self.code && self.code <= 299
    }

    /// The status line: the code and its canonical reason phrase.
    pub fn to_string(&self) -> (line: String)
        ensures
            status_line(self.code_spec()) == Some(line@),
    {
        proof {
            use_type_invariant(self);
        }
        status_text(self.code).unwrap()
    }
}

/// Where the backend is.
#[derive(Debug, Clone)]
pub struct GatewayConfig {
    pub base_url: String,
}

impl GatewayConfig {
    /// The gateway of the backend at `base_url`.
    pub fn new(base_url: String) -> (config: GatewayConfig)
        ensures
            config.base_url == base_url,
    {
        GatewayConfig { base_url }
    }

    /// Where logins are posted.
    pub fn login_url(&self) -> (url: String)
        ensures
            url@ == self.base_url@ + "/login"@,
    {
        self.base_url.clone().concat("/login")
    }

    /// Where students are created, changed and listed.
    pub fn students_url(&self) -> (url: String)
        ensures
            url@ == self.base_url@ + "/students"@,
    {
        self.base_url.clone().concat("/students")
    }

    /// Where the student with this identifier is deleted.
    pub fn student_url(&self, id: u128) -> (url: String)
        ensures
            url@ == self.base_url@ + "/students/"@ + hyphenated(id),
    {
        self.base_url.clone().concat("/students/").concat(id_text(id).as_str())
    }

    /// Where spreadsheets are uploaded.
    pub fn import_url(&self) -> (url: String)
        ensures
            url@ == self.base_url@ + "/students/import"@,
    {
        self.base_url.clone().concat("/students/import")
    }
}

/// The name of the form field that carries an uploaded spreadsheet.
pub fn upload_field_name() -> (name: &'static str)
    ensures
        name@ == "file"@,
{
    "file"
}

/// The media type of a spreadsheet.
pub fn spreadsheet_mime() -> (mime: &'static str)
    ensures
        mime@ == "application/vnd.openxmlformats-officedocument.spreadsheetml.sheet"@,
{
    "application/vnd.openxmlformats-officedocument.spreadsheetml.sheet"
}

/// The file extension to which the file dialogs are filtered.
pub fn spreadsheet_extension() -> (extension: &'static str)
    ensures
        extension@ == "xlsx"@,
{
    "xlsx"
}

/// The file name that the save dialog proposes for the import template.
pub fn template_file_name() -> (name: &'static str)
    ensures
        name@ == "student_import_template.xlsx"@,
{
    "student_import_template.xlsx"
}

/// The name under which a spreadsheet is uploaded: its own file name, or
/// `students.xlsx` where it has none that is text.
pub fn upload_file_name(file_name: Option<String>) -> (name: String)
    ensures
        name@ == match file_name {
            Some(own) => own@,
            None => "students.xlsx"@,
        },
{
    match file_name {
        Some(own) => own,
        None => "students.xlsx".to_string(),
    }
}

/// How the backend answered a login.
#[derive(Debug, Clone)]
pub enum LoginReply {
    /// The request got no answer; the text says why.
    Unreachable(String),
    /// The backend answered with this status; `user` is the record in the
    /// body, where the body holds one.
    Answered { status: HttpStatus, user: Option<UserResponse> },
}

/// How the backend answered a request about students. `T` is what a
/// successful answer carries.
#[derive(Debug, Clone)]
pub enum GatewayReply<T> {
    /// The request got no answer; the text says why.
    Unreachable(String),
    /// The backend reported success; the body as decoded, or the decoder's
    /// complaint.
    Accepted(Result<T, String>),
    /// The backend reported anything else: the text of the body, where it
    /// could be read, and the body as a structured error, where it is one.
    Refused { body: Option<String>, backend: Option<BackendError> },
}

/// What a login reply means: 200 with a user record is the user; 200
/// without one, and any status but 200, 401 and 404, is a server error; 401
/// says that the credentials are wrong and 404 that the user is unknown; no
/// answer is a network issue.
pub open spec fn login_outcome(reply: LoginReply) -> Result<UserResponse, LoginErrorView> {
    match reply {
        LoginReply::Unreachable(why) => Err(
            LoginErrorView::NetworkIssue("Could not connect to the server: "@ + why@),
        ),
        LoginReply::Answered { status, user } => if status.code_spec() == 200 {
            match user {
                Some(record) => Ok(record),
                None => Err(LoginErrorView::ServerError("Failed to parse server response."@)),
            }
        } else if status.code_spec() == 401 {
            Err(LoginErrorView::InvalidCredentials("Incorrect username or password."@))
        } else if status.code_spec() == 404 {
            Err(LoginErrorView::UserNotFound("User with that username does not exist."@))
        } else {
            Err(
                LoginErrorView::ServerError(
                    "Server returned an unexpected status: "@ + status_line(
                        status.code_spec(),
                    ).unwrap(),
                ),
            )
        },
    }
}

/// The text of an error body, or `Unknown error` where it could not be
/// read.
pub open spec fn body_text(body: Option<String>) -> Seq<char> {
    match body {
        Some(text) => text@,
        None => "Unknown error"@,
    }
}

/// What a reply about students means. No answer is a network issue. A
/// success carries its value, or is a serialization error with the
/// decoder's complaint behind `decode_prefix`. Anything else is the
/// backend's structured error where the body is one, and otherwise a
/// network issue with the body's text behind `refusal_prefix`.
pub open spec fn reply_outcome<T>(
    reply: GatewayReply<T>,
    decode_prefix: Seq<char>,
    refusal_prefix: Seq<char>,
) -> Result<T, AppErrorView> {
    match reply {
        GatewayReply::Unreachable(why) => Err(AppErrorView::NetworkIssue(why@)),
        GatewayReply::Accepted(Ok(value)) => Ok(value),
        GatewayReply::Accepted(Err(complaint)) => Err(
            AppErrorView::SerializationError(decode_prefix + complaint@),
        ),
        GatewayReply::Refused { body, backend } => match backend {
            Some(error) => Err(AppErrorView::BackendError(error.message@)),
            None => Err(AppErrorView::NetworkIssue(refusal_prefix + body_text(body))),
        },
    }
}

/// What the reply to an upload means: any success is a success, whatever
/// the body; the rest as for every reply about students.
pub open spec fn upload_outcome(reply: GatewayReply<()>) -> Result<(), AppErrorView> {
    match reply {
        GatewayReply::Accepted(_) => Ok(()),
        _ => reply_outcome(reply, Seq::empty(), "Upload failed: "@),
    }
}

/// What the reply to a deletion means: any success is a success; no answer
/// fails with the reason, anything else with the body's text.
pub open spec fn delete_outcome(reply: GatewayReply<()>) -> Result<(), Seq<char>> {
    match reply {
        GatewayReply::Unreachable(why) => Err(why@),
        GatewayReply::Accepted(_) => Ok(()),
        GatewayReply::Refused { body, backend } => Err(body_text(body)),
    }
}

/// Whether a result is the outcome that a spec function names: the same
/// value, or an error that holds the same.
pub open spec fn is_outcome<T>(result: Result<T, AppError>, outcome: Result<T, AppErrorView>) -> bool {
    match (result, outcome) {
        (Ok(value), Ok(expected)) => value == expected,
        (Err(error), Err(expected)) => error@ == expected,
        _ => false,
    }
}

/// The text of an error body, or `Unknown error` where it could not be
/// read.
fn error_text(body: Option<String>) -> (text: String)
    ensures
        text@ == body_text(body),
{
    match body {
        Some(text) => text,
        None => "Unknown error".to_string(),
    }
}

/// The outcome of a reply about students, with the two prefixes of the
/// request.
fn settle<T>(reply: GatewayReply<T>, decode_prefix: &str, refusal_prefix: &str) -> (result: Result<
    T,
    AppError,
>)
    ensures
        is_outcome(result, reply_outcome(reply, decode_prefix@, refusal_prefix@)),
{
    match reply {
        GatewayReply::Unreachable(why) => Err(AppError::NetworkIssue(why)),
        GatewayReply::Accepted(decoded) => match decoded {
            Ok(value) => Ok(value),
            Err(complaint) => Err(
                AppError::SerializationError(
                    String::from_str(decode_prefix).concat(complaint.as_str()),
                ),
            ),
        },
        GatewayReply::Refused { body, backend } => match backend {
            Some(error) => Err(AppError::BackendError(error.message)),
            None => Err(
                AppError::NetworkIssue(
                    String::from_str(refusal_prefix).concat(error_text(body).as_str()),
                ),
            ),
        },
    }
}

/// The outcome of a login, from the backend's reply.
pub fn login(reply: LoginReply) -> (result: Result<UserResponse, LoginError>)
    ensures
        match (result, login_outcome(reply)) {
            (Ok(user), Ok(expected)) => user == expected,
            (Err(error), Err(expected)) => error@ == expected,
            _ => false,
        },
{
    match reply {
        LoginReply::Unreachable(why) => Err(
            LoginError::NetworkIssue(
                String::from_str("Could not connect to the server: ").concat(why.as_str()),
            ),
        ),
        LoginReply::Answered { status, user } => {
            let code = status.code();
            if code == 200 {
                match user {
                    Some(record) => Ok(record),
                    None => Err(
                        LoginError::ServerError("Failed to parse server response.".to_string()),
                    ),
                }
            } else if code == 401 {
                Err(LoginError::InvalidCredentials("Incorrect username or password.".to_string()))
            } else if code == 404 {
                Err(
                    LoginError::UserNotFound(
                        "User with that username does not exist.".to_string(),
                    ),
                )
            } else {
                Err(
                    LoginError::ServerError(
                        String::from_str("Server returned an unexpected status: ").concat(
                            status.to_string().as_str(),
                        ),
                    ),
                )
            }
        },
    }
}

/// The outcome of creating a student, from the backend's reply.
pub fn create_student(reply: GatewayReply<Student>) -> (result: Result<Student, AppError>)
    ensures
        is_outcome(
            result,
            reply_outcome(
                reply,
                "Failed to parse student creation response: "@,
                "Failed to create student: "@,
            ),
        ),
{
    settle(reply, "Failed to parse student creation response: ", "Failed to create student: ")
}

/// The outcome of fetching the roster, from the backend's reply.
pub fn fetch_all_students(reply: GatewayReply<Vec<Student>>) -> (result: Result<
    Vec<Student>,
    AppError,
>)
    ensures
        is_outcome(
            result,
            reply_outcome(reply, "Failed to parse students list: "@, "Failed to fetch students: "@),
        ),
{
    settle(reply, "Failed to parse students list: ", "Failed to fetch students: ")
}

/// The outcome of changing a student, from the backend's reply.
pub fn update_student(reply: GatewayReply<Student>) -> (result: Result<Student, AppError>)
    ensures
        is_outcome(result, reply_outcome(reply, Seq::empty(), Seq::empty())),
{
    proof {
        reveal_strlit("");
        assert(""@ =~= Seq::<char>::empty());
    }
    settle(reply, "", "")
}

/// The outcome of deleting a student, from the backend's reply.
pub fn delete_student(reply: GatewayReply<()>) -> (result: Result<(), String>)
    ensures
        match (result, delete_outcome(reply)) {
            (Ok(_), Ok(_)) => true,
            (Err(reason), Err(expected)) => reason@ == expected,
            _ => false,
        },
{
    match reply {
        GatewayReply::Unreachable(why) => Err(why),
        GatewayReply::Accepted(_) => Ok(()),
        GatewayReply::Refused { body, backend } => Err(error_text(body)),
    }
}

/// How far an upload of a spreadsheet got.
#[derive(Debug, Clone)]
pub enum ImportAttempt {
    /// The file could not be read; the text says why.
    Unreadable(String),
    /// The upload could not be given its media type; the text says why.
    BadMime(String),
    /// The file was sent, and this came back.
    Sent(GatewayReply<()>),
}

/// What an upload that got this far means.
pub open spec fn import_outcome(attempt: ImportAttempt) -> Result<(), AppErrorView> {
    match attempt {
        ImportAttempt::Unreadable(why) => Err(
            AppErrorView::IoError("Failed to read file: "@ + why@),
        ),
        ImportAttempt::BadMime(why) => Err(AppErrorView::IoError("Invalid MIME: "@ + why@)),
        ImportAttempt::Sent(reply) => upload_outcome(reply),
    }
}

/// What picking a file and uploading it means: not to pick one is an error
/// of its own.
pub open spec fn pick_and_upload_outcome(picked: Option<ImportAttempt>) -> Result<
    (),
    AppErrorView,
> {
    match picked {
        Some(attempt) => import_outcome(attempt),
        None => Err(AppErrorView::IoError("No file selected"@)),
    }
}

/// The outcome of uploading a spreadsheet, from how far the upload got.
pub fn import_students_from_excel(attempt: ImportAttempt) -> (result: Result<(), AppError>)
    ensures
        is_outcome(result, import_outcome(attempt)),
{
    match attempt {
        ImportAttempt::Unreadable(why) => Err(
            AppError::IoError(String::from_str("Failed to read file: ").concat(why.as_str())),
        ),
        ImportAttempt::BadMime(why) => Err(
            AppError::IoError(String::from_str("Invalid MIME: ").concat(why.as_str())),
        ),
        ImportAttempt::Sent(reply) => match reply {
            GatewayReply::Accepted(_) => Ok(()),
            other => {
                proof {
                    reveal_strlit("");
                    assert(""@ =~= Seq::<char>::empty());
                }
                settle(other, "", "Upload failed: ")
            },
        },
    }
}

/// The outcome of the open-file dialog and the upload behind it: `picked`
/// is `None` where the user chose no file.
pub fn pick_and_upload_excel_file(picked: Option<ImportAttempt>) -> (result: Result<(), AppError>)
    ensures
        is_outcome(result, pick_and_upload_outcome(picked)),
{
    match picked {
        Some(attempt) => import_students_from_excel(attempt),
        None => Err(AppError::IoError("No file selected".to_string())),
    }
}

/// The outcome of writing the import template: `written` is what writing
/// the file gave.
pub fn template_written(written: Result<(), String>) -> (result: Result<(), AppError>)
    ensures
        is_outcome(
            result,
            match written {
                Ok(_) => Ok(()),
                Err(why) => Err(AppErrorView::IoError("Failed to write file: "@ + why@)),
            },
        ),
{
    match written {
        Ok(_) => Ok(()),
        Err(why) => Err(
            AppError::IoError(String::from_str("Failed to write file: ").concat(why.as_str())),
        ),
    }
}

/// The outcome of the save-file dialog and the template behind it:
/// `generated` is `None` where the user chose no path, which is an error
/// of its own, and else what generating the template gave.
pub fn pick_path_and_generate_excel_template(generated: Option<Result<(), AppError>>) -> (result:
    Result<(), AppError>)
    ensures
        match generated {
            Some(outcome) => result == outcome,
            None => is_outcome(result, Err(AppErrorView::IoError("No file path chosen."@))),
        },
{
    match generated {
        Some(outcome) => outcome,
        None => Err(AppError::IoError("No file path chosen.".to_string())),
    }
}

} // verus!
