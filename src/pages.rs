//! The pages and replies of the account routes, as plain values: an HTTP
//! status and the text that the response page shows.
use crate::account::texts;
use vstd::prelude::*;

verus! {

/// The page that shows the result of a login or registration attempt.
pub struct LoginRegisterResponse {
    pub response: String,
}

/// The chat page.
pub struct ChatPage;

/// The registration page.
pub struct RegisterPage;

/// The login page.
pub struct LoginPage;

/// A chat message echoed back to the author's own log.
pub struct MyChat {
    pub message: String,
}

/// An HTTP status and the response page to send with it.
pub struct Reply {
    pub status: u16,
    pub page: LoginRegisterResponse,
}

/// The text that opens the reply to a password that could not be hashed.
pub const HASH_FAILURE: &'static str = "Unable to hash password: ";

pub const CREATED: u16 = 201;

pub const UNAUTHORIZED: u16 = 401;

pub const CONFLICT: u16 = 409;

pub const INTERNAL_SERVER_ERROR: u16 = 500;

/// Builds a reply from a status and a text.
pub fn reply(status: u16, text: String) -> (r: Reply)
    ensures
        r.status == status,
        r.page.response@ == text@,
{
    Reply { status, page: LoginRegisterResponse { response: text } }
}

/// `prefix` followed by `detail`.
fn joined(prefix: &str, detail: &str) -> (r: String)
    ensures
        r@ == prefix@ + detail@,
{
    let mut out = String::from_str(prefix);
    out.append(detail);
    out
}

/// The text shown for a rejected registration request: its problems joined
/// by ` & ` between `Invalid input: ` and `!`, for one to three problems,
/// and nothing otherwise.
pub open spec fn invalid_input_text(problems: Seq<Seq<char>>) -> Seq<char> {
    if problems.len() == 1 {
        "Invalid input: "@ + problems[0] + "!"@
    } else if problems.len() == 2 {
        "Invalid input: "@ + problems[0] + " & "@ + problems[1] + "!"@
    } else if problems.len() == 3 {
        "Invalid input: "@ + problems[0] + " & "@ + problems[1] + " & "@ + problems[2] + "!"@
    } else {
        Seq::empty()
    }
}

/// Renders the text shown for a rejected registration request.
pub fn describe_problems(problems: &Vec<String>) -> (r: String)
    ensures
        r@ == invalid_input_text(texts(problems@)),
{
    let n = problems.len();
    if n == 0 || n > 3 {
        return String::new();
    }
    let mut out = String::from_str("Invalid input: ");
    out.append(problems[0].as_str());
    if n >= 2 {
        out.append(" & ");
        out.append(problems[1].as_str());
    }
    if n == 3 {
        out.append(" & ");
        out.append(problems[2].as_str());
    }
    out.append("!");
    out
}

/// How a registration attempt ended, step by step: validation, password
/// hashing, the look-up of the e-mail address, and storing the account.
/// Each failure carries the text of the outside error.
pub enum RegistrationOutcome {
    Invalid(Vec<String>),
    HashFailed(String),
    EmailTaken(String),
    LookupFailed(String),
    StoreFailed(String),
    Registered,
}

/// The reply owed for a registration attempt.
pub fn registration_reply(outcome: &RegistrationOutcome) -> (r: Reply)
    ensures
        match outcome {
            RegistrationOutcome::Invalid(p) => r.status == UNAUTHORIZED && r.page.response@
                == invalid_input_text(texts(p@)),
            RegistrationOutcome::HashFailed(e) => r.status == INTERNAL_SERVER_ERROR
                && r.page.response@ == HASH_FAILURE@ + e@,
            RegistrationOutcome::EmailTaken(email) => r.status == CONFLICT && r.page.response@
                == "User with this email: "@ + email@ + " is already registered"@,
            RegistrationOutcome::LookupFailed(e) => r.status == INTERNAL_SERVER_ERROR
                && r.page.response@ == "Something is wrong, try again later: "@ + e@,
            RegistrationOutcome::StoreFailed(e) => r.status == INTERNAL_SERVER_ERROR
                && r.page.response@ == "Registration failed: "@ + e@,
            RegistrationOutcome::Registered => r.status == CREATED && r.page.response@
                == "Registration successful, you can login now!"@,
        },
{
    match outcome {
        RegistrationOutcome::Invalid(p) => reply(UNAUTHORIZED, describe_problems(p)),
        RegistrationOutcome::HashFailed(e) => reply(
            INTERNAL_SERVER_ERROR,
            joined(HASH_FAILURE, e.as_str()),
        ),
        RegistrationOutcome::EmailTaken(email) => {
            let mut text = joined("User with this email: ", email.as_str());
            text.append(" is already registered");
            reply(CONFLICT, text)
        },
        RegistrationOutcome::LookupFailed(e) => reply(
            INTERNAL_SERVER_ERROR,
            joined("Something is wrong, try again later: ", e.as_str()),
        ),
        RegistrationOutcome::StoreFailed(e) => reply(
            INTERNAL_SERVER_ERROR,
            joined("Registration failed: ", e.as_str()),
        ),
        RegistrationOutcome::Registered => reply(
            CREATED,
            String::from_str("Registration successful, you can login now!"),
        ),
    }
}

/// How a login attempt ended: the stored account's identifier when the
/// password matched, else the reason it failed. Failures of outside calls
/// carry the text of their error.
pub enum LoginOutcome {
    Verified(String),
    WrongPassword,
    UnreadableHash(String),
    NotRegistered,
    LookupFailed(String),
}

/// The result of a login attempt: the identifier to put in the session
/// cookie, or the reply that refuses the login.
pub fn login_reply(outcome: LoginOutcome) -> (r: Result<String, Reply>)
    ensures
        match outcome {
            LoginOutcome::Verified(id) => r == Ok::<String, Reply>(id),
            LoginOutcome::WrongPassword => r matches Err(p) && p.status == UNAUTHORIZED
                && p.page.response@ == "Failed to login. The email and password didn't match"@,
            LoginOutcome::UnreadableHash(e) => r matches Err(p) && p.status == UNAUTHORIZED
                && p.page.response@ == "Unable to parse the password: "@ + e@,
            LoginOutcome::NotRegistered => r matches Err(p) && p.status == UNAUTHORIZED
                && p.page.response@ == "You're not yet registered. Register Now!"@,
            LoginOutcome::LookupFailed(e) => r matches Err(p) && p.status == UNAUTHORIZED
                && p.page.response@ == e@,
        },
{
    match outcome {
        LoginOutcome::Verified(id) => Ok(id),
        LoginOutcome::WrongPassword => Err(
            reply(UNAUTHORIZED, String::from_str("Failed to login. The email and password didn't match")),
        ),
        LoginOutcome::UnreadableHash(e) => Err(
            reply(UNAUTHORIZED, joined("Unable to parse the password: ", e.as_str())),
        ),
        LoginOutcome::NotRegistered => Err(
            reply(UNAUTHORIZED, String::from_str("You're not yet registered. Register Now!")),
        ),
        LoginOutcome::LookupFailed(e) => Err(reply(UNAUTHORIZED, e)),
    }
}

} // verus!
