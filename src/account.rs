//! Identity and connection-state values shared by the registry and the
//! request handlers.
use tokio::sync::mpsc::UnboundedSender;
use vstd::prelude::*;

verus! {

/// Whether a user key is attached to a live connection.
#[derive(Clone, Copy, Debug, PartialEq, Eq, Structural)]
pub enum Status {
    Connected,
    Disconnected,
}

impl Default for Status {
    /// A key that has never attached is disconnected.
    fn default() -> (r: Status)
        ensures
            r == Status::Disconnected,
    {
        Status::Disconnected
    }
}

/// A stored account: display name, identifier, e-mail address and the
/// password hash in PHC string form.
pub struct UserData {
    pub user_name: String,
    pub uuid: String,
    pub email: String,
    pub password: String,
}

/// A registry entry: the connection status of one user key and, while it is
/// connected, the handle that feeds its outbound pump.
pub struct UserState {
    pub status: Status,
    pub sender: Option<UnboundedSender<String>>,
}

impl UserState {
    /// The handle is present exactly while the entry is connected.
    pub open spec fn wf(&self) -> bool {
        (self.status == Status::Connected) == self.sender.is_some()
    }

    /// The entry of a key that is attached to no connection.
    pub open spec fn spec_disconnected() -> UserState {
        UserState { status: Status::Disconnected, sender: None }
    }

    /// An entry attached to the given outbound handle.
    pub fn connected(sender: UnboundedSender<String>) -> (r: UserState)
        ensures
            r.status == Status::Connected,
            r.sender == Some(sender),
            r.wf(),
    {
        UserState { status: Status::Connected, sender: Some(sender) }
    }

    /// An entry known to the registry but attached to no connection.
    pub fn disconnected() -> (r: UserState)
        ensures
            r == UserState::spec_disconnected(),
            r.wf(),
    {
        UserState { status: Status::Disconnected, sender: None }
    }

    /// Whether a broadcast may be queued on this entry.
    pub fn is_connected(&self) -> (r: bool)
        ensures
            r == (self.status == Status::Connected),
    {
        self.status == Status::Connected
    }
}

impl Default for UserState {
    /// A fresh entry is disconnected and has no handle.
    fn default() -> (r: UserState)
        ensures
            r == UserState::spec_disconnected(),
    {
        UserState::disconnected()
    }
}

/// The body of a registration request.
pub struct RegisterRequest {
    pub user_name: String,
    pub email: String,
    pub password: String,
}

/// Whether `address` is an e-mail address in the HTML form sense.
pub uninterp spec fn is_valid_email(address: Seq<char>) -> bool;

/// Relies on `validator::validate_email`, which accepts an address only when
/// it is nonempty, holds an `@`, and its two parts pass the HTML e-mail
/// rules. The result depends on the text alone.
#[verifier::external_body]
fn email_is_valid(address: &String) -> (r: bool)
    ensures
        r == is_valid_email(address@),
        r ==> address@.contains('@'),
{
    validator::validate_email(address.as_str())
}

/// Relies on `validator::validate_length` with a lower bound only: true when
/// the text holds at least `min` characters (it counts `chars()`).
#[verifier::external_body]
fn has_min_length(value: &String, min: u64) -> (r: bool)
    ensures
        r == (value@.len() >= min),
{
    validator::validate_length(value, Some(min), None, None)
}

/// Relies on `str::to_ascii_lowercase`: ASCII letters `A` to `Z` become `a`
/// to `z`, every other character is kept.
#[verifier::external_body]
fn ascii_lowercase(s: &str) -> (r: String)
    ensures
        r@.len() == s@.len(),
        forall|i: int| 0 <= i < s@.len() ==> #[trigger] r@[i] as u32 == ascii_lower_code(s@[i] as u32),
{
    s.to_ascii_lowercase()
}

/// The code of the ASCII lower-case form of the character with code `c`.
pub open spec fn ascii_lower_code(c: u32) -> u32 {
    if 65 <= c <= 90 {
        (c + 32) as u32
    } else {
        c
    }
}

/// The message given when the user name is empty.
pub const NAME_PROBLEM: &'static str = "don't you have a name?";

/// The message given when the e-mail address is not valid.
pub const EMAIL_PROBLEM: &'static str = "use valid email";

/// The message given when the password is too short.
pub const PASSWORD_PROBLEM: &'static str = "password need to be at least 12 characters";

/// The fewest characters a password may have.
pub const MIN_PASSWORD_CHARS: u64 = 12;

/// The problems with a registration request, in field order: user name,
/// e-mail address, password.
pub open spec fn register_problems(name: Seq<char>, email: Seq<char>, password: Seq<char>) -> Seq<
    Seq<char>,
> {
    (if name.len() >= 1 {
        Seq::empty()
    } else {
        seq![NAME_PROBLEM@]
    }) + (if is_valid_email(email) {
        Seq::empty()
    } else {
        seq![EMAIL_PROBLEM@]
    }) + (if password.len() >= MIN_PASSWORD_CHARS {
        Seq::empty()
    } else {
        seq![PASSWORD_PROBLEM@]
    })
}

/// The views of a list of strings.
pub open spec fn texts(v: Seq<String>) -> Seq<Seq<char>> {
    v.map_values(|s: String| s@)
}

impl RegisterRequest {
    /// Checks the request: the user name must not be empty, the e-mail
    /// address must be valid and the password must hold at least twelve
    /// characters. Returns the message of each failed check, in field order;
    /// an empty list means the request is valid.
    pub fn problems(&self) -> (r: Vec<String>)
        ensures
            texts(r@) == register_problems(self.user_name@, self.email@, self.password@),
    {
        let mut out: Vec<String> = Vec::new();
        if !has_min_length(&self.user_name, 1) {
            out.push(String::from_str(NAME_PROBLEM));
        }
        if !email_is_valid(&self.email) {
            out.push(String::from_str(EMAIL_PROBLEM));
        }
        if !has_min_length(&self.password, MIN_PASSWORD_CHARS) {
            out.push(String::from_str(PASSWORD_PROBLEM));
        }
        assert(texts(out@) =~= register_problems(self.user_name@, self.email@, self.password@));
        out
    }

    /// The e-mail address under which the account is stored: the request's
    /// address with ASCII letters in lower case.
    pub fn normalized_email(&self) -> (r: String)
        ensures
            r@.len() == self.email@.len(),
            forall|i: int|
                0 <= i < self.email@.len() ==> #[trigger] r@[i] as u32 == ascii_lower_code(
                    self.email@[i] as u32,
                ),
    {
        ascii_lowercase(self.email.as_str())
    }
}

/// The body of a login request.
pub struct LoginRequest {
    pub email: String,
    pub password: String,
}

} // verus!
