//! The credential steps of registration and login: password hashing and
//! checking with Argon2, and fresh account identifiers.
use crate::account::{ascii_lower_code, register_problems, RegisterRequest, UserData};
use crate::pages::{
    invalid_input_text, registration_reply, LoginOutcome, RegistrationOutcome, Reply, HASH_FAILURE,
    INTERNAL_SERVER_ERROR, UNAUTHORIZED,
};
use argon2::password_hash::{PasswordHash, PasswordHasher, PasswordVerifier, Salt, SaltString};
use argon2::Argon2;
use vstd::prelude::*;

verus! {

/// The PHC string that Argon2 with default parameters makes of `password`
/// and the B64-encoded `salt`, or `None` where it refuses them.
pub uninterp spec fn argon2_phc(password: Seq<char>, salt: Seq<char>) -> Option<Seq<char>>;

/// Whether `stored` is a well-formed PHC string.
pub uninterp spec fn phc_parses(stored: Seq<char>) -> bool;

/// Whether Argon2 accepts `password` against the PHC string `stored`.
pub uninterp spec fn argon2_accepts(password: Seq<char>, stored: Seq<char>) -> bool;

/// Relies on `SaltString::generate` with the operating system's random
/// source: a fresh B64-encoded salt. Nothing is stated of it.
#[verifier::external_body]
fn fresh_salt() -> (r: String) {
    SaltString::generate(&mut rand_core::OsRng).as_str().to_string()
}

/// Relies on `PasswordHasher::hash_password` of `Argon2::default()`, with the
/// salt read by `Salt::from_b64`: the PHC string of the hash, or the text of
/// the error. The result depends on the two texts alone.
#[verifier::external_body]
fn hash_with_salt(password: &str, salt: &str) -> (r: Result<String, String>)
    ensures
        match r {
            Ok(h) => argon2_phc(password@, salt@) == Some(h@),
            Err(_) => argon2_phc(password@, salt@) is None,
        },
{
    let salt = match Salt::from_b64(salt) {
        Ok(s) => s,
        Err(e) => return Err(e.to_string()),
    };
    match Argon2::default().hash_password(password.as_bytes(), salt) {
        Ok(h) => Ok(h.to_string()),
        Err(e) => Err(e.to_string()),
    }
}

/// Relies on `PasswordHash::new`, which reads a PHC string (an error text when
/// it is not one), then on `PasswordVerifier::verify_password` of
/// `Argon2::default()`, which succeeds only when the password matches.
#[verifier::external_body]
fn check_password(password: &str, stored: &str) -> (r: Result<bool, String>)
    ensures
        match r {
            Ok(b) => phc_parses(stored@) && b == argon2_accepts(password@, stored@),
            Err(_) => !phc_parses(stored@),
        },
{
    match PasswordHash::new(stored) {
        Ok(parsed) => Ok(Argon2::default().verify_password(password.as_bytes(), &parsed).is_ok()),
        Err(e) => Err(e.to_string()),
    }
}

/// A lower-case hexadecimal digit.
pub open spec fn is_lower_hex(c: char) -> bool {
    ('0' <= c && c <= '9') || ('a' <= c && c <= 'f')
}

/// Relies on `uuid::Uuid::new_v4` written in the simple format, which is 32
/// lower-case hexadecimal digits (its `Display` goes through `LowerHex`).
/// The value is random.
#[verifier::external_body]
fn new_account_id() -> (r: String)
    ensures
        r@.len() == 32,
        forall|i: int| 0 <= i < r@.len() ==> is_lower_hex(#[trigger] r@[i]),
{
    uuid::Uuid::new_v4().as_simple().to_string()
}

impl RegisterRequest {
    /// The account to store for this request, given the salt to hash its
    /// password with and the identifier to give it. A request with problems
    /// is refused with their description; a password that cannot be hashed
    /// is refused as a server error.
    pub fn account_with(&self, salt: &str, id: String) -> (r: Result<UserData, Reply>)
        ensures
            register_problems(self.user_name@, self.email@, self.password@).len() > 0 ==> (r matches Err(p)
                && p.status == UNAUTHORIZED && p.page.response@ == invalid_input_text(
                register_problems(self.user_name@, self.email@, self.password@),
            )),
            register_problems(self.user_name@, self.email@, self.password@).len() == 0 ==> match argon2_phc(
                self.password@,
                salt@,
            ) {
                Some(h) => r matches Ok(u) && {
                    &&& u.user_name@ == self.user_name@
                    &&& u.uuid@ == id@
                    &&& u.password@ == h
                    &&& u.email@.len() == self.email@.len()
                    &&& forall|i: int|
                        0 <= i < self.email@.len() ==> #[trigger] u.email@[i] as u32 == ascii_lower_code(
                            self.email@[i] as u32,
                        )
                },
                None => r matches Err(p) && p.status == INTERNAL_SERVER_ERROR && exists|e: Seq<char>|
                    p.page.response@ == HASH_FAILURE@ + e,
            },
    {
        let problems = self.problems();
        if problems.len() > 0 {
            return Err(registration_reply(&RegistrationOutcome::Invalid(problems)));
        }
        let password = match hash_with_salt(self.password.as_str(), salt) {
            Ok(h) => h,
            Err(e) => {
                let r = registration_reply(&RegistrationOutcome::HashFailed(e));
                assert(r.page.response@ == HASH_FAILURE@ + e@);
                return Err(r);
            },
        };
        Ok(UserData {
            user_name: self.user_name.clone(),
            uuid: id,
            email: self.normalized_email(),
            password,
        })
    }

    /// The account to store for this request, with a fresh random salt and
    /// a fresh identifier. A request with problems is refused with their
    /// description; a valid one yields the account unless hashing fails,
    /// which is refused as a server error.
    pub fn new_account(&self) -> (r: Result<UserData, Reply>)
        ensures
            register_problems(self.user_name@, self.email@, self.password@).len() > 0 ==> (r matches Err(p)
                && p.status == UNAUTHORIZED && p.page.response@ == invalid_input_text(
                register_problems(self.user_name@, self.email@, self.password@),
            )),
            register_problems(self.user_name@, self.email@, self.password@).len() == 0 ==> match r {
                Ok(u) => {
                    &&& u.user_name@ == self.user_name@
                    &&& u.uuid@.len() == 32
                    &&& forall|i: int| 0 <= i < u.uuid@.len() ==> is_lower_hex(#[trigger] u.uuid@[i])
                    &&& exists|salt: Seq<char>| argon2_phc(self.password@, salt) == Some(u.password@)
                    &&& u.email@.len() == self.email@.len()
                    &&& forall|i: int|
                        0 <= i < self.email@.len() ==> #[trigger] u.email@[i] as u32 == ascii_lower_code(
                            self.email@[i] as u32,
                        )
                },
                Err(p) => {
                    &&& p.status == INTERNAL_SERVER_ERROR
                    &&& exists|e: Seq<char>| p.page.response@ == HASH_FAILURE@ + e
                    &&& exists|salt: Seq<char>| argon2_phc(self.password@, salt) is None
                },
            },
    {
        let salt = fresh_salt();
        let id = new_account_id();
        let ghost id_view = id@;
        let r = self.account_with(salt.as_str(), id);
        proof {
            if register_problems(self.user_name@, self.email@, self.password@).len() == 0 {
                if r is Ok {
                    assert(argon2_phc(self.password@, salt@) == Some(r->Ok_0.password@));
                    assert(r->Ok_0.uuid@ == id_view);
                } else {
                    assert(argon2_phc(self.password@, salt@) is None);
                }
            }
        }
        r
    }
}

/// Decides a login from the password given and the look-up of the account
/// by e-mail address (the text of the store's error when it failed).
pub fn authenticate(password: &str, lookup: Result<Option<UserData>, String>) -> (r: LoginOutcome)
    ensures
        match lookup {
            Err(e) => r == LoginOutcome::LookupFailed(e),
            Ok(None) => r == LoginOutcome::NotRegistered,
            Ok(Some(u)) => if !phc_parses(u.password@) {
                r is UnreadableHash
            } else if argon2_accepts(password@, u.password@) {
                r == LoginOutcome::Verified(u.uuid)
            } else {
                r == LoginOutcome::WrongPassword
            },
        },
{
    match lookup {
        Err(e) => LoginOutcome::LookupFailed(e),
        Ok(None) => LoginOutcome::NotRegistered,
        Ok(Some(u)) => match check_password(password, u.password.as_str()) {
            Err(e) => LoginOutcome::UnreadableHash(e),
            Ok(true) => LoginOutcome::Verified(u.uuid),
            Ok(false) => LoginOutcome::WrongPassword,
        },
    }
}

} // verus!
