//! Accounts: what a user is, and which sign-up data is accepted.

use vstd::prelude::*;
use vstd::utf8::encode_utf8;

verus! {

/// Shortest accepted password, in bytes of its UTF-8 form.
pub const MIN_PASSWORD_BYTES: usize = 8;

/// What a too short password is answered with.
pub const PASSWORD_TOO_SHORT: &'static str = "Das Passwort muss min. 8 Zeichen lang sein.";

/// What a password that differs from its repetition is answered with.
pub const PASSWORDS_DIFFER: &'static str = "Die Passwörter müssen übereinstimmen.";

/// A user of the game.
#[derive(Debug)]
pub struct User {
    pub username: String,
    pub password: String,
}

/// Length of a text in bytes once encoded as UTF-8.
pub open spec fn utf8_len(text: Seq<char>) -> nat {
    encode_utf8(text).len()
}

/// The message that sign-up data is turned down with, if it is turned down: a password
/// and its repetition have to be the same text, of at least `MIN_PASSWORD_BYTES` bytes.
/// The first rule is looked at first.
pub open spec fn signup_objection(password: Seq<char>, repeat_password: Seq<char>) -> Option<
    Seq<char>,
> {
    if password != repeat_password {
        Some(PASSWORDS_DIFFER@)
    } else if utf8_len(password) < MIN_PASSWORD_BYTES {
        Some(PASSWORD_TOO_SHORT@)
    } else {
        None
    }
}

impl User {
    /// Makes a user, unless the password is shorter than `MIN_PASSWORD_BYTES` bytes.
    pub fn new_validated(username: String, password: String) -> (user: Result<User, String>)
        ensures
            user is Err <==> utf8_len(password@) < MIN_PASSWORD_BYTES,
            user matches Err(message) ==> message@ == PASSWORD_TOO_SHORT@,
            user matches Ok(u) ==> u.username == username && u.password == password,
    {
        if password.as_str().as_bytes().len() < MIN_PASSWORD_BYTES {
            return Err(PASSWORD_TOO_SHORT.to_owned());
        }
        Ok(User { username, password })
    }
}

/// Checks sign-up data, on the server and, where wanted, before it is sent there.
pub fn validate_signup(username: String, password: String, repeat_password: String) -> (verdict:
    Result<(), String>)
    ensures
        verdict is Ok <==> signup_objection(password@, repeat_password@) is None,
        verdict matches Err(message) ==> signup_objection(password@, repeat_password@) == Some(
            message@,
        ),
{
    if password != repeat_password {
        return Err(PASSWORDS_DIFFER.to_owned());
    }
    match User::new_validated(username, password) {
        Ok(_) => Ok(()),
        Err(message) => Err(message),
    }
}

} // verus!
