//! What the server answers to sign-up, login and logout.
//!
//! A request is answered in steps, with work on the session and the database between
//! them. Each step here takes what that work gave and says either how the request ends
//! or that it goes on.

use vstd::prelude::*;
use crate::database::DatabaseError;
use crate::password::{password_matches, stored_form};
use crate::user::{signup_objection, validate_signup, User};

verus! {

/// The answer to a sign-up that reached the rules for sign-up data.
#[derive(Debug)]
pub enum SignupResponse {
    /// The account exists now.
    Success,
    /// The data was turned down, with the reason to show.
    Error(String),
}

/// The answer to a login that reached the check of the credentials.
#[derive(Clone, Copy, Debug, PartialEq, Eq)]
pub enum LoginResponse {
    /// The session is open.
    Success,
    /// No such user, or not this password.
    IncorrectUserdata(()),
    /// The data cannot belong to any account.
    InvalidUserdata(()),
}

/// Why a request ended without an answer of its own.
#[derive(Clone, Copy, Debug, PartialEq, Eq, Structural)]
pub enum ServerFailure {
    /// A login was tried within an open session.
    AlreadyLoggedIn,
    /// The request needs a session and has none.
    NotLoggedIn,
    /// The database failed.
    Internal,
    /// The session cookie could not be set.
    CookieNotSet,
    /// The session cookie could not be removed.
    CookieNotRemoved,
}

/// The status that a reply is marked with.
#[derive(Clone, Copy, Debug, PartialEq, Eq, Structural)]
pub enum Status {
    /// Whatever the server gives by default.
    Unchanged,
    /// 403.
    Forbidden,
    /// 500.
    InternalServerError,
}

/// How a request ends: the status to mark the reply with, whether the client is sent
/// on to the game, and the answer or the failure.
#[derive(Debug)]
pub struct Reply<T> {
    pub status: Status,
    pub redirect_to_content: bool,
    pub result: Result<T, ServerFailure>,
}

impl ServerFailure {
    /// The message that the client gets.
    pub fn message(&self) -> (text: &'static str)
        ensures
            text@ == match self {
                ServerFailure::AlreadyLoggedIn => "you are already logged in"@,
                ServerFailure::NotLoggedIn => "you are not logged in"@,
                ServerFailure::Internal => "Internal Server Error"@,
                ServerFailure::CookieNotSet => "Failed to set cookie"@,
                ServerFailure::CookieNotRemoved => "error during cookie removal"@,
            },
    {
        match self {
            ServerFailure::AlreadyLoggedIn => "you are already logged in",
            ServerFailure::NotLoggedIn => "you are not logged in",
            ServerFailure::Internal => "Internal Server Error",
            ServerFailure::CookieNotSet => "Failed to set cookie",
            ServerFailure::CookieNotRemoved => "error during cookie removal",
        }
    }
}

/// First step of a sign-up: data that breaks a rule is answered at once, with the
/// rule's message; any other goes on to the database.
pub fn signup_gate(username: String, password: String, repeat_password: String) -> (end: Option<
    Reply<SignupResponse>,
>)
    ensures
        end is None <==> signup_objection(password@, repeat_password@) is None,
        end matches Some(reply) ==> {
            &&& reply.status == Status::Unchanged
            &&& !reply.redirect_to_content
            &&& reply.result matches Ok(SignupResponse::Error(message))
            &&& signup_objection(password@, repeat_password@) == Some(message@)
        },
{
    match validate_signup(username, password, repeat_password) {
        Ok(()) => None,
        Err(message) => Some(
            Reply {
                status: Status::Unchanged,
                redirect_to_content: false,
                result: Ok(SignupResponse::Error(message)),
            },
        ),
    }
}

/// Second step of a sign-up: with the account made, the session is opened for its
/// name; a failure of the database, whichever, ends the request.
pub fn after_user_created(created: Result<User, DatabaseError>) -> (step: Result<
    String,
    Reply<SignupResponse>,
>)
    ensures
        step is Ok <==> created is Ok,
        step matches Ok(name) ==> name == created->Ok_0.username,
        step matches Err(reply) ==> {
            &&& reply.status == Status::Unchanged
            &&& !reply.redirect_to_content
            &&& reply.result == Err::<SignupResponse, ServerFailure>(ServerFailure::Internal)
        },
{
    match created {
        Ok(user) => Ok(user.username),
        Err(_) => Err(
            Reply {
                status: Status::Unchanged,
                redirect_to_content: false,
                result: Err(ServerFailure::Internal),
            },
        ),
    }
}

/// First step of a login: none is taken within an open session; the client is sent on
/// to the game instead.
pub fn login_gate(current_user: &Option<String>) -> (end: Option<Reply<LoginResponse>>)
    ensures
        end is Some <==> current_user is Some,
        end matches Some(reply) ==> {
            &&& reply.status == Status::Unchanged
            &&& reply.redirect_to_content
            &&& reply.result == Err::<LoginResponse, ServerFailure>(ServerFailure::AlreadyLoggedIn)
        },
{
    match current_user {
        Some(_) => Some(
            Reply {
                status: Status::Unchanged,
                redirect_to_content: true,
                result: Err(ServerFailure::AlreadyLoggedIn),
            },
        ),
        None => None,
    }
}

/// What the check of a login's credentials comes to, given what the lookup of the user
/// gave and whether the password is the stored one.
pub open spec fn credentials_verdict(
    lookup: Result<User, DatabaseError>,
    password_is_stored: bool,
) -> Result<String, (Status, Result<LoginResponse, ServerFailure>)> {
    match lookup {
        Ok(user) => if password_is_stored {
            Ok(user.username)
        } else {
            Err((Status::Forbidden, Ok(LoginResponse::IncorrectUserdata(()))))
        },
        Err(DatabaseError::NotFound) => Err(
            (Status::Unchanged, Ok(LoginResponse::IncorrectUserdata(()))),
        ),
        Err(_) => Err((Status::Forbidden, Err(ServerFailure::Internal))),
    }
}

/// Second step of a login. A user that is found and whose stored password is the
/// stored form of `password` gets a session under their name. An unknown user and a
/// wrong password are answered alike, the latter marked as forbidden; any other failure
/// of the lookup ends the request, marked as forbidden too.
pub fn check_credentials(lookup: Result<User, DatabaseError>, password: &str) -> (step: Result<
    String,
    Reply<LoginResponse>,
>)
    ensures
        match credentials_verdict(
            lookup,
            lookup is Ok && lookup->Ok_0.password@ == stored_form(password@),
        ) {
            Ok(name) => step == Ok::<String, Reply<LoginResponse>>(name),
            Err((status, result)) => {
                &&& step matches Err(reply)
                &&& reply.status == status
                &&& !reply.redirect_to_content
                &&& reply.result == result
            },
        },
{
    match lookup {
        Ok(user) => {
            if password_matches(user.password.as_str(), password) {
                Ok(user.username)
            } else {
                Err(
                    Reply {
                        status: Status::Forbidden,
                        redirect_to_content: false,
                        result: Ok(LoginResponse::IncorrectUserdata(())),
                    },
                )
            }
        },
        Err(DatabaseError::NotFound) => Err(
            Reply {
                status: Status::Unchanged,
                redirect_to_content: false,
                result: Ok(LoginResponse::IncorrectUserdata(())),
            },
        ),
        Err(_) => Err(
            Reply {
                status: Status::Forbidden,
                redirect_to_content: false,
                result: Err(ServerFailure::Internal),
            },
        ),
    }
}

/// Last step of a sign-up and of a login: with the session cookie set the client gets
/// `success` and is sent on to the game; without it the request has failed.
pub fn session_reply<T>(cookie_set: bool, success: T) -> (reply: Reply<T>)
    ensures
        reply.redirect_to_content == cookie_set,
        cookie_set ==> reply.status == Status::Unchanged && reply.result == Ok::<
            T,
            ServerFailure,
        >(success),
        !cookie_set ==> reply.status == Status::InternalServerError && reply.result == Err::<
            T,
            ServerFailure,
        >(ServerFailure::CookieNotSet),
{
    if cookie_set {
        Reply { status: Status::Unchanged, redirect_to_content: true, result: Ok(success) }
    } else {
        Reply {
            status: Status::InternalServerError,
            redirect_to_content: false,
            result: Err(ServerFailure::CookieNotSet),
        }
    }
}

/// First step of a logout: there has to be a session.
pub fn logout_gate(current_user: &Option<String>) -> (step: Result<(), ServerFailure>)
    ensures
        step == (if current_user is Some {
            Ok::<(), ServerFailure>(())
        } else {
            Err::<(), ServerFailure>(ServerFailure::NotLoggedIn)
        }),
{
    match current_user {
        Some(_) => Ok(()),
        None => Err(ServerFailure::NotLoggedIn),
    }
}

/// Last step of a logout: done if the session cookie is removed.
pub fn logout_reply(cookie_removed: bool) -> (reply: Result<(), ServerFailure>)
    ensures
        reply == (if cookie_removed {
            Ok::<(), ServerFailure>(())
        } else {
            Err::<(), ServerFailure>(ServerFailure::CookieNotRemoved)
        }),
{
    if cookie_removed {
        Ok(())
    } else {
        Err(ServerFailure::CookieNotRemoved)
    }
}

/// The line under the login form for what a login came to, if there is one to show.
pub fn login_error_line(outcome: &Option<Result<LoginResponse, ServerFailure>>) -> (line: Option<
    &'static str,
>)
    ensures
        match *outcome {
            Some(Ok(LoginResponse::IncorrectUserdata(_))) => line matches Some(text) && text@
                == "Falscher Benutzername oder Passwort"@,
            Some(Ok(LoginResponse::InvalidUserdata(_))) => line matches Some(text) && text@
                == "Das Passwort muss min. 8 Zeichen lang sein"@,
            Some(Err(_)) => line matches Some(text) && text@ == "Serverfehler"@,
            _ => line is None,
        },
{
    match outcome {
        Some(Ok(LoginResponse::IncorrectUserdata(_))) => Some(
            "Falscher Benutzername oder Passwort",
        ),
        Some(Ok(LoginResponse::InvalidUserdata(_))) => Some(
            "Das Passwort muss min. 8 Zeichen lang sein",
        ),
        Some(Err(_)) => Some("Serverfehler"),
        _ => None,
    }
}

} // verus!
