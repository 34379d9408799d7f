//! Registration and login: what is checked before the store and the
//! password are looked at, and what is answered.

use crate::dtos::{LoginUserDto, RegisterUserDto, Response, UserLoginResponseDto};
use crate::error::{ErrorMessage, HttpError, BAD_REQUEST};
use crate::models::UserRole;
use crate::validation::{login_violations, registration_violations};
use vstd::prelude::*;
use vstd::string::StringExecFns;

verus! {

/// How long a session token is good for, in seconds.
pub const TOKEN_MAX_AGE: i64 = 21600;

/// The rules that a registration breaks.
pub open spec fn registration_faults(body: RegisterUserDto) -> Seq<crate::validation::Violation> {
    registration_violations(
        body.first_name@,
        body.last_name@,
        body.email@,
        body.password@,
        body.password_confirm@,
    )
}

/// Reads a registration. It is turned down with the first rule that it
/// breaks; else the new user gets the role asked for, or that of a manager.
pub fn register(body: &RegisterUserDto) -> (r: Result<UserRole, HttpError>)
    ensures
        match r {
            Ok(role) => registration_faults(*body).len() == 0 && role == match body.role {
                Some(asked) => asked,
                None => UserRole::Manager,
            },
            Err(e) => registration_faults(*body).len() > 0 && e.carries(
                registration_faults(*body)[0].text(),
                BAD_REQUEST,
            ),
        },
{
    let found = body.validate();
    if found.len() > 0 {
        return Err(HttpError::bad_request(found[0].message()));
    }
    Ok(body.role_or_default())
}

/// The answer to a registration that was recorded.
pub fn registered() -> (answer: Response)
    ensures
        answer.status@ == "success"@,
        answer.message@ == "Registration successful!"@,
{
    Response { status: "success", message: String::from_str("Registration successful!") }
}

/// The answer to a registration with an e-mail address that is taken.
pub fn email_taken() -> (e: HttpError)
    ensures
        e.carries(ErrorMessage::EmailExist.text(), crate::error::CONFLICT),
{
    HttpError::unique_constraint_violation(ErrorMessage::EmailExist.to_str())
}

/// Reads a login. It is turned down with the first rule that it breaks.
pub fn login(body: &LoginUserDto) -> (r: Result<(), HttpError>)
    ensures
        match r {
            Ok(()) => login_violations(body.email@, body.password@).len() == 0,
            Err(e) => login_violations(body.email@, body.password@).len() > 0 && e.carries(
                login_violations(body.email@, body.password@)[0].text(),
                BAD_REQUEST,
            ),
        },
{
    let found = body.validate();
    if found.len() > 0 {
        return Err(HttpError::bad_request(found[0].message()));
    }
    Ok(())
}

/// Decides on a login once the user was looked up and the password
/// compared: the user must have been found and the password must match,
/// and the caller is not told which did not.
pub fn credentials_checked<U>(user: Option<U>, password_matches: bool) -> (r: Result<U, HttpError>)
    ensures
        match r {
            Ok(found) => user == Some(found) && password_matches,
            Err(e) => (user is None || !password_matches) && e.rejects(
                ErrorMessage::WrongCredentials,
            ),
        },
{
    match user {
        Some(found) => {
            if password_matches {
                Ok(found)
            } else {
                Err(HttpError::rejection(ErrorMessage::WrongCredentials))
            }
        },
        None => Err(HttpError::rejection(ErrorMessage::WrongCredentials)),
    }
}

/// The answer to a login that succeeded.
pub fn logged_in(token: String) -> (answer: UserLoginResponseDto)
    ensures
        answer.status@ == "success"@,
        answer.token == token,
{
    UserLoginResponseDto { status: String::from_str("success"), token }
}

} // verus!
