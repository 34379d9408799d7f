//! The rules that registration, login and paging requests must meet.

use vstd::prelude::*;
use vstd::string::StrSliceExecFns;

verus! {

/// A rule that a request does not meet.
#[derive(Clone, Copy, Debug, PartialEq, Eq, Structural)]
pub enum Violation {
    FirstNameRequired,
    LastNameRequired,
    EmailRequired,
    EmailInvalid,
    PasswordRequired,
    PasswordTooShort,
    PasswordMismatch,
    PageOutOfRange,
    LimitOutOfRange,
}

/// Whether a text is an e-mail address.
pub uninterp spec fn valid_email(text: Seq<char>) -> bool;

/// Asks `validator::ValidateEmail::validate_email` whether the text is an
/// e-mail address. The contract only names the answer.
#[verifier::external_body]
pub(crate) fn email_is_valid(text: &str) -> (b: bool)
    ensures
        b == valid_email(text@),
{
    validator::ValidateEmail::validate_email(&text)
}

impl Violation {
    /// The field of the request that the rule is about.
    pub open spec fn field_name(self) -> Seq<char> {
        match self {
            Violation::FirstNameRequired => "first_name"@,
            Violation::LastNameRequired => "last_name"@,
            Violation::EmailRequired => "email"@,
            Violation::EmailInvalid => "email"@,
            Violation::PasswordRequired => "password"@,
            Violation::PasswordTooShort => "password"@,
            Violation::PasswordMismatch => "password_confirm"@,
            Violation::PageOutOfRange => "page"@,
            Violation::LimitOutOfRange => "limit"@,
        }
    }

    /// What the caller is told.
    pub open spec fn text(self) -> Seq<char> {
        match self {
            Violation::FirstNameRequired => "First name is required"@,
            Violation::LastNameRequired => "Last name is required"@,
            Violation::EmailRequired => "Email is required"@,
            Violation::EmailInvalid => "Email is invalid"@,
            Violation::PasswordRequired => "Password is required"@,
            Violation::PasswordTooShort => "Password must be at least 6 characters"@,
            Violation::PasswordMismatch => "Passwords do not match"@,
            Violation::PageOutOfRange => "Page must be at least 1"@,
            Violation::LimitOutOfRange => "Limit must be between 1 and 50"@,
        }
    }

    /// The field of the request that the rule is about.
    pub fn field(&self) -> (s: &'static str)
        ensures
            s@ == self.field_name(),
    {
        match self {
            Violation::FirstNameRequired => "first_name",
            Violation::LastNameRequired => "last_name",
            Violation::EmailRequired => "email",
            Violation::EmailInvalid => "email",
            Violation::PasswordRequired => "password",
            Violation::PasswordTooShort => "password",
            Violation::PasswordMismatch => "password_confirm",
            Violation::PageOutOfRange => "page",
            Violation::LimitOutOfRange => "limit",
        }
    }

    /// What the caller is told.
    pub fn message(&self) -> (s: &'static str)
        ensures
            s@ == self.text(),
    {
        match self {
            Violation::FirstNameRequired => "First name is required",
            Violation::LastNameRequired => "Last name is required",
            Violation::EmailRequired => "Email is required",
            Violation::EmailInvalid => "Email is invalid",
            Violation::PasswordRequired => "Password is required",
            Violation::PasswordTooShort => "Password must be at least 6 characters",
            Violation::PasswordMismatch => "Passwords do not match",
            Violation::PageOutOfRange => "Page must be at least 1",
            Violation::LimitOutOfRange => "Limit must be between 1 and 50",
        }
    }
}

/// The violation, if the rule is broken.
pub open spec fn when(broken: bool, violation: Violation) -> Seq<Violation> {
    if broken {
        seq![violation]
    } else {
        Seq::empty()
    }
}

/// The rules that an e-mail address breaks: it must not be empty, and it
/// must be an e-mail address.
pub open spec fn email_violations(email: Seq<char>) -> Seq<Violation> {
    when(email.len() < 1, Violation::EmailRequired) + when(
        !valid_email(email),
        Violation::EmailInvalid,
    )
}

/// The rules that a login breaks, in the order of its fields: those of the
/// e-mail address, then a password of at least one and of at least six
/// characters.
pub open spec fn login_violations(email: Seq<char>, password: Seq<char>) -> Seq<Violation> {
    email_violations(email) + when(password.len() < 1, Violation::PasswordRequired) + when(
        password.len() < 6,
        Violation::PasswordTooShort,
    )
}

/// The rules that a registration breaks, in the order of its fields: a
/// first and a last name, the rules of the e-mail address, a password of at
/// least six characters, and the same password given twice.
pub open spec fn registration_violations(
    first_name: Seq<char>,
    last_name: Seq<char>,
    email: Seq<char>,
    password: Seq<char>,
    password_confirm: Seq<char>,
) -> Seq<Violation> {
    when(first_name.len() < 1, Violation::FirstNameRequired) + when(
        last_name.len() < 1,
        Violation::LastNameRequired,
    ) + email_violations(email) + when(password.len() < 6, Violation::PasswordTooShort) + when(
        password_confirm != password,
        Violation::PasswordMismatch,
    )
}

/// The rules that a paging query breaks: a page, if given, is at least 1,
/// and a limit, if given, is from 1 to 50.
pub open spec fn paging_violations(page: Option<usize>, limit: Option<usize>) -> Seq<Violation> {
    when(page matches Some(p) && p < 1, Violation::PageOutOfRange) + when(
        limit matches Some(l) && (l < 1 || l > 50),
        Violation::LimitOutOfRange,
    )
}

/// Adds the violation to the list if the rule is broken.
pub fn note(found: &mut Vec<Violation>, broken: bool, violation: Violation)
    ensures
        final(found)@ == old(found)@ + when(broken, violation),
{
    if broken {
        found.push(violation);
        assert(found@ =~= old(found)@ + when(broken, violation));
    } else {
        assert(found@ =~= old(found)@ + when(broken, violation));
    }
}

/// Checks an e-mail address and adds what it breaks to the list.
pub fn check_email(found: &mut Vec<Violation>, email: &str)
    ensures
        final(found)@ == old(found)@ + email_violations(email@),
{
    let length: usize = email.unicode_len();
    note(found, length < 1, Violation::EmailRequired);
    let valid: bool = email_is_valid(email);
    note(found, !valid, Violation::EmailInvalid);
    assert(found@ =~= old(found)@ + email_violations(email@));
}

} // verus!
