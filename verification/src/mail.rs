//! What the notification mails carry: subjects, templates and the values
//! that fill them. Sending them is left to the caller.

use vstd::prelude::*;
use vstd::string::StringExecFns;

verus! {

/// A mail ready to be rendered: its subject, the path of its template and
/// the text that replaces each placeholder of the template.
pub struct MailDraft {
    pub subject: String,
    pub template_path: String,
    pub placeholders: Vec<(String, String)>,
}

/// The address at which a registration is verified.
pub open spec fn verification_base_url() -> Seq<char> {
    "http://localhost:8000/api/auth/verify"@
}

/// The link that verifies a registration: the base address, then the token
/// as its query.
pub fn create_verification_link(base_url: &str, token: &str) -> (link: String)
    ensures
        link@ == base_url@ + "?token="@ + token@,
{
    let mut link: String = String::from_str(base_url);
    link.append("?token=");
    link.append(token);
    link
}

/// The mail that asks a new user to verify the address.
pub fn verification_email(username: &str, token: &str) -> (draft: MailDraft)
    ensures
        draft.subject@ == "Email Verification"@,
        draft.template_path@ == "src/mail/templates/Verification-email.html"@,
        draft.placeholders@.len() == 2,
        draft.placeholders@[0].0@ == "{{username}}"@,
        draft.placeholders@[0].1@ == username@,
        draft.placeholders@[1].0@ == "{{verification_link}}"@,
        draft.placeholders@[1].1@ == verification_base_url() + "?token="@ + token@,
{
    let link: String = create_verification_link("http://localhost:8000/api/auth/verify", token);
    let mut placeholders: Vec<(String, String)> = Vec::new();
    placeholders.push((String::from_str("{{username}}"), String::from_str(username)));
    placeholders.push((String::from_str("{{verification_link}}"), link));
    MailDraft {
        subject: String::from_str("Email Verification"),
        template_path: String::from_str("src/mail/templates/Verification-email.html"),
        placeholders,
    }
}

/// The mail that welcomes a user.
pub fn welcome_email(username: &str) -> (draft: MailDraft)
    ensures
        draft.subject@ == "Welcome to Application"@,
        draft.template_path@ == "src/mail/templates/Welcome-email.html"@,
        draft.placeholders@.len() == 1,
        draft.placeholders@[0].0@ == "{{username}}"@,
        draft.placeholders@[0].1@ == username@,
{
    let mut placeholders: Vec<(String, String)> = Vec::new();
    placeholders.push((String::from_str("{{username}}"), String::from_str(username)));
    MailDraft {
        subject: String::from_str("Welcome to Application"),
        template_path: String::from_str("src/mail/templates/Welcome-email.html"),
        placeholders,
    }
}

/// The mail that carries the link to set a new password.
pub fn forgot_password_email(rest_link: &str, username: &str) -> (draft: MailDraft)
    ensures
        draft.subject@ == "Rest your Password"@,
        draft.template_path@ == "src/mail/templates/RestPassword-email.html"@,
        draft.placeholders@.len() == 2,
        draft.placeholders@[0].0@ == "{{username}}"@,
        draft.placeholders@[0].1@ == username@,
        draft.placeholders@[1].0@ == "{{rest_link}}"@,
        draft.placeholders@[1].1@ == rest_link@,
{
    let mut placeholders: Vec<(String, String)> = Vec::new();
    placeholders.push((String::from_str("{{username}}"), String::from_str(username)));
    placeholders.push((String::from_str("{{rest_link}}"), String::from_str(rest_link)));
    MailDraft {
        subject: String::from_str("Rest your Password"),
        template_path: String::from_str("src/mail/templates/RestPassword-email.html"),
        placeholders,
    }
}

} // verus!
