use stock_ledger::mail::{
    create_verification_link, forgot_password_email, verification_email, welcome_email,
};

#[test]
fn verification_link_carries_the_token_as_query() {
    assert_eq!(
        create_verification_link("http://localhost:8000/api/auth/verify", "abc123"),
        "http://localhost:8000/api/auth/verify?token=abc123"
    );
    assert_eq!(create_verification_link("", ""), "?token=");
    assert_eq!(create_verification_link("https://x.y/v", "a b&c"), "https://x.y/v?token=a b&c");
}

#[test]
fn verification_mail_fills_name_and_link() {
    let draft = verification_email("Ada", "t0k");
    assert_eq!(draft.subject, "Email Verification");
    assert_eq!(draft.template_path, "src/mail/templates/Verification-email.html");
    assert_eq!(
        draft.placeholders,
        vec![
            ("{{username}}".to_string(), "Ada".to_string()),
            (
                "{{verification_link}}".to_string(),
                "http://localhost:8000/api/auth/verify?token=t0k".to_string()
            ),
        ]
    );
}

#[test]
fn welcome_and_password_mails_fill_their_placeholders() {
    let welcome = welcome_email("Ada");
    assert_eq!(welcome.subject, "Welcome to Application");
    assert_eq!(welcome.template_path, "src/mail/templates/Welcome-email.html");
    assert_eq!(welcome.placeholders, vec![("{{username}}".to_string(), "Ada".to_string())]);
    let forgot = forgot_password_email("https://x/reset?t=1", "Ada");
    assert_eq!(forgot.subject, "Rest your Password");
    assert_eq!(forgot.template_path, "src/mail/templates/RestPassword-email.html");
    assert_eq!(
        forgot.placeholders,
        vec![
            ("{{username}}".to_string(), "Ada".to_string()),
            ("{{rest_link}}".to_string(), "https://x/reset?t=1".to_string()),
        ]
    );
}
