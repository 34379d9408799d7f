use stock_ledger::dates::CalendarDate;
use stock_ledger::dtos::{FilterUserDto, LoginUserDto};
use stock_ledger::handler::products::get_product;
use stock_ledger::handler::users::get_user;
use stock_ledger::models::{User, UserRole};
use stock_ledger::validation::Violation;

fn user(id: u128) -> User {
    User {
        id,
        first_name: "Ada".to_string(),
        last_name: "Byron".to_string(),
        email: "ada@example.com".to_string(),
        password: "secret-hash".to_string(),
        role: UserRole::Driver,
        address: Some("1 Main St".to_string()),
        city: None,
        district: Some("North".to_string()),
        contact_number: None,
        created_at: Some(10),
        updated_at: Some(20),
    }
}

#[test]
fn dates_are_read_as_year_month_day() {
    assert_eq!(CalendarDate::parse("2015-09-05"), Some(CalendarDate::new(2015, 9, 5)));
    assert_eq!(CalendarDate::parse("2024-02-29"), Some(CalendarDate::new(2024, 2, 29)));
    assert_eq!(CalendarDate::parse("2023-02-29"), None);
    assert_eq!(CalendarDate::parse("2015/09/05"), None);
    assert_eq!(CalendarDate::parse("05-09-2015x"), None);
    assert_eq!(CalendarDate::parse(""), None);
    assert_eq!(CalendarDate::parse("2015-09-05T10:00:00"), None);
}

#[test]
fn dates_are_written_as_year_month_day() {
    assert_eq!(CalendarDate::new(2015, 9, 5).to_text(), Some("2015-09-05".to_string()));
    assert_eq!(CalendarDate::new(0, 1, 1).to_text(), Some("0000-01-01".to_string()));
    assert_eq!(CalendarDate::new(10000, 12, 31).to_text(), Some("+10000-12-31".to_string()));
    assert_eq!(CalendarDate::new(2015, 2, 30).to_text(), None);
    assert_eq!(CalendarDate::new(2015, 13, 1).to_text(), None);
    let date = CalendarDate::parse("1999-12-31").unwrap();
    assert_eq!(date.to_text().unwrap(), "1999-12-31");
}

#[test]
fn identities_are_shown_hyphenated_in_lower_case() {
    let shown = FilterUserDto::filter_user(&user(0xa1a2a3a4b1b2c1c2d1d2d3d4d5d6d7d8));
    assert_eq!(shown.id, "a1a2a3a4-b1b2-c1c2-d1d2-d3d4d5d6d7d8");
    assert_eq!(FilterUserDto::filter_user(&user(0)).id, "00000000-0000-0000-0000-000000000000");
    assert_eq!(FilterUserDto::filter_user(&user(0xABCDEF)).id, "00000000-0000-0000-0000-000000abcdef");
    assert_eq!(FilterUserDto::filter_user(&user(u128::MAX)).id, "ffffffff-ffff-ffff-ffff-ffffffffffff");
}

#[test]
fn identities_are_read_from_text() {
    assert_eq!(
        get_product("a1a2a3a4-b1b2-c1c2-d1d2-d3d4d5d6d7d8"),
        Ok(0xa1a2a3a4b1b2c1c2d1d2d3d4d5d6d7d8)
    );
    assert_eq!(get_product("00000000000000000000000000000007"), Ok(7));
    assert_eq!(get_user("550e8400-e29b-41d4-a716-446655440000"), Ok(0x550e8400e29b41d4a716446655440000));
    let bad_product = get_product("not-an-id").unwrap_err();
    assert_eq!(bad_product.status, 400);
    assert_eq!(bad_product.message, "Invalid product ID");
    let bad_user = get_user("").unwrap_err();
    assert_eq!(bad_user.status, 400);
    assert_eq!(bad_user.message, "Invalid user ID");
}

#[test]
fn shown_identities_are_read_back() {
    let mut id: u128 = 1;
    for round in 0..200u32 {
        let shown = FilterUserDto::filter_user(&user(id));
        let digits = format!("{:032x}", id);
        let expected = format!(
            "{}-{}-{}-{}-{}",
            &digits[0..8],
            &digits[8..12],
            &digits[12..16],
            &digits[16..20],
            &digits[20..32]
        );
        assert_eq!(shown.id, expected);
        assert_eq!(get_user(&shown.id), Ok(id));
        assert_eq!(get_product(&shown.id), Ok(id));
        id = id.wrapping_mul(0x9e3779b97f4a7c15f39cc0605cedc835).wrapping_add(round as u128);
    }
    for id in [0, u128::MAX, 1 << 127, 0xffff_ffff] {
        assert_eq!(get_user(&FilterUserDto::filter_user(&user(id)).id), Ok(id));
    }
}

#[test]
fn e_mail_addresses_are_checked() {
    let good = LoginUserDto { email: "email@here.com".to_string(), password: "123456".to_string() };
    assert_eq!(good.validate(), Vec::<Violation>::new());
    let literal = LoginUserDto { email: "email@[127.0.0.1]".to_string(), password: "123456".to_string() };
    assert!(literal.validate().is_empty());
    let bad = LoginUserDto { email: "email@here..com".to_string(), password: "123456".to_string() };
    assert_eq!(bad.validate(), vec![Violation::EmailInvalid]);
    let no_at = LoginUserDto { email: "here.com".to_string(), password: "123456".to_string() };
    assert_eq!(no_at.validate(), vec![Violation::EmailInvalid]);
}
