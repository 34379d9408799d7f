use stock_ledger::access::{authorize, is_allowed, Operation};
use stock_ledger::dates::CalendarDate;
use stock_ledger::dtos::{
    copy_text, page_offset, CreateDeliveryDto, CreateSaleRequest, CreateTruckLoadRequest,
    DeliveryProductDto, FilterUserDto, LoginUserDto, RegisterUserDto, RequestQueryDto,
    SaleProductItem, TruckLoadProductItem,
};
use stock_ledger::error::{ErrorMessage, HttpError};
use stock_ledger::handler::users::{
    get_users, user_found, user_key, users_listed, Page, UserKey,
};
use stock_ledger::handler::{allowance, auth, delivery, payment, products, sales, shops, truck_load, trucks};
use stock_ledger::models::{
    Allowance, Delivery, Payment, Product, Sale, Shop, Truck, TruckAllowance, TruckLoad, User,
    UserRole,
};
use stock_ledger::money::Amount;
use stock_ledger::stock::LineItem;
use stock_ledger::validation::Violation;

const ROLES: [UserRole; 3] = [UserRole::Admin, UserRole::Manager, UserRole::Driver];

fn denied(e: &HttpError) -> bool {
    e.status == 403 && e.message == "You are not allowed to perform this action"
}

fn user(id: u128, first_name: &str) -> User {
    User {
        id,
        first_name: first_name.to_string(),
        last_name: "Byron".to_string(),
        email: "ada@example.com".to_string(),
        password: "secret-hash".to_string(),
        role: UserRole::Manager,
        address: Some("1 Main St".to_string()),
        city: None,
        district: Some("North".to_string()),
        contact_number: None,
        created_at: Some(10),
        updated_at: Some(20),
    }
}

fn registration() -> RegisterUserDto {
    RegisterUserDto {
        first_name: "Ada".to_string(),
        last_name: "Byron".to_string(),
        email: "ada@example.com".to_string(),
        password: "abcdef".to_string(),
        password_confirm: "abcdef".to_string(),
        address: None,
        city: None,
        district: None,
        contact_number: None,
        role: None,
    }
}

#[test]
fn roles_open_the_operations_meant_for_them() {
    let managing = [
        Operation::CreateProduct,
        Operation::CreateDelivery,
        Operation::CreateTruckLoad,
        Operation::ViewTruckLoads,
        Operation::CreateAllowance,
        Operation::CreateTruckAllowance,
        Operation::CreateTruck,
        Operation::ViewTrucks,
        Operation::CreateShop,
        Operation::ViewShops,
    ];
    for operation in managing {
        assert!(is_allowed(UserRole::Admin, operation));
        assert!(is_allowed(UserRole::Manager, operation));
        assert!(!is_allowed(UserRole::Driver, operation));
    }
    for operation in [Operation::CreateSale, Operation::CreatePayment] {
        assert!(!is_allowed(UserRole::Admin, operation));
        assert!(!is_allowed(UserRole::Manager, operation));
        assert!(is_allowed(UserRole::Driver, operation));
    }
    assert!(is_allowed(UserRole::Admin, Operation::UpdateTruckMaxAllowance));
    assert!(!is_allowed(UserRole::Manager, Operation::UpdateTruckMaxAllowance));
    assert!(!is_allowed(UserRole::Driver, Operation::UpdateTruckMaxAllowance));
    assert_eq!(authorize(UserRole::Driver, Operation::CreateSale), Ok(()));
    assert!(denied(&authorize(UserRole::Driver, Operation::CreateShop).unwrap_err()));
}

#[test]
fn role_names_are_lower_case() {
    assert_eq!(UserRole::Admin.to_str(), "admin");
    assert_eq!(UserRole::Manager.to_str(), "manager");
    assert_eq!(UserRole::Driver.to_str(), "driver");
}

#[test]
fn fixed_messages_have_their_texts() {
    assert_eq!(ErrorMessage::PermissionDenied.to_str(), "You are not allowed to perform this action");
    assert_eq!(ErrorMessage::InvalidDateFormat.to_str(), "Invalid date format");
    assert_eq!(ErrorMessage::InvalidProductId.to_str(), "Invalid product ID");
    assert_eq!(ErrorMessage::ProductNotFound.to_str(), "Product not found");
    assert_eq!(ErrorMessage::InvalidUserId.to_str(), "Invalid user ID");
    assert_eq!(ErrorMessage::UserNotFound.to_str(), "User not found");
    assert_eq!(ErrorMessage::WrongCredentials.to_str(), "Invalid email or password");
    assert_eq!(ErrorMessage::EmailExist.to_str(), "Email already exists");
    assert_eq!(HttpError::new("x", 418), HttpError { message: "x".to_string(), status: 418 });
    assert_eq!(HttpError::bad_request("b").status, 400);
    assert_eq!(HttpError::server_error("s").status, 500);
    assert_eq!(HttpError::unique_constraint_violation("u").status, 409);
    assert_eq!(HttpError::rejection(ErrorMessage::UserNotFound).message, "User not found");
    assert!(denied(&HttpError::permission_denied()));
}

#[test]
fn a_delivery_request_is_read_for_managers_and_admins() {
    let body = CreateDeliveryDto {
        date: "2024-05-17".to_string(),
        products: vec![
            DeliveryProductDto { product_id: 1, quantity: 5 },
            DeliveryProductDto { product_id: 2, quantity: 0 },
        ],
    };
    for role in [UserRole::Admin, UserRole::Manager] {
        let order = delivery::create_delivery(role, 77, &body).unwrap();
        assert_eq!(order.user_id, 77);
        assert_eq!(order.date, CalendarDate::new(2024, 5, 17));
        assert_eq!(
            order.products,
            vec![LineItem { product_id: 1, quantity: 5 }, LineItem { product_id: 2, quantity: 0 }]
        );
    }
    assert!(denied(&delivery::create_delivery(UserRole::Driver, 77, &body).unwrap_err()));
    let undated = CreateDeliveryDto { date: "17.05.2024".to_string(), products: Vec::new() };
    let refused = delivery::create_delivery(UserRole::Admin, 77, &undated).unwrap_err();
    assert_eq!(refused.status, 400);
    assert_eq!(refused.message, "Invalid date format");
    assert!(denied(&delivery::create_delivery(UserRole::Driver, 77, &undated).unwrap_err()));
}

#[test]
fn delivery_answers_carry_the_records() {
    let record = Delivery { deliveryid: 3, date: CalendarDate::new(2024, 5, 17), userid: 9 };
    let answer = delivery::delivery_created(record);
    assert_eq!(answer.status, "success");
    assert_eq!(answer.delivery, record);
    let list = delivery::get_delivery_history(vec![record, record]);
    assert_eq!(list.status, "success");
    assert_eq!(list.deliveries, vec![record, record]);
    let lines = delivery::line_items(&vec![DeliveryProductDto { product_id: 8, quantity: -1 }]);
    assert_eq!(lines, vec![LineItem { product_id: 8, quantity: -1 }]);
}

#[test]
fn a_truck_load_request_names_its_driver() {
    let body = CreateTruckLoadRequest {
        truck_id: 4,
        driver_id: 5,
        date: CalendarDate::new(2024, 5, 18),
        products: vec![TruckLoadProductItem { product_id: 1, quantity: 30 }],
    };
    let order = truck_load::create_truck_load(UserRole::Manager, &body).unwrap();
    assert_eq!(order.driver_id, 5);
    assert_eq!(order.truck_id, 4);
    assert_eq!(order.date, body.date);
    assert_eq!(order.products, vec![LineItem { product_id: 1, quantity: 30 }]);
    assert!(truck_load::create_truck_load(UserRole::Admin, &body).is_ok());
    assert!(denied(&truck_load::create_truck_load(UserRole::Driver, &body).unwrap_err()));
}

#[test]
fn truck_loads_are_listed_by_their_dates() {
    let load = |id: u128, day: u32| TruckLoad {
        truckloadid: id,
        date: CalendarDate::new(2024, 5, day),
        userid: 50 + id,
        truckid: 2,
        created_at: None,
        updated_at: None,
    };
    let created = truck_load::truck_load_created(&load(1, 18));
    assert_eq!(created.truckloadid, 1);
    assert_eq!(created.driver_id, 51);
    assert_eq!(created.message, "Truck load created successfully");
    let listed = truck_load::get_truck_load_history(UserRole::Admin, &vec![load(1, 18), load(2, 3)]).unwrap();
    assert_eq!(listed.len(), 2);
    assert_eq!(listed[0].truckloadid, 1);
    assert_eq!(listed[0].message, "Truck load on 2024-05-18");
    assert_eq!(listed[1].driver_id, 52);
    assert_eq!(listed[1].message, "Truck load on 2024-05-03");
    assert!(denied(&truck_load::get_truck_load_history(UserRole::Driver, &Vec::new()).unwrap_err()));
    assert_eq!(truck_load::get_truck_load_history(UserRole::Manager, &Vec::new()), Ok(Vec::new()));
    let broken = truck_load::get_truck_load_history(UserRole::Manager, &vec![load(1, 18), load(2, 32)]).unwrap_err();
    assert_eq!(broken.status, 500);
    assert_eq!(broken.message, "Invalid date in store");
    assert_eq!(truck_load::list_entry(&load(2, 32)), None);
}

#[test]
fn sales_and_payments_are_for_drivers() {
    let body = CreateSaleRequest {
        truckload_id: 1,
        shop_id: 2,
        date: CalendarDate::new(2024, 5, 19),
        products: vec![SaleProductItem { product_id: 1, quantity: 20 }],
    };
    let order = sales::create_sale(UserRole::Driver, &body).unwrap();
    assert_eq!(order.truckload_id, 1);
    assert_eq!(order.shop_id, 2);
    assert_eq!(order.date, body.date);
    assert_eq!(order.products, vec![LineItem { product_id: 1, quantity: 20 }]);
    assert!(denied(&sales::create_sale(UserRole::Admin, &body).unwrap_err()));
    assert!(denied(&sales::create_sale(UserRole::Manager, &body).unwrap_err()));
    assert_eq!(payment::create_payment(UserRole::Driver), Ok(()));
    assert!(denied(&payment::create_payment(UserRole::Manager).unwrap_err()));
    let sale = Sale::open(6, 1, 2, body.date, Amount::zero(), 0);
    let recorded = sales::sale_recorded(&sale);
    assert_eq!(recorded.salesid, 6);
    assert_eq!(recorded.message, "Sale recorded successfully");
    let paid = payment::payment_created(&Payment {
        paymentid: 12,
        salesid: 6,
        amount: Amount::from_hundredths(1),
        method: "cash".to_string(),
        date: body.date,
        created_at: None,
        updated_at: None,
    });
    assert_eq!(paid.paymentid, 12);
    assert_eq!(paid.message, "Payment created successfully");
}

#[test]
fn allowances_are_for_managers_and_admins() {
    for role in ROLES {
        let open = role != UserRole::Driver;
        assert_eq!(allowance::create_allowance(role).is_ok(), open);
        assert_eq!(allowance::create_truck_allowance(role).is_ok(), open);
        assert_eq!(products::create_product(role).is_ok(), open);
        assert_eq!(trucks::create_truck(role).is_ok(), open);
        assert_eq!(shops::create_shop(role).is_ok(), open);
        assert_eq!(trucks::update_truck_max_allowance(role).is_ok(), role == UserRole::Admin);
    }
    assert!(denied(&allowance::create_allowance(UserRole::Driver).unwrap_err()));
    let date = CalendarDate::new(2024, 5, 20);
    let recorded = allowance::allowance_recorded(&Allowance {
        allowanceid: 3,
        date,
        amount: Amount::from_hundredths(5),
        notes: None,
        created_at: None,
        updated_at: None,
    });
    assert_eq!(recorded.allowanceid, 3);
    assert_eq!(recorded.message, "Allowance recorded successfully");
    let share = allowance::truck_allowance_created(&TruckAllowance {
        id: 8,
        allowanceid: 3,
        truckid: 1,
        amount: Amount::from_hundredths(5),
        created_at: None,
        updated_at: None,
    });
    assert_eq!(share.truck_allowance_id, 8);
    assert_eq!(share.message, "Truck allowance created successfully");
}

#[test]
fn products_are_answered_or_not_found() {
    let product = || Product {
        id: 1,
        name: "A".to_string(),
        price: Amount::from_hundredths(1000),
        unit_type: "box".to_string(),
        commission: Amount::zero(),
        created_at: Some(1),
        updated_at: Some(1),
    };
    let answer = products::product_answer(product());
    assert_eq!(answer.status, "success");
    assert_eq!(answer.product, product());
    assert_eq!(products::product_found(Some(product())).unwrap().product, product());
    let missing = products::product_found(None).unwrap_err();
    assert_eq!(missing.status, 400);
    assert_eq!(missing.message, "Product not found");
    let all = products::get_all_products(vec![product(), product()]);
    assert_eq!(all.status, "success");
    assert_eq!(all.results, 2);
    assert_eq!(all.products.len(), 2);
    assert_eq!(product().duplicate(), product());
}

#[test]
fn trucks_and_shops_are_listed_with_their_details() {
    let truck = |id: u128, most: Option<Amount>| Truck {
        truckid: id,
        trucknumber: format!("WP-{}", id),
        model: "Canter".to_string(),
        max_allowance: most,
    };
    assert_eq!(trucks::truck_created(&truck(1, None)).message, "Truck created successfully");
    let listed = trucks::get_all_trucks(UserRole::Manager, &vec![truck(1, None), truck(22, None)]).unwrap();
    assert_eq!(listed[0].truckid, 1);
    assert_eq!(listed[0].message, "Truck WP-1 (Canter)");
    assert_eq!(listed[1].message, "Truck WP-22 (Canter)");
    assert!(denied(&trucks::get_all_trucks(UserRole::Driver, &Vec::new()).unwrap_err()));
    let unset = trucks::max_allowance_updated(&truck(1, None));
    assert_eq!(unset.max_allowance, Amount::from_units(4000).unwrap());
    assert_eq!(unset.trucknumber, "WP-1");
    let set = trucks::max_allowance_updated(&truck(1, Some(Amount::from_hundredths(12345))));
    assert_eq!(set.max_allowance.hundredths(), 12345);
    assert_eq!(set.truckid, 1);

    let shop = Shop {
        shopid: 5,
        name: "Corner".to_string(),
        address: "2 High St".to_string(),
        city: None,
        district: None,
        contact_number: None,
        created_at: None,
        updated_at: None,
    };
    assert_eq!(shops::shop_created(&shop).shopid, 5);
    assert_eq!(shops::shop_created(&shop).message, "Shop created successfully");
    let shown = shops::get_all_shops(UserRole::Admin, &vec![shop]).unwrap();
    assert_eq!(shown[0].shopid, 5);
    assert_eq!(shown[0].message, "Corner (2 High St)");
    assert!(denied(&shops::get_all_shops(UserRole::Driver, &Vec::new()).unwrap_err()));
}

#[test]
fn a_login_is_checked_field_by_field() {
    let empty = LoginUserDto { email: String::new(), password: String::new() };
    assert_eq!(
        empty.validate(),
        vec![
            Violation::EmailRequired,
            Violation::EmailInvalid,
            Violation::PasswordRequired,
            Violation::PasswordTooShort
        ]
    );
    let short = LoginUserDto { email: "ada@example.com".to_string(), password: "12345".to_string() };
    assert_eq!(short.validate(), vec![Violation::PasswordTooShort]);
    let refused = auth::login(&short).unwrap_err();
    assert_eq!(refused.status, 400);
    assert_eq!(refused.message, "Password must be at least 6 characters");
    assert_eq!(auth::login(&empty).unwrap_err().message, "Email is required");
    let umlauts = LoginUserDto { email: "ada@example.com".to_string(), password: "äöüäöü".to_string() };
    assert_eq!(auth::login(&umlauts), Ok(()));
}

#[test]
fn a_registration_is_checked_field_by_field() {
    assert_eq!(registration().validate(), Vec::<Violation>::new());
    assert_eq!(auth::register(&registration()), Ok(UserRole::Manager));
    let mut driver = registration();
    driver.role = Some(UserRole::Driver);
    assert_eq!(auth::register(&driver), Ok(UserRole::Driver));
    assert_eq!(driver.role_or_default(), UserRole::Driver);
    let mut wrong = registration();
    wrong.first_name = String::new();
    wrong.last_name = String::new();
    wrong.email = "nobody".to_string();
    wrong.password = "abc".to_string();
    wrong.password_confirm = "abd".to_string();
    assert_eq!(
        wrong.validate(),
        vec![
            Violation::FirstNameRequired,
            Violation::LastNameRequired,
            Violation::EmailInvalid,
            Violation::PasswordTooShort,
            Violation::PasswordMismatch
        ]
    );
    let refused = auth::register(&wrong).unwrap_err();
    assert_eq!(refused.status, 400);
    assert_eq!(refused.message, "First name is required");
    let mut mismatch = registration();
    mismatch.password_confirm = "abcdeg".to_string();
    assert_eq!(auth::register(&mismatch).unwrap_err().message, "Passwords do not match");
}

#[test]
fn violations_name_their_fields() {
    let all = [
        (Violation::FirstNameRequired, "first_name", "First name is required"),
        (Violation::LastNameRequired, "last_name", "Last name is required"),
        (Violation::EmailRequired, "email", "Email is required"),
        (Violation::EmailInvalid, "email", "Email is invalid"),
        (Violation::PasswordRequired, "password", "Password is required"),
        (Violation::PasswordTooShort, "password", "Password must be at least 6 characters"),
        (Violation::PasswordMismatch, "password_confirm", "Passwords do not match"),
        (Violation::PageOutOfRange, "page", "Page must be at least 1"),
        (Violation::LimitOutOfRange, "limit", "Limit must be between 1 and 50"),
    ];
    for (violation, field, message) in all {
        assert_eq!(violation.field(), field);
        assert_eq!(violation.message(), message);
    }
}

#[test]
fn login_answers() {
    assert_eq!(auth::TOKEN_MAX_AGE, 21600);
    assert_eq!(auth::credentials_checked(Some(7), true), Ok(7));
    for (found, matches) in [(Some(7), false), (None, true), (None, false)] {
        let refused = auth::credentials_checked(found, matches).unwrap_err();
        assert_eq!(refused.status, 400);
        assert_eq!(refused.message, "Invalid email or password");
    }
    let answer = auth::logged_in("tok".to_string());
    assert_eq!(answer.status, "success");
    assert_eq!(answer.token, "tok");
    let welcome = auth::registered();
    assert_eq!(welcome.status, "success");
    assert_eq!(welcome.message, "Registration successful!");
    let taken = auth::email_taken();
    assert_eq!(taken.status, 409);
    assert_eq!(taken.message, "Email already exists");
}

#[test]
fn paging_defaults_to_the_first_page_of_twenty() {
    let open = RequestQueryDto { page: None, limit: None };
    assert_eq!(open.validate(), Vec::<Violation>::new());
    assert_eq!(open.page_or_default(), 1);
    assert_eq!(open.limit_or_default(), 20);
    assert_eq!(get_users(&open), Ok(Page { page: 1, limit: 20, offset: 0 }));
    let third = RequestQueryDto { page: Some(3), limit: Some(50) };
    assert_eq!(get_users(&third), Ok(Page { page: 3, limit: 50, offset: 100 }));
    let zero = RequestQueryDto { page: Some(0), limit: Some(51) };
    assert_eq!(zero.validate(), vec![Violation::PageOutOfRange, Violation::LimitOutOfRange]);
    assert_eq!(get_users(&zero).unwrap_err().status, 400);
    assert_eq!(get_users(&zero).unwrap_err().message, "Page must be at least 1");
    let none = RequestQueryDto { page: Some(1), limit: Some(0) };
    assert_eq!(none.validate(), vec![Violation::LimitOutOfRange]);
    let far = RequestQueryDto { page: Some(u32::MAX as usize), limit: Some(50) };
    assert_eq!(get_users(&far).unwrap_err().message, "Page out of range");
}

#[test]
fn page_offsets_count_the_entries_before_the_page() {
    assert_eq!(page_offset(1, 20), Some(0));
    assert_eq!(page_offset(2, 20), Some(20));
    assert_eq!(page_offset(7, 3), Some(18));
    assert_eq!(page_offset(0, 20), None);
    assert_eq!(page_offset(u32::MAX, 1), Some(u32::MAX - 1));
    assert_eq!(page_offset(u32::MAX, 2), None);
    assert_eq!(page_offset(5, 0), Some(0));
}

#[test]
fn users_are_looked_up_by_the_first_key_known() {
    assert_eq!(user_key(Some(7), Some("Ada"), Some("a@b.c")), Some(UserKey::Id(7)));
    assert_eq!(user_key(None, Some("Ada"), Some("a@b.c")), Some(UserKey::FirstName("Ada".to_string())));
    assert_eq!(user_key(None, None, Some("a@b.c")), Some(UserKey::Email("a@b.c".to_string())));
    assert_eq!(user_key(None, None, None), None);
}

#[test]
fn users_are_shown_without_their_passwords() {
    let ada = user(0x10, "Ada");
    let shown = FilterUserDto::filter_user(&ada);
    assert_eq!(
        shown,
        FilterUserDto {
            id: "00000000-0000-0000-0000-000000000010".to_string(),
            first_name: "Ada".to_string(),
            last_name: "Byron".to_string(),
            email: "ada@example.com".to_string(),
            role: "manager".to_string(),
            address: Some("1 Main St".to_string()),
            city: None,
            district: Some("North".to_string()),
            contact_number: None,
            created_at: 10,
            updated_at: 20,
        }
    );
    assert_eq!(FilterUserDto::try_filter_user(&ada), Some(shown));
    let mut unstamped = user(1, "Bob");
    unstamped.updated_at = None;
    assert_eq!(FilterUserDto::try_filter_user(&unstamped), None);
    assert_eq!(user_found(&Some(user(0x10, "Ada"))).unwrap().first_name, "Ada");
    let missing = user_found(&None).unwrap_err();
    assert_eq!(missing.status, 400);
    assert_eq!(missing.message, "User not found");
    let list = users_listed(&vec![user(1, "Ada"), user(2, "Bob")], 17);
    assert_eq!(list.status, "success");
    assert_eq!(list.results, 17);
    assert_eq!(list.users.len(), 2);
    assert_eq!(list.users[1].first_name, "Bob");
    assert_eq!(list.users[1].id, "00000000-0000-0000-0000-000000000002");
    assert_eq!(copy_text(&Some("x".to_string())), Some("x".to_string()));
    assert_eq!(copy_text(&None), None);
}
