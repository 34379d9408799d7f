use stock_ledger::dates::CalendarDate;
use stock_ledger::error::{
    Entity, LedgerError, StorageError, ValidationError, BAD_REQUEST, CONFLICT,
    INTERNAL_SERVER_ERROR, NOT_FOUND,
};
use stock_ledger::models::{Sale, SaleStatus};
use stock_ledger::money::Amount;
use stock_ledger::sale::{price_items, sale_total, validate_amount, PricedLine};
use stock_ledger::stock::LineItem;

fn line(unit_price: i64, quantity: i32) -> PricedLine {
    PricedLine { product_id: 1, quantity, unit_price: Amount::from_hundredths(unit_price) }
}

#[test]
fn amounts_are_counted_in_hundredths() {
    assert_eq!(Amount::zero().hundredths(), 0);
    assert_eq!(Amount::from_units(10), Some(Amount::from_hundredths(1000)));
    assert_eq!(Amount::from_units(-3), Some(Amount::from_hundredths(-300)));
    assert_eq!(Amount::from_units(i64::MAX / 100 + 1), None);
    assert_eq!(Amount::from_units(i64::MAX / 100).unwrap().hundredths(), i64::MAX / 100 * 100);
    assert_eq!(Amount::or_zero(None), Amount::zero());
    assert_eq!(Amount::or_zero(Some(Amount::from_hundredths(9))).hundredths(), 9);
    assert!(Amount::from_hundredths(1).is_positive());
    assert!(!Amount::zero().is_positive());
    assert!(!Amount::from_hundredths(-1).is_positive());
    assert!(Amount::from_hundredths(5).at_least(Amount::from_hundredths(5)));
    assert!(!Amount::from_hundredths(4).at_least(Amount::from_hundredths(5)));
}

#[test]
fn amount_arithmetic_refuses_to_overflow() {
    let a = Amount::from_hundredths(250);
    assert_eq!(a.checked_add(Amount::from_hundredths(-50)), Some(Amount::from_hundredths(200)));
    assert_eq!(Amount::from_hundredths(i64::MAX).checked_add(Amount::from_hundredths(1)), None);
    assert_eq!(Amount::from_hundredths(i64::MIN).checked_add(Amount::from_hundredths(-1)), None);
    assert_eq!(a.times(4), Some(Amount::from_hundredths(1000)));
    assert_eq!(a.times(-4), Some(Amount::from_hundredths(-1000)));
    assert_eq!(a.times(0), Some(Amount::zero()));
    assert_eq!(Amount::from_hundredths(i64::MAX / 2 + 1).times(2), None);
}

#[test]
fn sale_total_sums_price_times_quantity() {
    assert_eq!(sale_total(&Vec::new()), Ok(Amount::zero()));
    assert_eq!(sale_total(&vec![line(1000, 20)]), Ok(Amount::from_hundredths(20000)));
    assert_eq!(
        sale_total(&vec![line(199, 3), line(1, 1), line(25000, 2)]),
        Ok(Amount::from_hundredths(597 + 1 + 50000))
    );
    assert_eq!(sale_total(&vec![line(-100, 2), line(50, 4)]), Ok(Amount::zero()));
}

#[test]
fn sale_total_fails_once_the_running_total_leaves_the_range() {
    let fault = Err(LedgerError::Storage(StorageError::AmountOutOfRange));
    assert_eq!(sale_total(&vec![line(i64::MAX, 1), line(1, 1)]), fault);
    assert_eq!(sale_total(&vec![line(i64::MAX, 2), line(-i64::MAX, 2)]), fault);
    assert_eq!(sale_total(&vec![line(i64::MAX, 1), line(-1, 1), line(1, 1)]), Ok(Amount::from_hundredths(i64::MAX)));
    assert_eq!(sale_total(&vec![line(i64::MIN, 1)]), Ok(Amount::from_hundredths(i64::MIN)));
    assert_eq!(sale_total(&vec![line(i64::MIN, 1), line(-1, 1)]), fault);
}

#[test]
fn a_sale_opens_pending_with_nothing_paid() {
    let date = CalendarDate::new(2025, 1, 31);
    let sale = Sale::open(4, 5, 6, date, Amount::from_hundredths(1500), 99);
    assert_eq!(
        sale,
        Sale {
            salesid: 4,
            truckloadid: 5,
            shopid: 6,
            date,
            status: SaleStatus::Pending,
            total_amount: Amount::from_hundredths(1500),
            paid_amount: Amount::zero(),
            created_at: Some(99),
            updated_at: Some(99),
        }
    );
    assert_eq!(sale.remaining(), Some(Amount::from_hundredths(1500)));
}

#[test]
fn payments_move_a_sale_from_pending_to_paid() {
    let date = CalendarDate::new(2025, 1, 31);
    let mut sale = Sale::open(0, 0, 0, date, Amount::from_hundredths(1000), 0);
    assert_eq!(sale.apply_payment(Amount::from_hundredths(999), 1), Ok(()));
    assert_eq!(sale.status, SaleStatus::Pending);
    assert_eq!(sale.paid_amount.hundredths(), 999);
    assert_eq!(sale.updated_at, Some(1));
    assert_eq!(sale.created_at, Some(0));
    assert_eq!(sale.apply_payment(Amount::from_hundredths(1), 2), Ok(()));
    assert_eq!(sale.status, SaleStatus::Paid);
    assert_eq!(sale.paid_amount, sale.total_amount);
    assert_eq!(sale.apply_payment(Amount::from_hundredths(500), 3), Ok(()));
    assert_eq!(sale.status, SaleStatus::Paid);
    assert_eq!(sale.paid_amount.hundredths(), 1500);
    assert_eq!(sale.remaining(), Some(Amount::zero()));
    assert_eq!(sale.total_amount.hundredths(), 1000);
}

#[test]
fn a_refused_payment_leaves_the_sale_as_it_was() {
    let date = CalendarDate::new(2025, 1, 31);
    let mut sale = Sale::open(0, 0, 0, date, Amount::from_hundredths(1000), 0);
    let before = sale;
    assert_eq!(
        sale.apply_payment(Amount::zero(), 5),
        Err(LedgerError::Validation(ValidationError::NonPositiveAmount { hundredths: 0 }))
    );
    assert_eq!(sale, before);
    sale.apply_payment(Amount::from_hundredths(i64::MAX), 6).unwrap();
    let full = sale;
    assert_eq!(
        sale.apply_payment(Amount::from_hundredths(1), 7),
        Err(LedgerError::Storage(StorageError::AmountOutOfRange))
    );
    assert_eq!(sale, full);
}

#[test]
fn a_sale_with_nothing_to_pay_stays_pending_until_paid() {
    let date = CalendarDate::new(2025, 1, 31);
    let mut sale = Sale::open(0, 0, 0, date, Amount::zero(), 0);
    assert_eq!(sale.status, SaleStatus::Pending);
    assert_eq!(sale.remaining(), Some(Amount::zero()));
    sale.apply_payment(Amount::from_hundredths(1), 1).unwrap();
    assert_eq!(sale.status, SaleStatus::Paid);
}

#[test]
fn remaining_of_a_debt_beyond_the_range_is_unknown() {
    let date = CalendarDate::new(2025, 1, 31);
    let mut sale = Sale::open(0, 0, 0, date, Amount::from_hundredths(i64::MAX), 0);
    sale.paid_amount = Amount::from_hundredths(-2);
    assert_eq!(sale.remaining(), None);
}

#[test]
fn failures_map_to_statuses_and_summaries() {
    let invalid = LedgerError::Validation(ValidationError::NonPositiveQuantity { product_id: 1, quantity: 0 });
    assert_eq!(invalid.status(), BAD_REQUEST);
    assert_eq!(invalid.summary(), "Quantity must be greater than zero");
    assert!(!invalid.is_storage_fault());
    let amount = LedgerError::Validation(ValidationError::NonPositiveAmount { hundredths: 0 });
    assert_eq!(amount.summary(), "Amount must be greater than zero");
    let short = LedgerError::InsufficientStock { product_id: 1, requested: 2, available: 1 };
    assert_eq!(short.status(), CONFLICT);
    assert_eq!(short.summary(), "Insufficient stock");
    let missing = LedgerError::NotFound { entity: Entity::Sale, id: 3 };
    assert_eq!(missing.status(), NOT_FOUND);
    assert_eq!(missing.summary(), "Sale not found");
    assert_eq!(LedgerError::NotFound { entity: Entity::Product, id: 3 }.summary(), "Product not found");
    assert_eq!(LedgerError::NotFound { entity: Entity::Allowance, id: 3 }.summary(), "Allowance not found");
    let fault = LedgerError::Storage(StorageError::AmountOutOfRange);
    assert_eq!(fault.status(), INTERNAL_SERVER_ERROR);
    assert_eq!(fault.summary(), "Amount out of range");
    assert!(fault.is_storage_fault());
    let range = LedgerError::Storage(StorageError::QuantityOutOfRange { product_id: 1 });
    assert_eq!(range.summary(), "Quantity out of range");
    let http = short.to_http();
    assert_eq!(http.status, 409);
    assert_eq!(http.message, "Insufficient stock");
}

#[test]
fn line_items_are_priced_with_what_was_looked_up() {
    let items = vec![LineItem { product_id: 1, quantity: 2 }, LineItem { product_id: 9, quantity: 3 }];
    let priced = price_items(&items, &vec![Some(Amount::from_hundredths(150)), Some(Amount::zero())]).unwrap();
    assert_eq!(
        priced,
        vec![
            PricedLine { product_id: 1, quantity: 2, unit_price: Amount::from_hundredths(150) },
            PricedLine { product_id: 9, quantity: 3, unit_price: Amount::zero() },
        ]
    );
    assert_eq!(sale_total(&priced), Ok(Amount::from_hundredths(300)));
    assert_eq!(
        price_items(&items, &vec![Some(Amount::zero()), None]),
        Err(LedgerError::NotFound { entity: Entity::Product, id: 9 })
    );
    assert_eq!(
        price_items(&items, &vec![None, None]),
        Err(LedgerError::NotFound { entity: Entity::Product, id: 1 })
    );
    assert_eq!(
        price_items(&items, &vec![Some(Amount::zero())]),
        Err(LedgerError::NotFound { entity: Entity::Product, id: 9 })
    );
    assert_eq!(price_items(&Vec::new(), &Vec::new()), Ok(Vec::new()));
}

#[test]
fn payment_amounts_must_be_positive() {
    assert_eq!(validate_amount(Amount::from_hundredths(1)), Ok(()));
    assert_eq!(
        validate_amount(Amount::zero()),
        Err(LedgerError::Validation(ValidationError::NonPositiveAmount { hundredths: 0 }))
    );
    assert_eq!(
        validate_amount(Amount::from_hundredths(-7)),
        Err(LedgerError::Validation(ValidationError::NonPositiveAmount { hundredths: -7 }))
    );
}
