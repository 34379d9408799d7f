use stock_ledger::error::{Entity, LedgerError, StorageError, ValidationError};
use stock_ledger::ledger::require_known;
use stock_ledger::models::WarehouseStock;
use stock_ledger::stock::{credit_row, debit_row, validate_items, LineItem, StockLedger};

fn item(product_id: u128, quantity: i32) -> LineItem {
    LineItem { product_id, quantity }
}

#[test]
fn credit_creates_the_row_on_first_delivery() {
    let mut stock = StockLedger::new();
    assert_eq!(stock.quantity(1), None);
    assert_eq!(stock.on_hand(1), 0);
    assert_eq!(stock.credit(1, 40), Ok(40));
    assert_eq!(stock.quantity(1), Some(40));
    assert_eq!(stock.credit(1, 2), Ok(42));
    assert_eq!(stock.on_hand(1), 42);
    assert_eq!(stock.quantity(2), None);
}

#[test]
fn credit_rejects_what_is_not_positive_or_does_not_fit() {
    let mut stock = StockLedger::new();
    assert_eq!(
        stock.credit(1, 0),
        Err(LedgerError::Validation(ValidationError::NonPositiveQuantity {
            product_id: 1,
            quantity: 0
        }))
    );
    assert_eq!(stock.quantity(1), None);
    assert_eq!(stock.credit(1, i32::MAX), Ok(i32::MAX));
    assert_eq!(
        stock.credit(1, 1),
        Err(LedgerError::Storage(StorageError::QuantityOutOfRange { product_id: 1 }))
    );
    assert_eq!(stock.on_hand(1), i32::MAX);
}

#[test]
fn debit_checked_returns_the_new_quantity_or_what_is_available() {
    let mut stock = StockLedger::new();
    stock.credit(9, 100).unwrap();
    assert_eq!(stock.debit_checked(9, 30), Ok(70));
    assert_eq!(
        stock.debit_checked(9, 71),
        Err(LedgerError::InsufficientStock { product_id: 9, requested: 71, available: 70 })
    );
    assert_eq!(stock.on_hand(9), 70);
    assert_eq!(stock.debit_checked(9, 70), Ok(0));
    assert_eq!(stock.quantity(9), Some(0));
    assert_eq!(
        stock.debit_checked(9, -1),
        Err(LedgerError::Validation(ValidationError::NonPositiveQuantity {
            product_id: 9,
            quantity: -1
        }))
    );
    assert_eq!(
        stock.debit_checked(4, 1),
        Err(LedgerError::InsufficientStock { product_id: 4, requested: 1, available: 0 })
    );
    assert_eq!(stock.quantity(4), None);
}

#[test]
fn load_sets_a_row_as_the_store_holds_it() {
    let mut stock = StockLedger::new();
    assert_eq!(stock.load(3, 12), Ok(()));
    assert_eq!(stock.load(3, 7), Ok(()));
    assert_eq!(stock.quantity(3), Some(7));
    assert_eq!(
        stock.load(3, -1),
        Err(LedgerError::Storage(StorageError::QuantityOutOfRange { product_id: 3 }))
    );
    assert_eq!(stock.quantity(3), Some(7));
    assert_eq!(stock.load(5, 0), Ok(()));
    assert_eq!(stock.quantity(5), Some(0));
}

#[test]
fn receive_credits_every_line_or_none() {
    let mut stock = StockLedger::new();
    assert_eq!(stock.receive(&vec![item(1, 5), item(2, 6), item(1, 7)]), Ok(()));
    assert_eq!(stock.on_hand(1), 12);
    assert_eq!(stock.on_hand(2), 6);
    let too_much = vec![item(2, 1), item(1, i32::MAX - 11)];
    assert_eq!(
        stock.receive(&too_much),
        Err(LedgerError::Storage(StorageError::QuantityOutOfRange { product_id: 1 }))
    );
    assert_eq!(stock.on_hand(1), 12);
    assert_eq!(stock.on_hand(2), 6);
    assert_eq!(stock.receive(&vec![item(1, i32::MAX - 12)]), Ok(()));
    assert_eq!(stock.on_hand(1), i32::MAX);
    assert_eq!(stock.receive(&Vec::new()), Ok(()));
}

#[test]
fn dispatch_debits_every_line_or_none() {
    let mut stock = StockLedger::new();
    stock.receive(&vec![item(1, 10), item(2, 10)]).unwrap();
    assert_eq!(stock.dispatch(&vec![item(1, 3), item(2, 4), item(1, 7)]), Ok(()));
    assert_eq!(stock.on_hand(1), 0);
    assert_eq!(stock.on_hand(2), 6);
    assert_eq!(
        stock.dispatch(&vec![item(2, 6), item(2, 1)]),
        Err(LedgerError::InsufficientStock { product_id: 2, requested: 1, available: 0 })
    );
    assert_eq!(stock.on_hand(2), 6);
    assert_eq!(
        stock.dispatch(&vec![item(2, 7), item(2, 0)]),
        Err(LedgerError::Validation(ValidationError::NonPositiveQuantity {
            product_id: 2,
            quantity: 0
        }))
    );
    assert_eq!(stock.dispatch(&Vec::new()), Ok(()));
    assert_eq!(stock.on_hand(2), 6);
}

#[test]
fn snapshot_is_independent_of_the_ledger() {
    let mut stock = StockLedger::new();
    stock.credit(1, 5).unwrap();
    let copy = stock.snapshot();
    stock.credit(1, 5).unwrap();
    assert_eq!(copy.on_hand(1), 5);
    assert_eq!(stock.on_hand(1), 10);
}

#[test]
fn validation_reports_the_first_invalid_line() {
    assert_eq!(validate_items(&vec![item(1, 1), item(2, 2)]), Ok(()));
    assert_eq!(validate_items(&Vec::new()), Ok(()));
    assert_eq!(
        validate_items(&vec![item(1, 1), item(2, -2), item(3, 0)]),
        Err(LedgerError::Validation(ValidationError::NonPositiveQuantity {
            product_id: 2,
            quantity: -2
        }))
    );
}

#[test]
fn rows_decide_credits_and_debits() {
    assert_eq!(credit_row(None, 1, 5), Ok(5));
    assert_eq!(credit_row(Some(7), 1, 5), Ok(12));
    assert_eq!(
        credit_row(Some(i32::MAX - 4), 1, 5),
        Err(LedgerError::Storage(StorageError::QuantityOutOfRange { product_id: 1 }))
    );
    assert_eq!(credit_row(Some(i32::MAX - 5), 1, 5), Ok(i32::MAX));
    assert_eq!(
        credit_row(Some(7), 1, 0),
        Err(LedgerError::Validation(ValidationError::NonPositiveQuantity {
            product_id: 1,
            quantity: 0
        }))
    );
    assert_eq!(debit_row(Some(70), 1, 30), Ok(40));
    assert_eq!(debit_row(Some(70), 1, 70), Ok(0));
    assert_eq!(
        debit_row(Some(70), 1, 80),
        Err(LedgerError::InsufficientStock { product_id: 1, requested: 80, available: 70 })
    );
    assert_eq!(
        debit_row(None, 1, 1),
        Err(LedgerError::InsufficientStock { product_id: 1, requested: 1, available: 0 })
    );
    assert_eq!(
        debit_row(Some(70), 1, -1),
        Err(LedgerError::Validation(ValidationError::NonPositiveQuantity {
            product_id: 1,
            quantity: -1
        }))
    );
}

#[test]
fn a_ledger_is_restored_from_the_rows_of_the_store() {
    let row = |stockid: u128, productid: u128, quantity: i32| WarehouseStock { stockid, productid, quantity };
    let stock = StockLedger::restore(&vec![row(1, 10, 5), row(2, 11, 0), row(3, 10, 8)]).unwrap();
    assert_eq!(stock.quantity(10), Some(8));
    assert_eq!(stock.quantity(11), Some(0));
    assert_eq!(stock.quantity(12), None);
    assert!(StockLedger::restore(&Vec::new()).unwrap().quantity(10).is_none());
    let refused = StockLedger::restore(&vec![row(1, 10, 5), row(2, 11, -1), row(3, 12, -2)]);
    assert_eq!(
        refused.err(),
        Some(LedgerError::Storage(StorageError::QuantityOutOfRange { product_id: 11 }))
    );
}

#[test]
fn a_batch_is_refused_at_the_first_line_not_known() {
    let items = vec![item(1, 1), item(2, 1), item(3, 1)];
    assert_eq!(require_known(&items, &vec![true, true, true]), Ok(()));
    assert_eq!(require_known(&Vec::new(), &Vec::new()), Ok(()));
    assert_eq!(
        require_known(&items, &vec![true, false, false]),
        Err(LedgerError::NotFound { entity: Entity::Product, id: 2 })
    );
    assert_eq!(
        require_known(&items, &vec![true, true]),
        Err(LedgerError::NotFound { entity: Entity::Product, id: 3 })
    );
}
