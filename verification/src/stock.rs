//! The stock ledger: the on-hand quantity of each product in the warehouse.
//!
//! Deliveries credit it and truck loads debit it. A batch of line items is
//! applied as a whole or not at all, and no quantity ever drops below zero.

use crate::error::{LedgerError, StorageError, ValidationError};
use crate::models::WarehouseStock;
use std::collections::HashMap;
use vstd::prelude::*;

verus! {

broadcast use vstd::std_specs::hash::group_hash_axioms;

/// A product and a quantity of it, as part of a delivery, a truck load or a
/// sale.
#[derive(Clone, Copy, Debug, PartialEq, Eq, Structural)]
pub struct LineItem {
    pub product_id: u128,
    pub quantity: i32,
}

/// The quantity on hand of a product: that of its row, or zero where the
/// product has none yet.
pub open spec fn on_hand(levels: Map<u128, i32>, product_id: u128) -> int {
    if levels.contains_key(product_id) {
        levels[product_id] as int
    } else {
        0
    }
}

/// No product has a negative quantity on hand.
pub open spec fn non_negative(levels: Map<u128, i32>) -> bool {
    forall|p: u128| #[trigger] levels.contains_key(p) ==> levels[p] >= 0
}

/// The total quantity of a product over the line items of a batch.
pub open spec fn demand(items: Seq<LineItem>, product_id: u128) -> int
    decreases items.len(),
{
    if items.len() == 0 {
        0
    } else {
        demand(items.drop_last(), product_id) + if items.last().product_id == product_id {
            items.last().quantity as int
        } else {
            0
        }
    }
}

/// Whether some line item of the batch names the product.
pub open spec fn mentions(items: Seq<LineItem>, product_id: u128) -> bool {
    exists|k: int| 0 <= k < items.len() && (#[trigger] items[k]).product_id == product_id
}

/// Every line item asks for a quantity greater than zero.
pub open spec fn all_valid(items: Seq<LineItem>) -> bool {
    forall|k: int| 0 <= k < items.len() ==> (#[trigger] items[k]).quantity > 0
}

/// Line item `k` is the first of the batch whose quantity is not greater
/// than zero.
pub open spec fn first_invalid(items: Seq<LineItem>, k: int) -> bool {
    &&& 0 <= k < items.len()
    &&& items[k].quantity <= 0
    &&& forall|j: int| 0 <= j < k ==> (#[trigger] items[j]).quantity > 0
}

/// The failure reported for an invalid line item.
pub open spec fn invalid_item(item: LineItem) -> LedgerError {
    LedgerError::Validation(
        ValidationError::NonPositiveQuantity {
            product_id: item.product_id,
            quantity: item.quantity,
        },
    )
}

/// What is on hand of the product of line item `k` once the line items
/// before it have been debited.
pub open spec fn available_to(levels: Map<u128, i32>, items: Seq<LineItem>, k: int) -> int {
    on_hand(levels, items[k].product_id) - demand(items.take(k), items[k].product_id)
}

/// Line item `k` asks for no more than is left for it.
pub open spec fn covered(levels: Map<u128, i32>, items: Seq<LineItem>, k: int) -> bool {
    items[k].quantity <= available_to(levels, items, k)
}

/// Every line item of the batch is covered, each after those before it.
pub open spec fn all_covered(levels: Map<u128, i32>, items: Seq<LineItem>) -> bool {
    forall|k: int| 0 <= k < items.len() ==> #[trigger] covered(levels, items, k)
}

/// Line item `k` is the first of the batch that is not covered.
pub open spec fn first_shortfall(levels: Map<u128, i32>, items: Seq<LineItem>, k: int) -> bool {
    &&& 0 <= k < items.len()
    &&& !covered(levels, items, k)
    &&& forall|j: int| 0 <= j < k ==> #[trigger] covered(levels, items, j)
}

/// The failure reported for line item `k` where it is not covered.
pub open spec fn shortfall(levels: Map<u128, i32>, items: Seq<LineItem>, k: int) -> LedgerError {
    LedgerError::InsufficientStock {
        product_id: items[k].product_id,
        requested: items[k].quantity,
        available: available_to(levels, items, k) as i32,
    }
}

/// The levels after a whole batch has been debited.
pub open spec fn dispatched(levels: Map<u128, i32>, items: Seq<LineItem>) -> Map<u128, i32> {
    Map::new(
        |p: u128| levels.contains_key(p),
        |p: u128| (on_hand(levels, p) - demand(items, p)) as i32,
    )
}

/// What would be on hand of the product of line item `k` once it and the
/// line items before it have been credited.
pub open spec fn level_with(levels: Map<u128, i32>, items: Seq<LineItem>, k: int) -> int {
    on_hand(levels, items[k].product_id) + demand(items.take(k + 1), items[k].product_id)
}

/// Crediting line item `k` keeps the quantity on hand within its range.
pub open spec fn holdable(levels: Map<u128, i32>, items: Seq<LineItem>, k: int) -> bool {
    level_with(levels, items, k) <= i32::MAX
}

/// Every line item of the batch can be credited, each after those before it.
pub open spec fn all_holdable(levels: Map<u128, i32>, items: Seq<LineItem>) -> bool {
    forall|k: int| 0 <= k < items.len() ==> #[trigger] holdable(levels, items, k)
}

/// Line item `k` is the first of the batch that cannot be credited.
pub open spec fn first_overflow(levels: Map<u128, i32>, items: Seq<LineItem>, k: int) -> bool {
    &&& 0 <= k < items.len()
    &&& !holdable(levels, items, k)
    &&& forall|j: int| 0 <= j < k ==> #[trigger] holdable(levels, items, j)
}

/// The failure reported for a line item that cannot be credited.
pub open spec fn overflow(item: LineItem) -> LedgerError {
    LedgerError::Storage(StorageError::QuantityOutOfRange { product_id: item.product_id })
}

/// The levels after a whole batch has been credited: a row for every product
/// that had one or that the batch names.
pub open spec fn received(levels: Map<u128, i32>, items: Seq<LineItem>) -> Map<u128, i32> {
    Map::new(
        |p: u128| levels.contains_key(p) || mentions(items, p),
        |p: u128| (on_hand(levels, p) + demand(items, p)) as i32,
    )
}

/// The row of a product, where it has one.
pub open spec fn row_of(levels: Map<u128, i32>, product_id: u128) -> Option<i32> {
    if levels.contains_key(product_id) {
        Some(levels[product_id])
    } else {
        None
    }
}

/// What a row holds: nothing where there is none.
pub open spec fn held(row: Option<i32>) -> int {
    match row {
        Some(quantity) => quantity as int,
        None => 0,
    }
}

/// What a credit of `quantity` to the row of a product returns: the new
/// quantity, unless the quantity is not greater than zero or the sum leaves
/// the range of a quantity.
pub open spec fn row_credit(row: Option<i32>, product_id: u128, quantity: i32) -> Result<
    i32,
    LedgerError,
> {
    if quantity <= 0 {
        Err(invalid_item(LineItem { product_id, quantity }))
    } else if held(row) + quantity > i32::MAX {
        Err(overflow(LineItem { product_id, quantity }))
    } else {
        Ok((held(row) + quantity) as i32)
    }
}

/// What a checked debit of `quantity` from the row of a product returns:
/// the new quantity, unless the quantity is not greater than zero or more
/// than the row holds.
pub open spec fn row_debit(row: Option<i32>, product_id: u128, quantity: i32) -> Result<
    i32,
    LedgerError,
> {
    if quantity <= 0 {
        Err(invalid_item(LineItem { product_id, quantity }))
    } else if quantity > held(row) {
        Err(
            LedgerError::InsufficientStock {
                product_id,
                requested: quantity,
                available: held(row) as i32,
            },
        )
    } else {
        Ok((held(row) - quantity) as i32)
    }
}

/// What a credit of `quantity` to one product returns.
pub open spec fn credit_outcome(levels: Map<u128, i32>, product_id: u128, quantity: i32) -> Result<
    i32,
    LedgerError,
> {
    row_credit(row_of(levels, product_id), product_id, quantity)
}

/// What a checked debit of `quantity` from one product returns.
pub open spec fn debit_outcome(levels: Map<u128, i32>, product_id: u128, quantity: i32) -> Result<
    i32,
    LedgerError,
> {
    row_debit(row_of(levels, product_id), product_id, quantity)
}

/// Decides a credit of `quantity` to a product whose row, if it has one,
/// holds `row`.
pub fn credit_row(row: Option<i32>, product_id: u128, quantity: i32) -> (r: Result<
    i32,
    LedgerError,
>)
    ensures
        r == row_credit(row, product_id, quantity),
{
    if quantity <= 0 {
        return Err(
            LedgerError::Validation(ValidationError::NonPositiveQuantity { product_id, quantity }),
        );
    }
    let current: i32 = match row {
        Some(level) => level,
        None => 0,
    };
    match current.checked_add(quantity) {
        Some(level) => Ok(level),
        None => Err(LedgerError::Storage(StorageError::QuantityOutOfRange { product_id })),
    }
}

/// Decides a checked debit of `quantity` from a product whose row, if it
/// has one, holds `row`.
pub fn debit_row(row: Option<i32>, product_id: u128, quantity: i32) -> (r: Result<
    i32,
    LedgerError,
>)
    ensures
        r == row_debit(row, product_id, quantity),
{
    if quantity <= 0 {
        return Err(
            LedgerError::Validation(ValidationError::NonPositiveQuantity { product_id, quantity }),
        );
    }
    let current: i32 = match row {
        Some(level) => level,
        None => 0,
    };
    if quantity > current {
        return Err(
            LedgerError::InsufficientStock { product_id, requested: quantity, available: current },
        );
    }
    Ok(current - quantity)
}

/// The levels after an operation on one product that returned `outcome`.
pub open spec fn applied(
    levels: Map<u128, i32>,
    product_id: u128,
    outcome: Result<i32, LedgerError>,
) -> Map<u128, i32> {
    match outcome {
        Ok(level) => levels.insert(product_id, level),
        Err(_) => levels,
    }
}

/// Why a debit of the batch is refused with `e`: its first invalid line
/// item, or else the first one that is not covered.
pub open spec fn dispatch_refused(levels: Map<u128, i32>, items: Seq<LineItem>, e: LedgerError) -> bool {
    if all_valid(items) {
        exists|k: int| first_shortfall(levels, items, k) && e == shortfall(levels, items, k)
    } else {
        exists|k: int| first_invalid(items, k) && e == invalid_item(items[k])
    }
}

/// Why a credit of the batch is refused with `e`: its first invalid line
/// item, or else the first one that cannot be credited.
pub open spec fn receipt_refused(levels: Map<u128, i32>, items: Seq<LineItem>, e: LedgerError) -> bool {
    if all_valid(items) {
        exists|k: int| first_overflow(levels, items, k) && e == overflow(items[k])
    } else {
        exists|k: int| first_invalid(items, k) && e == invalid_item(items[k])
    }
}

/// The demand of a prefix grows by the line item that follows it.
pub proof fn lemma_demand_take(items: Seq<LineItem>, k: int, product_id: u128)
    requires
        0 <= k < items.len(),
    ensures
        demand(items.take(k + 1), product_id) == demand(items.take(k), product_id) + if items[k].product_id
            == product_id {
            items[k].quantity as int
        } else {
            0
        },
{
    assert(items.take(k + 1).drop_last() =~= items.take(k));
}

/// A batch of valid line items demands at least nothing of any product, and
/// something of each product that it names.
pub proof fn lemma_demand_bounds(items: Seq<LineItem>, product_id: u128)
    requires
        all_valid(items),
    ensures
        demand(items, product_id) >= 0,
        mentions(items, product_id) <==> demand(items, product_id) > 0,
    decreases items.len(),
{
    if items.len() > 0 {
        let rest = items.drop_last();
        assert forall|k: int| 0 <= k < rest.len() implies (#[trigger] rest[k]).quantity > 0 by {
            assert(rest[k] == items[k]);
        }
        lemma_demand_bounds(rest, product_id);
        let last = items.len() - 1;
        assert(items[last].quantity > 0);
        if mentions(items, product_id) {
            let k = choose|k: int|
                0 <= k < items.len() && (#[trigger] items[k]).product_id == product_id;
            if k < last {
                assert(rest[k].product_id == product_id);
            }
        }
        if mentions(rest, product_id) {
            let k = choose|k: int|
                0 <= k < rest.len() && (#[trigger] rest[k]).product_id == product_id;
            assert(items[k].product_id == product_id);
        }
        if items[last].product_id == product_id {
            assert(mentions(items, product_id));
        }
    }
}

/// The demand of two batches, one after the other.
pub proof fn lemma_demand_concat(first: Seq<LineItem>, second: Seq<LineItem>, product_id: u128)
    ensures
        demand(first + second, product_id) == demand(first, product_id) + demand(
            second,
            product_id,
        ),
    decreases second.len(),
{
    if second.len() == 0 {
        assert(first + second =~= first);
    } else {
        assert((first + second).drop_last() =~= first + second.drop_last());
        lemma_demand_concat(first, second.drop_last(), product_id);
    }
}

/// Every row holds a quantity that is not negative.
pub open spec fn rows_valid(rows: Seq<WarehouseStock>) -> bool {
    forall|k: int| 0 <= k < rows.len() ==> (#[trigger] rows[k]).quantity >= 0
}

/// Row `k` is the first that holds a negative quantity.
pub open spec fn first_negative(rows: Seq<WarehouseStock>, k: int) -> bool {
    &&& 0 <= k < rows.len()
    &&& rows[k].quantity < 0
    &&& forall|j: int| 0 <= j < k ==> (#[trigger] rows[j]).quantity >= 0
}

/// The levels that the rows of the store give, read in order: where a
/// product has several rows, the last one counts.
pub open spec fn levels_of(rows: Seq<WarehouseStock>) -> Map<u128, i32>
    decreases rows.len(),
{
    if rows.len() == 0 {
        Map::empty()
    } else {
        levels_of(rows.drop_last()).insert(rows.last().productid, rows.last().quantity)
    }
}

/// The stock ledger: one row for each product that was ever delivered,
/// holding the quantity on hand.
///
/// Its view is the map from product to quantity. It is well formed when no
/// quantity is negative; every operation keeps it so.
pub struct StockLedger {
    levels: HashMap<u128, i32>,
}

impl View for StockLedger {
    type V = Map<u128, i32>;

    closed spec fn view(&self) -> Map<u128, i32> {
        self.levels@
    }
}

impl StockLedger {
    /// No quantity on hand is negative.
    pub open spec fn wf(&self) -> bool {
        non_negative(self@)
    }

    /// A ledger without rows.
    pub fn new() -> (ledger: StockLedger)
        ensures
            ledger.wf(),
            ledger@ == Map::<u128, i32>::empty(),
    {
        StockLedger { levels: HashMap::new() }
    }

    /// The row of a product, where it has one.
    pub fn quantity(&self, product_id: u128) -> (q: Option<i32>)
        ensures
            q == row_of(self@, product_id),
    {
        match self.levels.get(&product_id) {
            Some(level) => Some(*level),
            None => None,
        }
    }

    /// A copy of the ledger as it stands.
    pub fn snapshot(&self) -> (copy: StockLedger)
        ensures
            copy@ == self@,
    {
        StockLedger { levels: self.levels.clone() }
    }

    /// The quantity on hand of a product: zero where it has no row.
    pub fn on_hand(&self, product_id: u128) -> (q: i32)
        ensures
            q == on_hand(self@, product_id),
    {
        match self.levels.get(&product_id) {
            Some(level) => *level,
            None => 0,
        }
    }

    /// Sets the row of a product to a quantity read from the store. A
    /// negative quantity is refused as out of range.
    pub fn load(&mut self, product_id: u128, quantity: i32) -> (r: Result<(), LedgerError>)
        requires
            old(self).wf(),
        ensures
            final(self).wf(),
            r == if quantity < 0 {
                Err::<(), LedgerError>(overflow(LineItem { product_id, quantity }))
            } else {
                Ok(())
            },
            final(self)@ == if quantity < 0 {
                old(self)@
            } else {
                old(self)@.insert(product_id, quantity)
            },
    {
        if quantity < 0 {
            return Err(
                LedgerError::Storage(StorageError::QuantityOutOfRange { product_id }),
            );
        }
        self.levels.insert(product_id, quantity);
        Ok(())
    }

    /// The ledger that the rows of the store give. A row with a negative
    /// quantity is refused as out of range.
    pub fn restore(rows: &Vec<WarehouseStock>) -> (r: Result<StockLedger, LedgerError>)
        ensures
            match r {
                Ok(ledger) => rows_valid(rows@) && ledger.wf() && ledger@ == levels_of(rows@),
                Err(e) => exists|k: int|
                    first_negative(rows@, k) && e == overflow(
                        LineItem { product_id: rows@[k].productid, quantity: rows@[k].quantity },
                    ),
            },
    {
        let mut ledger = StockLedger::new();
        let mut i: usize = 0;
        assert(rows@.take(0) =~= Seq::<WarehouseStock>::empty());
        while i < rows.len()
            invariant
                0 <= i <= rows.len(),
                ledger.wf(),
                ledger@ == levels_of(rows@.take(i as int)),
                forall|j: int| 0 <= j < i ==> (#[trigger] rows@[j]).quantity >= 0,
            decreases rows.len() - i,
        {
            let row: WarehouseStock = rows[i];
            assert(rows@.take(i + 1).drop_last() =~= rows@.take(i as int));
            match ledger.load(row.productid, row.quantity) {
                Err(e) => {
                    assert(first_negative(rows@, i as int));
                    return Err(e);
                },
                Ok(()) => {},
            }
            i = i + 1;
        }
        assert(rows@.take(rows@.len() as int) =~= rows@);
        Ok(ledger)
    }

    /// Adds `quantity` to what is on hand of a product, giving it a row if it
    /// has none, and returns the new quantity.
    pub fn credit(&mut self, product_id: u128, quantity: i32) -> (r: Result<i32, LedgerError>)
        requires
            old(self).wf(),
        ensures
            final(self).wf(),
            r == credit_outcome(old(self)@, product_id, quantity),
            final(self)@ == applied(old(self)@, product_id, r),
    {
        match credit_row(self.quantity(product_id), product_id, quantity) {
            Ok(level) => {
                self.levels.insert(product_id, level);
                Ok(level)
            },
            Err(e) => Err(e),
        }
    }

    /// Takes `quantity` from what is on hand of a product and returns the new
    /// quantity, unless less than that is on hand.
    pub fn debit_checked(&mut self, product_id: u128, quantity: i32) -> (r: Result<
        i32,
        LedgerError,
    >)
        requires
            old(self).wf(),
        ensures
            final(self).wf(),
            r == debit_outcome(old(self)@, product_id, quantity),
            final(self)@ == applied(old(self)@, product_id, r),
    {
        match debit_row(self.quantity(product_id), product_id, quantity) {
            Ok(level) => {
                self.levels.insert(product_id, level);
                Ok(level)
            },
            Err(e) => Err(e),
        }
    }

    /// Debits a whole batch, line item by line item in the order given, or
    /// nothing of it: the first line item that asks for more than is left
    /// for it refuses the batch.
    pub fn dispatch(&mut self, items: &Vec<LineItem>) -> (r: Result<(), LedgerError>)
        requires
            old(self).wf(),
        ensures
            final(self).wf(),
            r is Ok <==> all_valid(items@) && all_covered(old(self)@, items@),
            match r {
                Ok(()) => {
                    &&& all_valid(items@)
                    &&& all_covered(old(self)@, items@)
                    &&& final(self)@ == dispatched(old(self)@, items@)
                    &&& forall|p: u128|
                        on_hand(final(self)@, p) == on_hand(old(self)@, p) - #[trigger] demand(
                            items@,
                            p,
                        )
                },
                Err(e) => {
                    &&& final(self)@ == old(self)@
                    &&& dispatch_refused(old(self)@, items@, e)
                },
            },
    {
        match validate_items(items) {
            Err(e) => {
                return Err(e);
            },
            Ok(()) => {},
        }
        let mut work: HashMap<u128, i32> = self.levels.clone();
        let mut i: usize = 0;
        while i < items.len()
            invariant
                0 <= i <= items.len(),
                *self == *old(self),
                all_valid(items@),
                non_negative(self.levels@),
                non_negative(work@),
                work@.dom() == self.levels@.dom(),
                forall|p: u128|
                    on_hand(work@, p) == on_hand(self.levels@, p) - #[trigger] demand(
                        items@.take(i as int),
                        p,
                    ),
                forall|j: int| 0 <= j < i ==> #[trigger] covered(self.levels@, items@, j),
            decreases items.len() - i,
        {
            let item: LineItem = items[i];
            let row: Option<i32> = match work.get(&item.product_id) {
                Some(level) => Some(*level),
                None => None,
            };
            assert(held(row) == available_to(self.levels@, items@, i as int));
            assert(items@[i as int].quantity > 0);
            let level: i32 = match debit_row(row, item.product_id, item.quantity) {
                Ok(level) => level,
                Err(e) => {
                    assert(first_shortfall(self.levels@, items@, i as int));
                    return Err(e);
                },
            };
            proof {
                assert(all_valid(items@.take(i as int)));
                lemma_demand_bounds(items@.take(i as int), item.product_id);
                assert(self.levels@.contains_key(item.product_id));
                assert forall|p: u128|
                    on_hand(work@.insert(item.product_id, level), p) == on_hand(self.levels@, p)
                        - #[trigger] demand(items@.take(i + 1), p) by {
                    lemma_demand_take(items@, i as int, p);
                }
                assert(work@.insert(item.product_id, level).dom() =~= self.levels@.dom());
            }
            work.insert(item.product_id, level);
            i = i + 1;
        }
        proof {
            assert(items@.take(items@.len() as int) =~= items@);
            assert(work@ =~= dispatched(self.levels@, items@));
        }
        self.levels = work;
        Ok(())
    }

    /// Credits a whole batch, line item by line item in the order given, or
    /// nothing of it: a line item whose credit would leave the range of a
    /// quantity refuses the batch.
    pub fn receive(&mut self, items: &Vec<LineItem>) -> (r: Result<(), LedgerError>)
        requires
            old(self).wf(),
        ensures
            final(self).wf(),
            r is Ok <==> all_valid(items@) && all_holdable(old(self)@, items@),
            match r {
                Ok(()) => {
                    &&& all_valid(items@)
                    &&& all_holdable(old(self)@, items@)
                    &&& final(self)@ == received(old(self)@, items@)
                    &&& forall|p: u128|
                        on_hand(final(self)@, p) == on_hand(old(self)@, p) + #[trigger] demand(
                            items@,
                            p,
                        )
                },
                Err(e) => {
                    &&& final(self)@ == old(self)@
                    &&& receipt_refused(old(self)@, items@, e)
                },
            },
    {
        match validate_items(items) {
            Err(e) => {
                return Err(e);
            },
            Ok(()) => {},
        }
        let mut work: HashMap<u128, i32> = self.levels.clone();
        let mut i: usize = 0;
        while i < items.len()
            invariant
                0 <= i <= items.len(),
                *self == *old(self),
                all_valid(items@),
                non_negative(self.levels@),
                non_negative(work@),
                forall|p: u128|
                    #![trigger work@.contains_key(p)]
                    #![trigger mentions(items@.take(i as int), p)]
                    work@.contains_key(p) <==> self.levels@.contains_key(p) || mentions(
                        items@.take(i as int),
                        p,
                    ),
                forall|p: u128|
                    on_hand(work@, p) == on_hand(self.levels@, p) + #[trigger] demand(
                        items@.take(i as int),
                        p,
                    ),
                forall|j: int| 0 <= j < i ==> #[trigger] holdable(self.levels@, items@, j),
            decreases items.len() - i,
        {
            let item: LineItem = items[i];
            let row: Option<i32> = match work.get(&item.product_id) {
                Some(level) => Some(*level),
                None => None,
            };
            proof {
                lemma_demand_take(items@, i as int, item.product_id);
                assert(items@[i as int].quantity > 0);
                assert(held(row) + item.quantity == level_with(self.levels@, items@, i as int));
            }
            let level: i32 = match credit_row(row, item.product_id, item.quantity) {
                Ok(level) => level,
                Err(e) => {
                    assert(first_overflow(self.levels@, items@, i as int));
                    return Err(e);
                },
            };
            proof {
                assert forall|p: u128|
                    on_hand(work@.insert(item.product_id, level), p) == on_hand(self.levels@, p)
                        + #[trigger] demand(items@.take(i + 1), p) by {
                    lemma_demand_take(items@, i as int, p);
                }
                assert forall|p: u128|
                    #![trigger work@.insert(item.product_id, level).contains_key(p)]
                    #![trigger mentions(items@.take(i + 1), p)]
                    work@.insert(item.product_id, level).contains_key(p)
                        <==> self.levels@.contains_key(p) || mentions(items@.take(i + 1), p) by {
                    lemma_mentions_take(items@, i as int, p);
                }
            }
            work.insert(item.product_id, level);
            i = i + 1;
        }
        proof {
            assert(items@.take(items@.len() as int) =~= items@);
            assert(work@ =~= received(self.levels@, items@));
        }
        self.levels = work;
        Ok(())
    }
}

/// A prefix with one more line item names the products of the shorter prefix
/// and that of the line item.
pub proof fn lemma_mentions_take(items: Seq<LineItem>, k: int, product_id: u128)
    requires
        0 <= k < items.len(),
    ensures
        mentions(items.take(k + 1), product_id) <==> mentions(items.take(k), product_id)
            || items[k].product_id == product_id,
{
    let longer = items.take(k + 1);
    let shorter = items.take(k);
    if mentions(longer, product_id) {
        let j = choose|j: int|
            0 <= j < longer.len() && (#[trigger] longer[j]).product_id == product_id;
        if j < k {
            assert(shorter[j].product_id == product_id);
        }
    }
    if mentions(shorter, product_id) {
        let j = choose|j: int|
            0 <= j < shorter.len() && (#[trigger] shorter[j]).product_id == product_id;
        assert(longer[j].product_id == product_id);
    }
    if items[k].product_id == product_id {
        assert(longer[k].product_id == product_id);
    }
}

/// Checks that every line item asks for a quantity greater than zero, and
/// reports the first that does not.
pub fn validate_items(items: &Vec<LineItem>) -> (r: Result<(), LedgerError>)
    ensures
        r is Ok <==> all_valid(items@),
        match r {
            Ok(()) => all_valid(items@),
            Err(e) => exists|k: int| first_invalid(items@, k) && e == invalid_item(items@[k]),
        },
{
    let mut i: usize = 0;
    while i < items.len()
        invariant
            0 <= i <= items.len(),
            forall|j: int| 0 <= j < i ==> (#[trigger] items@[j]).quantity > 0,
        decreases items.len() - i,
    {
        let item: LineItem = items[i];
        if item.quantity <= 0 {
            assert(first_invalid(items@, i as int));
            return Err(
                LedgerError::Validation(
                    ValidationError::NonPositiveQuantity {
                        product_id: item.product_id,
                        quantity: item.quantity,
                    },
                ),
            );
        }
        i = i + 1;
    }
    Ok(())
}

/// A prefix of a batch of valid line items demands no more of a product
/// than the whole batch.
pub proof fn lemma_demand_prefix(items: Seq<LineItem>, k: int, product_id: u128)
    requires
        all_valid(items),
        0 <= k <= items.len(),
    ensures
        0 <= demand(items.take(k), product_id) <= demand(items, product_id),
{
    let head = items.take(k);
    let tail = items.skip(k);
    assert(head + tail =~= items);
    lemma_demand_concat(head, tail, product_id);
    assert forall|j: int| 0 <= j < head.len() implies (#[trigger] head[j]).quantity > 0 by {
        assert(head[j] == items[j]);
    }
    assert forall|j: int| 0 <= j < tail.len() implies (#[trigger] tail[j]).quantity > 0 by {
        assert(tail[j] == items[k + j]);
    }
    lemma_demand_bounds(head, product_id);
    lemma_demand_bounds(tail, product_id);
}

/// A batch whose line items are all covered demands of no product more
/// than is on hand of it.
pub proof fn lemma_covered_demand(levels: Map<u128, i32>, items: Seq<LineItem>, product_id: u128)
    requires
        non_negative(levels),
        all_covered(levels, items),
    ensures
        demand(items, product_id) <= on_hand(levels, product_id),
    decreases items.len(),
{
    if items.len() > 0 {
        let rest = items.drop_last();
        let last = items.len() - 1;
        assert forall|k: int| 0 <= k < rest.len() implies #[trigger] covered(levels, rest, k) by {
            assert(covered(levels, items, k));
            assert(rest.take(k) =~= items.take(k));
        }
        lemma_covered_demand(levels, rest, product_id);
        assert(covered(levels, items, last));
        assert(items.take(last) =~= rest);
    }
}

/// A batch of valid line items that demands of no product more than is on
/// hand of it has all its line items covered.
pub proof fn lemma_demand_covered(levels: Map<u128, i32>, items: Seq<LineItem>)
    requires
        all_valid(items),
        forall|p: u128| #[trigger] demand(items, p) <= on_hand(levels, p),
    ensures
        all_covered(levels, items),
{
    assert forall|k: int| 0 <= k < items.len() implies #[trigger] covered(levels, items, k) by {
        let p = items[k].product_id;
        lemma_demand_prefix(items, k + 1, p);
        lemma_demand_take(items, k, p);
        assert(demand(items, p) <= on_hand(levels, p));
    }
}

/// After a batch whose line items are all covered, what is on hand of each
/// product is what was on hand less what the batch demands of it, and
/// nothing is negative.
pub proof fn lemma_dispatched_on_hand(levels: Map<u128, i32>, items: Seq<LineItem>)
    requires
        non_negative(levels),
        all_valid(items),
        all_covered(levels, items),
    ensures
        non_negative(dispatched(levels, items)),
        forall|p: u128|
            on_hand(dispatched(levels, items), p) == on_hand(levels, p) - #[trigger] demand(
                items,
                p,
            ),
{
    assert forall|p: u128|
        0 <= on_hand(levels, p) - #[trigger] demand(items, p) <= on_hand(levels, p) by {
        lemma_covered_demand(levels, items, p);
        lemma_demand_bounds(items, p);
    }
    assert forall|p: u128| #[trigger]
        dispatched(levels, items).contains_key(p) implies dispatched(levels, items)[p] >= 0 by {
        assert(0 <= on_hand(levels, p) - demand(items, p) <= on_hand(levels, p));
    }
}

/// A batch whose line items can all be credited brings no product over the
/// range of a quantity.
pub proof fn lemma_holdable_demand(levels: Map<u128, i32>, items: Seq<LineItem>, product_id: u128)
    requires
        all_holdable(levels, items),
    ensures
        on_hand(levels, product_id) + demand(items, product_id) <= i32::MAX,
    decreases items.len(),
{
    if items.len() > 0 {
        let rest = items.drop_last();
        let last = items.len() - 1;
        assert forall|k: int| 0 <= k < rest.len() implies #[trigger] holdable(levels, rest, k) by {
            assert(holdable(levels, items, k));
            assert(rest.take(k + 1) =~= items.take(k + 1));
        }
        lemma_holdable_demand(levels, rest, product_id);
        assert(holdable(levels, items, last));
        assert(items.take(last + 1) =~= items);
    }
}

/// After a batch whose line items can all be credited, what is on hand of
/// each product is what was on hand plus what the batch demands of it.
pub proof fn lemma_received_on_hand(levels: Map<u128, i32>, items: Seq<LineItem>)
    requires
        non_negative(levels),
        all_valid(items),
        all_holdable(levels, items),
    ensures
        non_negative(received(levels, items)),
        forall|p: u128|
            on_hand(received(levels, items), p) == on_hand(levels, p) + #[trigger] demand(
                items,
                p,
            ),
{
    assert forall|p: u128|
        0 <= on_hand(levels, p) + #[trigger] demand(items, p) <= i32::MAX && (mentions(items, p)
            <==> demand(items, p) > 0) by {
        lemma_holdable_demand(levels, items, p);
        lemma_demand_bounds(items, p);
    }
    assert forall|p: u128| #[trigger]
        received(levels, items).contains_key(p) implies received(levels, items)[p] >= 0 by {
        assert(0 <= on_hand(levels, p) + demand(items, p) <= i32::MAX);
    }
    assert forall|p: u128|
        on_hand(received(levels, items), p) == on_hand(levels, p) + #[trigger] demand(
            items,
            p,
        ) by {
        assert(0 <= on_hand(levels, p) + demand(items, p) <= i32::MAX && (mentions(items, p)
            <==> demand(items, p) > 0));
    }
}

} // verus!
