//! What the ledger holds, as a mathematical value: the tables as sequences
//! and the stock ledger as a map; the invariant that ties them together;
//! and what each operation makes of a state.

use crate::dates::Timestamp;
use crate::error::{Entity, LedgerError, StorageError};
use crate::models::{
    Allowance, Delivery, DeliveryProduct, Payment, Product, Sale, SaleProduct, TruckAllowance,
    TruckLoad, TruckLoadProduct,
};
use crate::money::Amount;
use crate::sale::{
    balanced, invalid_amount, payment_outcome, settled, totals_representable, PricedLine,
};
use crate::stock::{
    all_covered, all_holdable, all_valid, demand, dispatched, first_invalid, invalid_item,
    lemma_demand_concat, lemma_dispatched_on_hand, lemma_received_on_hand, non_negative, on_hand,
    receipt_refused, received, LineItem,
};
use vstd::prelude::*;

verus! {

/// The line items of the lines of deliveries.
pub open spec fn delivered_items(lines: Seq<DeliveryProduct>) -> Seq<LineItem> {
    Seq::new(lines.len(), |k: int| lines[k].item())
}

/// The line items of the lines of truck loads.
pub open spec fn loaded_items(lines: Seq<TruckLoadProduct>) -> Seq<LineItem> {
    Seq::new(lines.len(), |k: int| lines[k].item())
}

/// The lines that a delivery records for a batch.
pub open spec fn delivery_lines(deliveryid: u128, items: Seq<LineItem>) -> Seq<DeliveryProduct> {
    Seq::new(
        items.len(),
        |k: int|
            DeliveryProduct {
                deliveryid,
                productid: items[k].product_id,
                quantity: items[k].quantity,
            },
    )
}

/// The lines that a truck load records for a batch.
pub open spec fn truck_load_lines(truckloadid: u128, items: Seq<LineItem>) -> Seq<
    TruckLoadProduct,
> {
    Seq::new(
        items.len(),
        |k: int|
            TruckLoadProduct {
                truckloadid,
                productid: items[k].product_id,
                quantity: items[k].quantity,
            },
    )
}

/// The lines that a sale records for a batch.
pub open spec fn sale_lines(salesid: u128, items: Seq<LineItem>) -> Seq<SaleProduct> {
    Seq::new(
        items.len(),
        |k: int|
            SaleProduct { salesid, productid: items[k].product_id, quantity: items[k].quantity },
    )
}

/// The sum of the payments made against a sale, in hundredths.
pub open spec fn paid_to(payments: Seq<Payment>, salesid: u128) -> int
    decreases payments.len(),
{
    if payments.len() == 0 {
        0
    } else {
        paid_to(payments.drop_last(), salesid) + if payments.last().salesid == salesid {
            payments.last().amount@
        } else {
            0
        }
    }
}

/// What the ledger holds, as mathematical sequences and a map: the view of
/// a [`Ledger`].
pub struct LedgerState {
    pub products: Seq<Product>,
    pub stock: Map<u128, i32>,
    pub deliveries: Seq<Delivery>,
    pub delivery_lines: Seq<DeliveryProduct>,
    pub truck_loads: Seq<TruckLoad>,
    pub truck_load_lines: Seq<TruckLoadProduct>,
    pub sales: Seq<Sale>,
    pub sale_lines: Seq<SaleProduct>,
    pub payments: Seq<Payment>,
    pub allowances: Seq<Allowance>,
    pub truck_allowances: Seq<TruckAllowance>,
}

impl LedgerState {
    /// Every record is identified by its place in its table.
    pub open spec fn identified(self) -> bool {
        &&& forall|i: int| 0 <= i < self.products.len() ==> (#[trigger] self.products[i]).id == i
        &&& forall|i: int|
            0 <= i < self.deliveries.len() ==> (#[trigger] self.deliveries[i]).deliveryid == i
        &&& forall|i: int|
            0 <= i < self.truck_loads.len() ==> (#[trigger] self.truck_loads[i]).truckloadid == i
        &&& forall|i: int| 0 <= i < self.sales.len() ==> (#[trigger] self.sales[i]).salesid == i
        &&& forall|i: int|
            0 <= i < self.payments.len() ==> (#[trigger] self.payments[i]).paymentid == i
        &&& forall|i: int|
            0 <= i < self.allowances.len() ==> (#[trigger] self.allowances[i]).allowanceid == i
        &&& forall|i: int|
            0 <= i < self.truck_allowances.len() ==> (#[trigger] self.truck_allowances[i]).id == i
    }

    /// What is on hand of every product is what was delivered of it less
    /// what was loaded onto trucks.
    pub open spec fn reconciled(self) -> bool {
        forall|p: u128|
            on_hand(self.stock, p) == #[trigger] demand(delivered_items(self.delivery_lines), p)
                - demand(loaded_items(self.truck_load_lines), p)
    }

    /// Every payment is of a positive amount against a recorded sale, and
    /// every sale is balanced with the payments made against it.
    pub open spec fn payments_booked(self) -> bool {
        &&& forall|i: int|
            0 <= i < self.payments.len() ==> (#[trigger] self.payments[i]).amount@ > 0
                && self.payments[i].salesid < self.sales.len()
        &&& forall|s: int|
            0 <= s < self.sales.len() ==> balanced(#[trigger] self.sales[s])
                && self.sales[s].paid_amount@ == paid_to(self.payments, s as u128)
    }

    /// Every line belongs to a recorded delivery, truck load or sale and is
    /// of a quantity greater than zero; the lines of deliveries and sales
    /// name recorded products.
    pub open spec fn lines_linked(self) -> bool {
        &&& forall|j: int|
            0 <= j < self.delivery_lines.len() ==> {
                &&& (#[trigger] self.delivery_lines[j]).deliveryid < self.deliveries.len()
                &&& self.delivery_lines[j].quantity > 0
                &&& self.knows_product(self.delivery_lines[j].productid)
            }
        &&& forall|j: int|
            0 <= j < self.truck_load_lines.len() ==> {
                &&& (#[trigger] self.truck_load_lines[j]).truckloadid < self.truck_loads.len()
                &&& self.truck_load_lines[j].quantity > 0
            }
        &&& forall|j: int|
            0 <= j < self.sale_lines.len() ==> {
                &&& (#[trigger] self.sale_lines[j]).salesid < self.sales.len()
                &&& self.sale_lines[j].quantity > 0
                &&& self.knows_product(self.sale_lines[j].productid)
            }
    }

    /// Every truck allowance belongs to a recorded allowance.
    pub open spec fn allowances_linked(self) -> bool {
        forall|i: int|
            0 <= i < self.truck_allowances.len() ==> (#[trigger] self.truck_allowances[i]).allowanceid
                < self.allowances.len()
    }

    /// The invariant of the ledger.
    pub open spec fn consistent(self) -> bool {
        &&& non_negative(self.stock)
        &&& self.identified()
        &&& self.reconciled()
        &&& self.lines_linked()
        &&& self.payments_booked()
        &&& self.allowances_linked()
    }

    /// The state in which nothing was ever recorded.
    pub open spec fn empty() -> LedgerState {
        LedgerState {
            products: Seq::empty(),
            stock: Map::empty(),
            deliveries: Seq::empty(),
            delivery_lines: Seq::empty(),
            truck_loads: Seq::empty(),
            truck_load_lines: Seq::empty(),
            sales: Seq::empty(),
            sale_lines: Seq::empty(),
            payments: Seq::empty(),
            allowances: Seq::empty(),
            truck_allowances: Seq::empty(),
        }
    }

    /// Whether a product of that identity is recorded.
    pub open spec fn knows_product(self, product_id: u128) -> bool {
        product_id < self.products.len()
    }
}

impl LedgerState {
    /// Every line item names a recorded product.
    pub open spec fn all_known(self, items: Seq<LineItem>) -> bool {
        forall|k: int|
            0 <= k < items.len() ==> self.knows_product((#[trigger] items[k]).product_id)
    }

    /// Line item `k` is the first of the batch that names no recorded
    /// product.
    pub open spec fn first_unknown(self, items: Seq<LineItem>, k: int) -> bool {
        &&& 0 <= k < items.len()
        &&& !self.knows_product(items[k].product_id)
        &&& forall|j: int| 0 <= j < k ==> self.knows_product((#[trigger] items[j]).product_id)
    }

    /// Why a delivery of the batch is refused with `e`: its first invalid
    /// line item; or else the first that names no recorded product; or else
    /// the first whose credit the stock ledger cannot hold.
    pub open spec fn intake_refused(self, items: Seq<LineItem>, e: LedgerError) -> bool {
        if all_valid(items) && !self.all_known(items) {
            exists|k: int| self.first_unknown(items, k) && e == unknown_product(items[k].product_id)
        } else {
            receipt_refused(self.stock, items, e)
        }
    }

    /// The state after a delivery of the batch was recorded.
    pub open spec fn with_delivery(self, delivery: Delivery, items: Seq<LineItem>) -> LedgerState {
        LedgerState {
            stock: received(self.stock, items),
            deliveries: self.deliveries.push(delivery),
            delivery_lines: self.delivery_lines + delivery_lines(delivery.deliveryid, items),
            ..self
        }
    }

    /// The state after a truck load of the batch was recorded.
    pub open spec fn with_truck_load(self, load: TruckLoad, items: Seq<LineItem>) -> LedgerState {
        LedgerState {
            stock: dispatched(self.stock, items),
            truck_loads: self.truck_loads.push(load),
            truck_load_lines: self.truck_load_lines + truck_load_lines(load.truckloadid, items),
            ..self
        }
    }
}

/// The failure reported for a line item that names no recorded product.
pub open spec fn unknown_product(product_id: u128) -> LedgerError {
    LedgerError::NotFound { entity: Entity::Product, id: product_id }
}

/// The lines of a delivery carry the line items of its batch.
pub proof fn lemma_delivery_lines_items(
    lines: Seq<DeliveryProduct>,
    deliveryid: u128,
    items: Seq<LineItem>,
    product_id: u128,
)
    ensures
        demand(delivered_items(lines + delivery_lines(deliveryid, items)), product_id) == demand(
            delivered_items(lines),
            product_id,
        ) + demand(items, product_id),
{
    assert(delivered_items(lines + delivery_lines(deliveryid, items)) =~= delivered_items(lines)
        + items);
    lemma_demand_concat(delivered_items(lines), items, product_id);
}

/// The lines of a truck load carry the line items of its batch.
pub proof fn lemma_truck_load_lines_items(
    lines: Seq<TruckLoadProduct>,
    truckloadid: u128,
    items: Seq<LineItem>,
    product_id: u128,
)
    ensures
        demand(loaded_items(lines + truck_load_lines(truckloadid, items)), product_id) == demand(
            loaded_items(lines),
            product_id,
        ) + demand(items, product_id),
{
    assert(loaded_items(lines + truck_load_lines(truckloadid, items)) =~= loaded_items(lines)
        + items);
    lemma_demand_concat(loaded_items(lines), items, product_id);
}

impl LedgerState {
    /// For each line item of a batch in order, whether its product is
    /// recorded.
    pub open spec fn known_flags(self, items: Seq<LineItem>) -> Seq<bool> {
        Seq::new(items.len(), |k: int| self.knows_product(items[k].product_id))
    }

    /// For each line item of a batch in order, the unit price that its
    /// product has in this state, where the product is recorded.
    pub open spec fn prices_of(self, items: Seq<LineItem>) -> Seq<Option<Amount>> {
        Seq::new(
            items.len(),
            |k: int|
                if self.knows_product(items[k].product_id) {
                    Some(self.products[items[k].product_id as int].price)
                } else {
                    None
                },
        )
    }

    /// The line items of a batch, each with the unit price that its product
    /// has in this state.
    pub open spec fn priced(self, items: Seq<LineItem>) -> Seq<PricedLine> {
        Seq::new(
            items.len(),
            |k: int|
                PricedLine {
                    product_id: items[k].product_id,
                    quantity: items[k].quantity,
                    unit_price: self.products[items[k].product_id as int].price,
                },
        )
    }

    /// Why a sale of the batch is refused with `e`: its first invalid line
    /// item; or else the first that names no recorded product; or else a
    /// running total that leaves the range of an amount.
    pub open spec fn sale_refused(self, items: Seq<LineItem>, e: LedgerError) -> bool {
        if !all_valid(items) {
            exists|k: int| first_invalid(items, k) && e == invalid_item(items[k])
        } else if !self.all_known(items) {
            exists|k: int| self.first_unknown(items, k) && e == unknown_product(items[k].product_id)
        } else {
            !totals_representable(self.priced(items)) && e == LedgerError::Storage(
                StorageError::AmountOutOfRange,
            )
        }
    }

    /// The state after a sale of the batch was recorded. The stock ledger
    /// is not touched: the stock left the warehouse with the truck load.
    pub open spec fn with_sale(self, sale: Sale, items: Seq<LineItem>) -> LedgerState {
        LedgerState {
            sales: self.sales.push(sale),
            sale_lines: self.sale_lines + sale_lines(sale.salesid, items),
            ..self
        }
    }

    /// What a payment of `amount` against the sale `salesid` returns before
    /// it is recorded: nothing, unless the amount is not greater than zero,
    /// no such sale is recorded, or the amount paid would leave its range.
    pub open spec fn payment_check(self, salesid: u128, amount: Amount) -> Result<(), LedgerError> {
        if amount@ <= 0 {
            Err(invalid_amount(amount))
        } else if salesid >= self.sales.len() {
            Err(LedgerError::NotFound { entity: Entity::Sale, id: salesid })
        } else {
            payment_outcome(self.sales[salesid as int], amount)
        }
    }

    /// The state after a product was recorded.
    pub open spec fn with_product(self, product: Product) -> LedgerState {
        LedgerState { products: self.products.push(product), ..self }
    }

    /// The state after an allowance was recorded.
    pub open spec fn with_allowance(self, allowance: Allowance) -> LedgerState {
        LedgerState { allowances: self.allowances.push(allowance), ..self }
    }

    /// The state after the share of a truck in an allowance was recorded.
    pub open spec fn with_truck_allowance(self, share: TruckAllowance) -> LedgerState {
        LedgerState { truck_allowances: self.truck_allowances.push(share), ..self }
    }

    /// The state after the unit price of a product was set at `now`.
    pub open spec fn with_price(self, product_id: u128, price: Amount, now: Timestamp) -> LedgerState {
        LedgerState {
            products: self.products.update(
                product_id as int,
                Product { price, updated_at: Some(now), ..self.products[product_id as int] },
            ),
            ..self
        }
    }

    /// The state after a payment was recorded against its sale at `now`.
    pub open spec fn with_payment(self, payment: Payment, now: Timestamp) -> LedgerState {
        LedgerState {
            payments: self.payments.push(payment),
            sales: self.sales.update(
                payment.salesid as int,
                settled(self.sales[payment.salesid as int], payment.amount, now),
            ),
            ..self
        }
    }
}

/// A sale that no payment names has nothing paid to it.
pub proof fn lemma_paid_to_unreferenced(payments: Seq<Payment>, salesid: u128)
    requires
        forall|i: int| 0 <= i < payments.len() ==> (#[trigger] payments[i]).salesid != salesid,
    ensures
        paid_to(payments, salesid) == 0,
    decreases payments.len(),
{
    if payments.len() > 0 {
        let rest = payments.drop_last();
        assert forall|i: int| 0 <= i < rest.len() implies (#[trigger] rest[i]).salesid
            != salesid by {
            assert(rest[i] == payments[i]);
        }
        lemma_paid_to_unreferenced(rest, salesid);
        assert(payments[payments.len() - 1].salesid != salesid);
    }
}

/// What was paid to a sale grows by a new payment against it, and by no
/// other.
pub proof fn lemma_paid_to_push(payments: Seq<Payment>, payment: Payment, salesid: u128)
    ensures
        paid_to(payments.push(payment), salesid) == paid_to(payments, salesid) + if payment.salesid
            == salesid {
            payment.amount@
        } else {
            0
        },
{
    assert(payments.push(payment).drop_last() =~= payments);
}

/// Recording a product keeps the ledger consistent.
pub proof fn lemma_product_keeps_consistent(state: LedgerState, product: Product)
    requires
        state.consistent(),
        product.id == state.products.len(),
    ensures
        state.with_product(product).consistent(),
{
}

/// Setting the unit price of a product keeps the ledger consistent.
pub proof fn lemma_price_keeps_consistent(
    state: LedgerState,
    product_id: u128,
    price: Amount,
    now: Timestamp,
)
    requires
        state.consistent(),
        state.knows_product(product_id),
    ensures
        state.with_price(product_id, price, now).consistent(),
{
}

/// Recording a delivery that the ledger takes keeps it consistent, and
/// adds to what is on hand of each product exactly what the batch demands
/// of it.
pub proof fn lemma_delivery_keeps_consistent(
    state: LedgerState,
    delivery: Delivery,
    items: Seq<LineItem>,
)
    requires
        state.consistent(),
        delivery.deliveryid == state.deliveries.len(),
        all_valid(items),
        state.all_known(items),
        all_holdable(state.stock, items),
    ensures
        state.with_delivery(delivery, items).consistent(),
        forall|p: u128|
            on_hand(state.with_delivery(delivery, items).stock, p) == on_hand(state.stock, p)
                + #[trigger] demand(items, p),
{
    let after = state.with_delivery(delivery, items);
    lemma_received_on_hand(state.stock, items);
    assert forall|p: u128|
        on_hand(after.stock, p) == #[trigger] demand(delivered_items(after.delivery_lines), p)
            - demand(loaded_items(after.truck_load_lines), p) by {
        lemma_delivery_lines_items(state.delivery_lines, delivery.deliveryid, items, p);
    }
    assert forall|j: int| 0 <= j < after.delivery_lines.len() implies {
        &&& (#[trigger] after.delivery_lines[j]).deliveryid < after.deliveries.len()
        &&& after.delivery_lines[j].quantity > 0
        &&& after.knows_product(after.delivery_lines[j].productid)
    } by {
        let recorded = state.delivery_lines.len();
        if j < recorded {
            assert(after.delivery_lines[j] == state.delivery_lines[j]);
        } else {
            assert(items[j - recorded].quantity > 0);
            assert(state.knows_product(items[j - recorded].product_id));
        }
    }
}

/// Recording a truck load that the ledger takes keeps it consistent, and
/// takes from what is on hand of each product exactly what the batch
/// demands of it.
pub proof fn lemma_truck_load_keeps_consistent(
    state: LedgerState,
    load: TruckLoad,
    items: Seq<LineItem>,
)
    requires
        state.consistent(),
        load.truckloadid == state.truck_loads.len(),
        all_valid(items),
        all_covered(state.stock, items),
    ensures
        state.with_truck_load(load, items).consistent(),
        forall|p: u128|
            on_hand(state.with_truck_load(load, items).stock, p) == on_hand(state.stock, p)
                - #[trigger] demand(items, p),
{
    let after = state.with_truck_load(load, items);
    lemma_dispatched_on_hand(state.stock, items);
    assert forall|p: u128|
        on_hand(after.stock, p) == #[trigger] demand(delivered_items(after.delivery_lines), p)
            - demand(loaded_items(after.truck_load_lines), p) by {
        lemma_truck_load_lines_items(state.truck_load_lines, load.truckloadid, items, p);
        assert(on_hand(after.stock, p) == on_hand(state.stock, p) - demand(items, p));
    }
    assert forall|j: int| 0 <= j < after.truck_load_lines.len() implies {
        &&& (#[trigger] after.truck_load_lines[j]).truckloadid < after.truck_loads.len()
        &&& after.truck_load_lines[j].quantity > 0
    } by {
        let recorded = state.truck_load_lines.len();
        if j < recorded {
            assert(after.truck_load_lines[j] == state.truck_load_lines[j]);
        } else {
            assert(items[j - recorded].quantity > 0);
        }
    }
}

/// Recording a sale with nothing paid keeps the ledger consistent.
pub proof fn lemma_sale_keeps_consistent(state: LedgerState, sale: Sale, items: Seq<LineItem>)
    requires
        state.consistent(),
        sale.salesid == state.sales.len(),
        sale.paid_amount@ == 0,
        balanced(sale),
        all_valid(items),
        state.all_known(items),
    ensures
        state.with_sale(sale, items).consistent(),
{
    let after = state.with_sale(sale, items);
    lemma_paid_to_unreferenced(state.payments, sale.salesid);
    assert forall|j: int| 0 <= j < after.sale_lines.len() implies {
        &&& (#[trigger] after.sale_lines[j]).salesid < after.sales.len()
        &&& after.sale_lines[j].quantity > 0
        &&& after.knows_product(after.sale_lines[j].productid)
    } by {
        let recorded = state.sale_lines.len();
        if j < recorded {
            assert(after.sale_lines[j] == state.sale_lines[j]);
        } else {
            assert(items[j - recorded].quantity > 0);
            assert(state.knows_product(items[j - recorded].product_id));
        }
    }
}

/// Recording a payment that the ledger takes keeps it consistent.
pub proof fn lemma_payment_keeps_consistent(state: LedgerState, payment: Payment, now: Timestamp)
    requires
        state.consistent(),
        payment.paymentid == state.payments.len(),
        state.payment_check(payment.salesid, payment.amount) is Ok,
    ensures
        state.with_payment(payment, now).consistent(),
{
    let after = state.with_payment(payment, now);
    assert forall|s: int| 0 <= s < after.sales.len() implies balanced(#[trigger] after.sales[s])
        && after.sales[s].paid_amount@ == paid_to(after.payments, s as u128) by {
        lemma_paid_to_push(state.payments, payment, s as u128);
        assert(balanced(state.sales[s]));
    }
    assert forall|i: int| 0 <= i < after.payments.len() implies (#[trigger] after.payments[i]).amount@
        > 0 && after.payments[i].salesid < after.sales.len() by {
        if i < state.payments.len() {
            assert(after.payments[i] == state.payments[i]);
        }
    }
}

/// Recording an allowance keeps the ledger consistent.
pub proof fn lemma_allowance_keeps_consistent(state: LedgerState, allowance: Allowance)
    requires
        state.consistent(),
        allowance.allowanceid == state.allowances.len(),
    ensures
        state.with_allowance(allowance).consistent(),
{
}

/// Recording the share of a truck in a recorded allowance keeps the ledger
/// consistent.
pub proof fn lemma_truck_allowance_keeps_consistent(state: LedgerState, share: TruckAllowance)
    requires
        state.consistent(),
        share.id == state.truck_allowances.len(),
        share.allowanceid < state.allowances.len(),
    ensures
        state.with_truck_allowance(share).consistent(),
{
}

/// The state in which nothing was recorded is consistent.
pub proof fn lemma_empty_consistent()
    ensures
        LedgerState::empty().consistent(),
{
    assert(delivered_items(LedgerState::empty().delivery_lines) =~= Seq::<LineItem>::empty());
    assert(loaded_items(LedgerState::empty().truck_load_lines) =~= Seq::<LineItem>::empty());
}

} // verus!
