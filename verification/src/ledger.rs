//! The ledger store: every table of the pipeline in one value, and the
//! operations that change it. Each operation is applied as a whole or not at
//! all, and keeps the stock ledger reconciled with the history of deliveries
//! and truck loads, and every sale with the payments made against it.

use crate::dates::{CalendarDate, Timestamp};
use crate::error::{Entity, LedgerError};
use crate::history::{delivered_by, deliveries_of, newest_first, sorted_newest_first};
use crate::models::{
    Allowance, Delivery, DeliveryProduct, Payment, Product, Sale, SaleProduct, SaleStatus,
    TruckAllowance, TruckLoad, TruckLoadProduct,
};
use crate::money::Amount;
use crate::sale::{
    first_unpriced, price_found, price_items, sale_total, total_of, totals_representable,
    validate_amount, PricedLine,
};
use crate::state::{
    delivery_lines, lemma_allowance_keeps_consistent, lemma_delivery_keeps_consistent,
    lemma_empty_consistent, lemma_payment_keeps_consistent, lemma_price_keeps_consistent,
    lemma_product_keeps_consistent, lemma_sale_keeps_consistent,
    lemma_truck_allowance_keeps_consistent, lemma_truck_load_keeps_consistent, sale_lines,
    truck_load_lines, unknown_product, LedgerState,
};
use crate::stock::{
    all_covered, all_holdable, all_valid, demand, dispatch_refused, on_hand, validate_items,
    LineItem, StockLedger,
};
use vstd::prelude::*;

verus! {

/// Line item `k` was found to name a recorded product.
pub open spec fn flagged(known: Seq<bool>, k: int) -> bool {
    0 <= k < known.len() && known[k]
}

/// Line item `k` is the first of the batch that was not found to name a
/// recorded product.
pub open spec fn first_unflagged(items: Seq<LineItem>, known: Seq<bool>, k: int) -> bool {
    &&& 0 <= k < items.len()
    &&& !flagged(known, k)
    &&& forall|j: int| 0 <= j < k ==> #[trigger] flagged(known, j)
}

/// Decides on a batch once each of its line items was looked up: `known`
/// says for each line item in order whether its product is recorded. The
/// first line item whose product is not refuses the batch.
pub fn require_known(items: &Vec<LineItem>, known: &Vec<bool>) -> (r: Result<(), LedgerError>)
    ensures
        match r {
            Ok(()) => forall|k: int| 0 <= k < items@.len() ==> #[trigger] flagged(known@, k),
            Err(e) => exists|k: int|
                first_unflagged(items@, known@, k) && e == unknown_product(items@[k].product_id),
        },
{
    let mut i: usize = 0;
    while i < items.len()
        invariant
            0 <= i <= items.len(),
            forall|j: int| 0 <= j < i ==> #[trigger] flagged(known@, j),
        decreases items.len() - i,
    {
        if i >= known.len() || !known[i] {
            assert(first_unflagged(items@, known@, i as int));
            return Err(
                LedgerError::NotFound { entity: Entity::Product, id: items[i].product_id },
            );
        }
        i = i + 1;
    }
    Ok(())
}

/// The lines of a delivery for a batch.
fn lines_of_delivery(deliveryid: u128, items: &Vec<LineItem>) -> (lines: Vec<DeliveryProduct>)
    ensures
        lines@ == delivery_lines(deliveryid, items@),
{
    let mut lines: Vec<DeliveryProduct> = Vec::new();
    let mut i: usize = 0;
    while i < items.len()
        invariant
            0 <= i <= items.len(),
            lines@ == delivery_lines(deliveryid, items@.take(i as int)),
        decreases items.len() - i,
    {
        let item: LineItem = items[i];
        lines.push(
            DeliveryProduct {
                deliveryid,
                productid: item.product_id,
                quantity: item.quantity,
            },
        );
        i = i + 1;
    }
    assert(items@.take(items@.len() as int) =~= items@);
    lines
}

/// The lines of a truck load for a batch.
fn lines_of_truck_load(truckloadid: u128, items: &Vec<LineItem>) -> (lines: Vec<TruckLoadProduct>)
    ensures
        lines@ == truck_load_lines(truckloadid, items@),
{
    let mut lines: Vec<TruckLoadProduct> = Vec::new();
    let mut i: usize = 0;
    while i < items.len()
        invariant
            0 <= i <= items.len(),
            lines@ == truck_load_lines(truckloadid, items@.take(i as int)),
        decreases items.len() - i,
    {
        let item: LineItem = items[i];
        lines.push(
            TruckLoadProduct {
                truckloadid,
                productid: item.product_id,
                quantity: item.quantity,
            },
        );
        i = i + 1;
    }
    assert(items@.take(items@.len() as int) =~= items@);
    lines
}

/// The lines of a sale for a batch.
fn lines_of_sale(salesid: u128, items: &Vec<LineItem>) -> (lines: Vec<SaleProduct>)
    ensures
        lines@ == sale_lines(salesid, items@),
{
    let mut lines: Vec<SaleProduct> = Vec::new();
    let mut i: usize = 0;
    while i < items.len()
        invariant
            0 <= i <= items.len(),
            lines@ == sale_lines(salesid, items@.take(i as int)),
        decreases items.len() - i,
    {
        let item: LineItem = items[i];
        lines.push(SaleProduct { salesid, productid: item.product_id, quantity: item.quantity });
        i = i + 1;
    }
    assert(items@.take(items@.len() as int) =~= items@);
    lines
}

/// The ledger store.
pub struct Ledger {
    products: Vec<Product>,
    stock: StockLedger,
    deliveries: Vec<Delivery>,
    delivery_products: Vec<DeliveryProduct>,
    truck_loads: Vec<TruckLoad>,
    truck_load_products: Vec<TruckLoadProduct>,
    sales: Vec<Sale>,
    sale_products: Vec<SaleProduct>,
    payments: Vec<Payment>,
    allowances: Vec<Allowance>,
    truck_allowances: Vec<TruckAllowance>,
}

impl View for Ledger {
    type V = LedgerState;

    closed spec fn view(&self) -> LedgerState {
        LedgerState {
            products: self.products@,
            stock: self.stock@,
            deliveries: self.deliveries@,
            delivery_lines: self.delivery_products@,
            truck_loads: self.truck_loads@,
            truck_load_lines: self.truck_load_products@,
            sales: self.sales@,
            sale_lines: self.sale_products@,
            payments: self.payments@,
            allowances: self.allowances@,
            truck_allowances: self.truck_allowances@,
        }
    }
}

impl Ledger {
    /// The ledger holds a consistent state.
    pub open spec fn wf(&self) -> bool {
        self@.consistent()
    }

    /// A ledger in which nothing was recorded yet.
    pub fn new() -> (ledger: Ledger)
        ensures
            ledger.wf(),
            ledger@ == LedgerState::empty(),
    {
        let ledger = Ledger {
            products: Vec::new(),
            stock: StockLedger::new(),
            deliveries: Vec::new(),
            delivery_products: Vec::new(),
            truck_loads: Vec::new(),
            truck_load_products: Vec::new(),
            sales: Vec::new(),
            sale_products: Vec::new(),
            payments: Vec::new(),
            allowances: Vec::new(),
            truck_allowances: Vec::new(),
        };
        proof {
            assert(ledger@ =~= LedgerState::empty());
            lemma_empty_consistent();
        }
        ledger
    }

    /// The quantity on hand of a product.
    pub fn on_hand(&self, product_id: u128) -> (q: i32)
        ensures
            q == on_hand(self@.stock, product_id),
    {
        self.stock.on_hand(product_id)
    }

    /// For each line item in order, whether its product is recorded.
    fn known_flags(&self, items: &Vec<LineItem>) -> (known: Vec<bool>)
        ensures
            known@ == self@.known_flags(items@),
    {
        let recorded: usize = self.products.len();
        let mut known: Vec<bool> = Vec::new();
        let mut i: usize = 0;
        while i < items.len()
            invariant
                0 <= i <= items.len(),
                recorded == self@.products.len(),
                known@ == self@.known_flags(items@.take(i as int)),
            decreases items.len() - i,
        {
            known.push(items[i].product_id < recorded as u128);
            assert(known@ =~= self@.known_flags(items@.take(i + 1)));
            i = i + 1;
        }
        assert(items@.take(items@.len() as int) =~= items@);
        known
    }

    /// Checks that every line item names a recorded product, and reports
    /// the first that does not.
    fn check_products(&self, items: &Vec<LineItem>) -> (r: Result<(), LedgerError>)
        ensures
            match r {
                Ok(()) => self@.all_known(items@),
                Err(e) => exists|k: int|
                    self@.first_unknown(items@, k) && e == unknown_product(items@[k].product_id),
            },
    {
        let known: Vec<bool> = self.known_flags(items);
        let r = require_known(items, &known);
        proof {
            match r {
                Ok(()) => {
                    assert forall|k: int| 0 <= k < items@.len() implies self@.knows_product(
                        (#[trigger] items@[k]).product_id,
                    ) by {
                        assert(flagged(known@, k));
                    }
                },
                Err(e) => {
                    let k = choose|k: int|
                        first_unflagged(items@, known@, k) && e == unknown_product(
                            items@[k].product_id,
                        );
                    assert forall|j: int| 0 <= j < k implies self@.knows_product(
                        (#[trigger] items@[j]).product_id,
                    ) by {
                        assert(flagged(known@, j));
                    }
                    assert(self@.first_unknown(items@, k));
                },
            }
        }
        r
    }

    /// Records a delivery: the batch is credited to the stock ledger and
    /// recorded with its lines, or nothing is.
    pub fn create_delivery(
        &mut self,
        user_id: u128,
        date: CalendarDate,
        items: &Vec<LineItem>,
    ) -> (r: Result<Delivery, LedgerError>)
        requires
            old(self).wf(),
        ensures
            final(self).wf(),
            r is Ok <==> all_valid(items@) && old(self)@.all_known(items@) && all_holdable(
                old(self)@.stock,
                items@,
            ),
            match r {
                Ok(delivery) => {
                    &&& all_valid(items@)
                    &&& old(self)@.all_known(items@)
                    &&& all_holdable(old(self)@.stock, items@)
                    &&& delivery == (Delivery {
                        deliveryid: old(self)@.deliveries.len() as u128,
                        date,
                        userid: user_id,
                    })
                    &&& final(self)@ == old(self)@.with_delivery(delivery, items@)
                    &&& forall|p: u128|
                        on_hand(final(self)@.stock, p) == on_hand(old(self)@.stock, p)
                            + #[trigger] demand(items@, p)
                },
                Err(e) => final(self)@ == old(self)@ && old(self)@.intake_refused(items@, e),
            },
    {
        match validate_items(items) {
            Err(e) => {
                return Err(e);
            },
            Ok(()) => {},
        }
        match self.check_products(items) {
            Err(e) => {
                return Err(e);
            },
            Ok(()) => {},
        }
        match self.stock.receive(items) {
            Err(e) => {
                return Err(e);
            },
            Ok(()) => {},
        }
        let delivery = Delivery {
            deliveryid: self.deliveries.len() as u128,
            date,
            userid: user_id,
        };
        let mut lines: Vec<DeliveryProduct> = lines_of_delivery(delivery.deliveryid, items);
        self.deliveries.push(delivery);
        self.delivery_products.append(&mut lines);
        proof {
            assert(self@ =~= old(self)@.with_delivery(delivery, items@));
            lemma_delivery_keeps_consistent(old(self)@, delivery, items@);
        }
        Ok(delivery)
    }

    /// Records a truck load: the batch is debited from the stock ledger,
    /// line item by line item in the order given, and recorded with its
    /// lines; or, where a line item asks for more than is left for it,
    /// nothing is.
    pub fn create_truck_load(
        &mut self,
        driver_id: u128,
        truck_id: u128,
        date: CalendarDate,
        items: &Vec<LineItem>,
        now: Timestamp,
    ) -> (r: Result<TruckLoad, LedgerError>)
        requires
            old(self).wf(),
        ensures
            final(self).wf(),
            r is Ok <==> all_valid(items@) && all_covered(old(self)@.stock, items@),
            match r {
                Ok(load) => {
                    &&& all_valid(items@)
                    &&& all_covered(old(self)@.stock, items@)
                    &&& load == (TruckLoad {
                        truckloadid: old(self)@.truck_loads.len() as u128,
                        date,
                        userid: driver_id,
                        truckid: truck_id,
                        created_at: Some(now),
                        updated_at: Some(now),
                    })
                    &&& final(self)@ == old(self)@.with_truck_load(load, items@)
                    &&& forall|p: u128|
                        on_hand(final(self)@.stock, p) == on_hand(old(self)@.stock, p)
                            - #[trigger] demand(items@, p)
                },
                Err(e) => final(self)@ == old(self)@ && dispatch_refused(
                    old(self)@.stock,
                    items@,
                    e,
                ),
            },
    {
        match self.stock.dispatch(items) {
            Err(e) => {
                return Err(e);
            },
            Ok(()) => {},
        }
        let load = TruckLoad {
            truckloadid: self.truck_loads.len() as u128,
            date,
            userid: driver_id,
            truckid: truck_id,
            created_at: Some(now),
            updated_at: Some(now),
        };
        let mut lines: Vec<TruckLoadProduct> = lines_of_truck_load(load.truckloadid, items);
        self.truck_loads.push(load);
        self.truck_load_products.append(&mut lines);
        proof {
            assert(self@ =~= old(self)@.with_truck_load(load, items@));
            lemma_truck_load_keeps_consistent(old(self)@, load, items@);
        }
        Ok(load)
    }

    /// For each line item in order, the unit price of its product as it
    /// stands, where the product is recorded.
    fn prices_of(&self, items: &Vec<LineItem>) -> (prices: Vec<Option<Amount>>)
        ensures
            prices@ == self@.prices_of(items@),
    {
        let mut prices: Vec<Option<Amount>> = Vec::new();
        let mut i: usize = 0;
        while i < items.len()
            invariant
                0 <= i <= items.len(),
                prices@ == self@.prices_of(items@.take(i as int)),
            decreases items.len() - i,
        {
            let product_id: u128 = items[i].product_id;
            if product_id < self.products.len() as u128 {
                prices.push(Some(self.products[product_id as usize].price));
            } else {
                prices.push(None);
            }
            assert(prices@ =~= self@.prices_of(items@.take(i + 1)));
            i = i + 1;
        }
        assert(items@.take(items@.len() as int) =~= items@);
        prices
    }

    /// The line items of a batch with the unit prices of their products as
    /// they stand, unless one names no recorded product.
    fn price_lines(&self, items: &Vec<LineItem>) -> (r: Result<Vec<PricedLine>, LedgerError>)
        ensures
            match r {
                Ok(lines) => self@.all_known(items@) && lines@ == self@.priced(items@),
                Err(e) => exists|k: int|
                    self@.first_unknown(items@, k) && e == unknown_product(items@[k].product_id),
            },
    {
        let prices: Vec<Option<Amount>> = self.prices_of(items);
        let r = price_items(items, &prices);
        proof {
            match &r {
                Ok(lines) => {
                    assert forall|k: int| 0 <= k < items@.len() implies self@.knows_product(
                        (#[trigger] items@[k]).product_id,
                    ) by {
                        assert(price_found(prices@, k) is Some);
                    }
                    assert(lines@ =~= self@.priced(items@));
                },
                Err(e) => {
                    let k = choose|k: int|
                        first_unpriced(items@, prices@, k) && *e == unknown_product(
                            items@[k].product_id,
                        );
                    assert forall|j: int| 0 <= j < k implies self@.knows_product(
                        (#[trigger] items@[j]).product_id,
                    ) by {
                        assert(price_found(prices@, j) is Some);
                    }
                    assert(self@.first_unknown(items@, k));
                },
            }
        }
        r
    }

    /// Records a sale of part of a truck load to a shop. Its total is the
    /// sum over the line items of the unit price that the product has now
    /// times the quantity; nothing is paid yet and the sale is pending.
    pub fn create_sale(
        &mut self,
        truckload_id: u128,
        shop_id: u128,
        date: CalendarDate,
        items: &Vec<LineItem>,
        now: Timestamp,
    ) -> (r: Result<Sale, LedgerError>)
        requires
            old(self).wf(),
        ensures
            final(self).wf(),
            r is Ok <==> all_valid(items@) && old(self)@.all_known(items@) && totals_representable(
                old(self)@.priced(items@),
            ),
            match r {
                Ok(sale) => {
                    &&& all_valid(items@)
                    &&& old(self)@.all_known(items@)
                    &&& totals_representable(old(self)@.priced(items@))
                    &&& sale.total_amount@ == total_of(old(self)@.priced(items@))
                    &&& sale == (Sale {
                        salesid: old(self)@.sales.len() as u128,
                        truckloadid: truckload_id,
                        shopid: shop_id,
                        date,
                        status: SaleStatus::Pending,
                        total_amount: sale.total_amount,
                        paid_amount: Amount { hundredths: 0 },
                        created_at: Some(now),
                        updated_at: Some(now),
                    })
                    &&& final(self)@ == old(self)@.with_sale(sale, items@)
                },
                Err(e) => final(self)@ == old(self)@ && old(self)@.sale_refused(items@, e),
            },
    {
        match validate_items(items) {
            Err(e) => {
                return Err(e);
            },
            Ok(()) => {},
        }
        let priced: Vec<PricedLine> = match self.price_lines(items) {
            Err(e) => {
                return Err(e);
            },
            Ok(lines) => lines,
        };
        let total: Amount = match sale_total(&priced) {
            Err(e) => {
                return Err(e);
            },
            Ok(total) => total,
        };
        let sale: Sale = Sale::open(
            self.sales.len() as u128,
            truckload_id,
            shop_id,
            date,
            total,
            now,
        );
        let mut lines: Vec<SaleProduct> = lines_of_sale(sale.salesid, items);
        self.sales.push(sale);
        self.sale_products.append(&mut lines);
        proof {
            assert(self@ =~= old(self)@.with_sale(sale, items@));
            lemma_sale_keeps_consistent(old(self)@, sale, items@);
        }
        Ok(sale)
    }

    /// Records a payment against a sale: the amount paid on the sale grows
    /// by the amount, and the sale is paid once the amount paid has reached
    /// its total. More than is owed is taken as it is.
    pub fn create_payment(
        &mut self,
        salesid: u128,
        amount: Amount,
        method: String,
        date: CalendarDate,
        now: Timestamp,
    ) -> (r: Result<Payment, LedgerError>)
        requires
            old(self).wf(),
        ensures
            final(self).wf(),
            r is Ok <==> old(self)@.payment_check(salesid, amount) is Ok,
            match r {
                Ok(payment) => {
                    &&& old(self)@.payment_check(salesid, amount) is Ok
                    &&& payment == (Payment {
                        paymentid: old(self)@.payments.len() as u128,
                        salesid,
                        amount,
                        method,
                        date,
                        created_at: Some(now),
                        updated_at: Some(now),
                    })
                    &&& final(self)@ == old(self)@.with_payment(payment, now)
                },
                Err(e) => final(self)@ == old(self)@ && old(self)@.payment_check(salesid, amount)
                    == Err::<(), LedgerError>(e),
            },
    {
        match validate_amount(amount) {
            Err(e) => {
                return Err(e);
            },
            Ok(()) => {},
        }
        if salesid >= self.sales.len() as u128 {
            return Err(LedgerError::NotFound { entity: Entity::Sale, id: salesid });
        }
        let index: usize = salesid as usize;
        let mut sale: Sale = self.sales[index];
        match sale.apply_payment(amount, now) {
            Err(e) => {
                return Err(e);
            },
            Ok(()) => {},
        }
        let payment = Payment {
            paymentid: self.payments.len() as u128,
            salesid,
            amount,
            method,
            date,
            created_at: Some(now),
            updated_at: Some(now),
        };
        let receipt: Payment = payment.duplicate();
        self.sales[index] = sale;
        self.payments.push(payment);
        proof {
            assert(self@ =~= old(self)@.with_payment(payment, now));
            lemma_payment_keeps_consistent(old(self)@, payment, now);
        }
        Ok(receipt)
    }

    /// Records a product. Its commission is zero where none is given.
    pub fn create_product(
        &mut self,
        name: &str,
        price: Amount,
        unit_type: &str,
        commission: Option<Amount>,
        now: Timestamp,
    ) -> (product: Product)
        requires
            old(self).wf(),
        ensures
            final(self).wf(),
            product.id == old(self)@.products.len(),
            product.name@ == name@,
            product.price == price,
            product.unit_type@ == unit_type@,
            product.commission == match commission {
                Some(rate) => rate,
                None => Amount { hundredths: 0 },
            },
            product.created_at == Some(now),
            product.updated_at == Some(now),
            final(self)@ == old(self)@.with_product(product),
    {
        let product = Product {
            id: self.products.len() as u128,
            name: name.to_owned(),
            price,
            unit_type: unit_type.to_owned(),
            commission: Amount::or_zero(commission),
            created_at: Some(now),
            updated_at: Some(now),
        };
        let copy: Product = product.duplicate();
        self.products.push(product);
        proof {
            assert(self@ =~= old(self)@.with_product(product));
            lemma_product_keeps_consistent(old(self)@, product);
        }
        copy
    }

    /// Sets the unit price of a product. Sales that were recorded keep the
    /// totals they were recorded with.
    pub fn update_product_price(&mut self, product_id: u128, price: Amount, now: Timestamp) -> (r:
        Result<(), LedgerError>)
        requires
            old(self).wf(),
        ensures
            final(self).wf(),
            r == if old(self)@.knows_product(product_id) {
                Ok::<(), LedgerError>(())
            } else {
                Err(unknown_product(product_id))
            },
            final(self)@ == if old(self)@.knows_product(product_id) {
                old(self)@.with_price(product_id, price, now)
            } else {
                old(self)@
            },
    {
        if product_id >= self.products.len() as u128 {
            return Err(LedgerError::NotFound { entity: Entity::Product, id: product_id });
        }
        let index: usize = product_id as usize;
        let mut product: Product = self.products[index].duplicate();
        product.price = price;
        product.updated_at = Some(now);
        self.products[index] = product;
        proof {
            assert(self@ =~= old(self)@.with_price(product_id, price, now));
            lemma_price_keeps_consistent(old(self)@, product_id, price, now);
        }
        Ok(())
    }

    /// Records a dated amount of cash given out.
    pub fn create_allowance(
        &mut self,
        date: CalendarDate,
        amount: Amount,
        notes: Option<String>,
        now: Timestamp,
    ) -> (allowance: Allowance)
        requires
            old(self).wf(),
        ensures
            final(self).wf(),
            allowance == (Allowance {
                allowanceid: old(self)@.allowances.len() as u128,
                date,
                amount,
                notes,
                created_at: Some(now),
                updated_at: Some(now),
            }),
            final(self)@ == old(self)@.with_allowance(allowance),
    {
        let allowance = Allowance {
            allowanceid: self.allowances.len() as u128,
            date,
            amount,
            notes,
            created_at: Some(now),
            updated_at: Some(now),
        };
        let copy: Allowance = allowance.duplicate();
        self.allowances.push(allowance);
        proof {
            assert(self@ =~= old(self)@.with_allowance(allowance));
            lemma_allowance_keeps_consistent(old(self)@, allowance);
        }
        copy
    }

    /// Records the share of an allowance that a truck was given, unless no
    /// such allowance is recorded.
    pub fn create_truck_allowance(
        &mut self,
        allowanceid: u128,
        truckid: u128,
        amount: Amount,
        now: Timestamp,
    ) -> (r: Result<TruckAllowance, LedgerError>)
        requires
            old(self).wf(),
        ensures
            final(self).wf(),
            r is Ok <==> allowanceid < old(self)@.allowances.len(),
            match r {
                Ok(share) => {
                    &&& allowanceid < old(self)@.allowances.len()
                    &&& share == (TruckAllowance {
                        id: old(self)@.truck_allowances.len() as u128,
                        allowanceid,
                        truckid,
                        amount,
                        created_at: Some(now),
                        updated_at: Some(now),
                    })
                    &&& final(self)@ == old(self)@.with_truck_allowance(share)
                },
                Err(e) => {
                    &&& allowanceid >= old(self)@.allowances.len()
                    &&& e == (LedgerError::NotFound { entity: Entity::Allowance, id: allowanceid })
                    &&& final(self)@ == old(self)@
                },
            },
    {
        if allowanceid >= self.allowances.len() as u128 {
            return Err(LedgerError::NotFound { entity: Entity::Allowance, id: allowanceid });
        }
        let share = TruckAllowance {
            id: self.truck_allowances.len() as u128,
            allowanceid,
            truckid,
            amount,
            created_at: Some(now),
            updated_at: Some(now),
        };
        self.truck_allowances.push(share);
        proof {
            assert(self@ =~= old(self)@.with_truck_allowance(share));
            lemma_truck_allowance_keeps_consistent(old(self)@, share);
        }
        Ok(share)
    }

    /// The product of that identity, where one is recorded.
    pub fn get_product_by_id(&self, product_id: u128) -> (r: Option<Product>)
        ensures
            r == if self@.knows_product(product_id) {
                Some(self@.products[product_id as int])
            } else {
                None::<Product>
            },
    {
        if product_id >= self.products.len() as u128 {
            return None;
        }
        Some(self.products[product_id as usize].duplicate())
    }

    /// Every recorded product, in the order of recording.
    pub fn get_all_products(&self) -> (all: Vec<Product>)
        ensures
            all@ == self@.products,
    {
        let mut all: Vec<Product> = Vec::new();
        let mut i: usize = 0;
        while i < self.products.len()
            invariant
                0 <= i <= self.products.len(),
                all@ == self.products@.take(i as int),
            decreases self.products.len() - i,
        {
            all.push(self.products[i].duplicate());
            assert(all@ =~= self.products@.take(i + 1));
            i = i + 1;
        }
        assert(self.products@.take(self.products@.len() as int) =~= self.products@);
        all
    }

    /// The sale of that identity, where one is recorded.
    pub fn sale(&self, salesid: u128) -> (r: Option<Sale>)
        ensures
            r == if salesid < self@.sales.len() {
                Some(self@.sales[salesid as int])
            } else {
                None::<Sale>
            },
    {
        if salesid >= self.sales.len() as u128 {
            return None;
        }
        Some(self.sales[salesid as usize])
    }

    /// Every recorded delivery, in the order of recording.
    pub fn deliveries(&self) -> (all: Vec<Delivery>)
        ensures
            all@ == self@.deliveries,
    {
        self.deliveries.clone()
    }

    /// The lines of every recorded delivery, in the order of recording.
    pub fn delivery_lines(&self) -> (all: Vec<DeliveryProduct>)
        ensures
            all@ == self@.delivery_lines,
    {
        self.delivery_products.clone()
    }

    /// Every recorded truck load, in the order of recording.
    pub fn truck_loads(&self) -> (all: Vec<TruckLoad>)
        ensures
            all@ == self@.truck_loads,
    {
        self.truck_loads.clone()
    }

    /// The lines of every recorded truck load, in the order of recording.
    pub fn truck_load_lines(&self) -> (all: Vec<TruckLoadProduct>)
        ensures
            all@ == self@.truck_load_lines,
    {
        self.truck_load_products.clone()
    }

    /// The lines of every recorded sale, in the order of recording.
    pub fn sale_lines(&self) -> (all: Vec<SaleProduct>)
        ensures
            all@ == self@.sale_lines,
    {
        self.sale_products.clone()
    }

    /// The deliveries that a user took in, newest first.
    pub fn get_deliveries_by_user(&self, user_id: u128) -> (found: Vec<Delivery>)
        ensures
            newest_first(found@),
            found@.to_multiset() == self@.deliveries.filter(delivered_by(user_id)).to_multiset(),
    {
        let taken: Vec<Delivery> = deliveries_of(&self.deliveries, user_id);
        sorted_newest_first(&taken)
    }

    /// Every recorded truck load, newest first.
    pub fn get_all_truck_loads(&self) -> (all: Vec<TruckLoad>)
        ensures
            newest_first(all@),
            all@.to_multiset() == self@.truck_loads.to_multiset(),
    {
        sorted_newest_first(&self.truck_loads)
    }

    /// The number of payments recorded.
    pub fn payment_count(&self) -> (n: usize)
        ensures
            n == self@.payments.len(),
    {
        self.payments.len()
    }
}

} // verus!
