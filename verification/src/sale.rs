//! Sales and their payments: the total of a sale is fixed from the unit
//! prices at the time it is recorded, and payments move it from pending to
//! paid.

use crate::dates::{CalendarDate, Timestamp};
use crate::error::{Entity, LedgerError, StorageError, ValidationError};
use crate::models::{Sale, SaleStatus};
use crate::money::{representable, Amount};
use crate::stock::LineItem;
use vstd::prelude::*;

verus! {

/// A line item of a sale together with the unit price of its product at the
/// time of the sale.
#[derive(Clone, Copy, Debug, PartialEq, Eq, Structural)]
pub struct PricedLine {
    pub product_id: u128,
    pub quantity: i32,
    pub unit_price: Amount,
}

/// The unit price looked up for line item `k`, where its product was found.
pub open spec fn price_found(prices: Seq<Option<Amount>>, k: int) -> Option<Amount> {
    if 0 <= k < prices.len() {
        prices[k]
    } else {
        None
    }
}

/// Line item `k` is the first of the batch for whose product no price was
/// found.
pub open spec fn first_unpriced(items: Seq<LineItem>, prices: Seq<Option<Amount>>, k: int) -> bool {
    &&& 0 <= k < items.len()
    &&& price_found(prices, k) is None
    &&& forall|j: int| 0 <= j < k ==> #[trigger] price_found(prices, j) is Some
}

/// The line items of a batch, each with the unit price found for it.
pub open spec fn priced_with(items: Seq<LineItem>, prices: Seq<Option<Amount>>) -> Seq<PricedLine> {
    Seq::new(
        items.len(),
        |k: int|
            PricedLine {
                product_id: items[k].product_id,
                quantity: items[k].quantity,
                unit_price: price_found(prices, k)->0,
            },
    )
}

/// Joins the line items of a batch with the unit prices that were looked
/// up for them, one for each line item in order. A line item for whose
/// product no price was found refuses the batch: the product does not
/// exist.
pub fn price_items(items: &Vec<LineItem>, prices: &Vec<Option<Amount>>) -> (r: Result<
    Vec<PricedLine>,
    LedgerError,
>)
    ensures
        match r {
            Ok(lines) => {
                &&& forall|k: int| 0 <= k < items@.len() ==> #[trigger] price_found(prices@, k) is Some
                &&& lines@ == priced_with(items@, prices@)
            },
            Err(e) => exists|k: int|
                first_unpriced(items@, prices@, k) && e == (LedgerError::NotFound {
                    entity: Entity::Product,
                    id: items@[k].product_id,
                }),
        },
{
    let mut lines: Vec<PricedLine> = Vec::new();
    let mut i: usize = 0;
    while i < items.len()
        invariant
            0 <= i <= items.len(),
            forall|j: int| 0 <= j < i ==> #[trigger] price_found(prices@, j) is Some,
            lines@ == priced_with(items@.take(i as int), prices@),
        decreases items.len() - i,
    {
        let item: LineItem = items[i];
        let found: Option<Amount> = if i < prices.len() {
            prices[i]
        } else {
            None
        };
        match found {
            None => {
                assert(first_unpriced(items@, prices@, i as int));
                return Err(LedgerError::NotFound { entity: Entity::Product, id: item.product_id });
            },
            Some(unit_price) => {
                lines.push(
                    PricedLine { product_id: item.product_id, quantity: item.quantity, unit_price },
                );
            },
        }
        assert(lines@ =~= priced_with(items@.take(i + 1), prices@));
        i = i + 1;
    }
    assert(items@.take(items@.len() as int) =~= items@);
    Ok(lines)
}

/// The price of one line: unit price times quantity, in hundredths.
pub open spec fn line_total(line: PricedLine) -> int {
    line.unit_price@ * line.quantity
}

/// The sum of the prices of the lines, in hundredths.
pub open spec fn total_of(lines: Seq<PricedLine>) -> int
    decreases lines.len(),
{
    if lines.len() == 0 {
        0
    } else {
        total_of(lines.drop_last()) + line_total(lines.last())
    }
}

/// The running total can be held after every line.
pub open spec fn totals_representable(lines: Seq<PricedLine>) -> bool {
    forall|k: int| 0 <= k <= lines.len() ==> representable(#[trigger] total_of(lines.take(k)))
}

/// The total of a prefix grows by the line that follows it.
pub proof fn lemma_total_take(lines: Seq<PricedLine>, k: int)
    requires
        0 <= k < lines.len(),
    ensures
        total_of(lines.take(k + 1)) == total_of(lines.take(k)) + line_total(lines[k]),
{
    assert(lines.take(k + 1).drop_last() =~= lines.take(k));
}

/// The product of a unit price and a quantity stays far inside 128 bits.
proof fn lemma_line_total_bounds(price: i64, quantity: i32)
    ensures
        -0x4000_0000_0000_0000_0000_0000 <= price * quantity <= 0x4000_0000_0000_0000_0000_0000,
{
    assert(-0x4000_0000_0000_0000_0000_0000 <= price * quantity
        <= 0x4000_0000_0000_0000_0000_0000) by (nonlinear_arith)
        requires
            -0x8000_0000_0000_0000 <= price <= 0x7fff_ffff_ffff_ffff,
            -0x8000_0000 <= quantity <= 0x7fff_ffff,
    ;
}

/// The total of a sale: the sum over its lines of unit price times
/// quantity. It is refused where the running total leaves the range of an
/// amount.
pub fn sale_total(lines: &Vec<PricedLine>) -> (r: Result<Amount, LedgerError>)
    ensures
        match r {
            Ok(total) => totals_representable(lines@) && total@ == total_of(lines@),
            Err(e) => !totals_representable(lines@) && e == LedgerError::Storage(
                StorageError::AmountOutOfRange,
            ),
        },
{
    let mut total: i64 = 0;
    let mut i: usize = 0;
    assert(lines@.take(0) =~= Seq::<PricedLine>::empty());
    while i < lines.len()
        invariant
            0 <= i <= lines.len(),
            total == total_of(lines@.take(i as int)),
            forall|k: int| 0 <= k <= i ==> representable(#[trigger] total_of(lines@.take(k))),
        decreases lines.len() - i,
    {
        let line: PricedLine = lines[i];
        proof {
            lemma_line_total_bounds(line.unit_price.hundredths, line.quantity);
            lemma_total_take(lines@, i as int);
        }
        let price: i128 = line.unit_price.hundredths as i128;
        let quantity: i128 = line.quantity as i128;
        let next: i128 = total as i128 + price * quantity;
        if next < i64::MIN as i128 || next > i64::MAX as i128 {
            assert(!representable(total_of(lines@.take(i + 1))));
            return Err(LedgerError::Storage(StorageError::AmountOutOfRange));
        }
        total = next as i64;
        i = i + 1;
    }
    assert(lines@.take(lines@.len() as int) =~= lines@);
    Ok(Amount { hundredths: total })
}

/// The failure reported for a payment whose amount is not greater than
/// zero.
pub open spec fn invalid_amount(amount: Amount) -> LedgerError {
    LedgerError::Validation(ValidationError::NonPositiveAmount { hundredths: amount.hundredths })
}

/// Checks that the amount of a payment is greater than zero.
pub fn validate_amount(amount: Amount) -> (r: Result<(), LedgerError>)
    ensures
        r == if amount@ > 0 {
            Ok::<(), LedgerError>(())
        } else {
            Err(invalid_amount(amount))
        },
{
    if amount.hundredths > 0 {
        Ok(())
    } else {
        Err(
            LedgerError::Validation(
                ValidationError::NonPositiveAmount { hundredths: amount.hundredths },
            ),
        )
    }
}

/// What a payment of `amount` against a sale returns: nothing, unless the
/// amount is not greater than zero or the amount paid would leave its
/// range.
pub open spec fn payment_outcome(sale: Sale, amount: Amount) -> Result<(), LedgerError> {
    if amount@ <= 0 {
        Err(invalid_amount(amount))
    } else if !representable(sale.paid_amount@ + amount@) {
        Err(LedgerError::Storage(StorageError::AmountOutOfRange))
    } else {
        Ok(())
    }
}

/// A sale after a payment of `amount` at `now`: the amount paid grows by
/// it, and the sale is paid once the amount paid reaches the total. A paid
/// sale stays paid.
pub open spec fn settled(sale: Sale, amount: Amount, now: Timestamp) -> Sale {
    Sale {
        paid_amount: Amount { hundredths: (sale.paid_amount@ + amount@) as i64 },
        status: if sale.paid_amount@ + amount@ >= sale.total_amount@ {
            SaleStatus::Paid
        } else {
            sale.status
        },
        updated_at: Some(now),
        ..sale
    }
}

/// The status of a sale agrees with what was paid: it is paid exactly when
/// something was paid and the amount paid has reached the total.
pub open spec fn balanced(sale: Sale) -> bool {
    &&& sale.paid_amount@ >= 0
    &&& sale.status == SaleStatus::Paid <==> sale.paid_amount@ > 0 && sale.paid_amount@
        >= sale.total_amount@
}

impl Sale {
    /// A sale as it is first recorded: nothing paid, pending.
    pub fn open(
        salesid: u128,
        truckloadid: u128,
        shopid: u128,
        date: CalendarDate,
        total_amount: Amount,
        now: Timestamp,
    ) -> (sale: Sale)
        ensures
            sale == (Sale {
                salesid,
                truckloadid,
                shopid,
                date,
                status: SaleStatus::Pending,
                total_amount,
                paid_amount: Amount { hundredths: 0 },
                created_at: Some(now),
                updated_at: Some(now),
            }),
            balanced(sale),
    {
        Sale {
            salesid,
            truckloadid,
            shopid,
            date,
            status: SaleStatus::Pending,
            total_amount,
            paid_amount: Amount { hundredths: 0 },
            created_at: Some(now),
            updated_at: Some(now),
        }
    }

    /// Books a payment of `amount` against the sale. An amount over what is
    /// still owed is taken as it is.
    pub fn apply_payment(&mut self, amount: Amount, now: Timestamp) -> (r: Result<
        (),
        LedgerError,
    >)
        ensures
            r == payment_outcome(*old(self), amount),
            *final(self) == match r {
                Ok(()) => settled(*old(self), amount, now),
                Err(_) => *old(self),
            },
    {
        match validate_amount(amount) {
            Err(e) => {
                return Err(e);
            },
            Ok(()) => {},
        }
        match self.paid_amount.checked_add(amount) {
            None => Err(LedgerError::Storage(StorageError::AmountOutOfRange)),
            Some(paid) => {
                self.paid_amount = paid;
                if paid.at_least(self.total_amount) {
                    self.status = SaleStatus::Paid;
                }
                self.updated_at = Some(now);
                Ok(())
            },
        }
    }

    /// What is still owed on the sale: nothing once the amount paid has
    /// reached the total.
    pub fn remaining(&self) -> (r: Option<Amount>)
        ensures
            match r {
                Some(rest) => rest@ == if self.paid_amount@ >= self.total_amount@ {
                    0
                } else {
                    self.total_amount@ - self.paid_amount@
                },
                None => self.paid_amount@ < self.total_amount@ && !representable(
                    self.total_amount@ - self.paid_amount@,
                ),
            },
    {
        if self.paid_amount.at_least(self.total_amount) {
            Some(Amount { hundredths: 0 })
        } else {
            match self.total_amount.hundredths.checked_sub(self.paid_amount.hundredths) {
                Some(rest) => Some(Amount { hundredths: rest }),
                None => None,
            }
        }
    }
}

/// The sum of a sequence of amounts, in hundredths.
pub open spec fn sum_of(amounts: Seq<Amount>) -> int
    decreases amounts.len(),
{
    if amounts.len() == 0 {
        0
    } else {
        sum_of(amounts.drop_last()) + amounts.last()@
    }
}

/// Every amount of the sequence is greater than zero.
pub open spec fn all_positive(amounts: Seq<Amount>) -> bool {
    forall|k: int| 0 <= k < amounts.len() ==> (#[trigger] amounts[k])@ > 0
}

/// A sale after the payments `amounts`, booked in order at the instants
/// `stamps`.
pub open spec fn after_payments(sale: Sale, amounts: Seq<Amount>, stamps: Seq<Timestamp>) -> Sale
    decreases amounts.len(),
{
    if amounts.len() == 0 || stamps.len() != amounts.len() {
        sale
    } else {
        settled(
            after_payments(sale, amounts.drop_last(), stamps.drop_last()),
            amounts.last(),
            stamps.last(),
        )
    }
}

/// A sequence of positive amounts sums to at least nothing, and to more
/// than nothing where it is not empty.
pub proof fn lemma_sum_positive(amounts: Seq<Amount>)
    requires
        all_positive(amounts),
    ensures
        sum_of(amounts) >= 0,
        amounts.len() > 0 ==> sum_of(amounts) > 0,
    decreases amounts.len(),
{
    if amounts.len() > 0 {
        let rest = amounts.drop_last();
        assert forall|k: int| 0 <= k < rest.len() implies (#[trigger] rest[k])@ > 0 by {
            assert(rest[k] == amounts[k]);
        }
        lemma_sum_positive(rest);
        assert(amounts[amounts.len() - 1]@ > 0);
    }
}

/// Payments keep a sale balanced and add up in its amount paid.
pub proof fn lemma_payments_accumulate(sale: Sale, amounts: Seq<Amount>, stamps: Seq<Timestamp>)
    requires
        balanced(sale),
        amounts.len() == stamps.len(),
        all_positive(amounts),
        representable(sale.paid_amount@ + sum_of(amounts)),
    ensures
        after_payments(sale, amounts, stamps).paid_amount@ == sale.paid_amount@ + sum_of(amounts),
        after_payments(sale, amounts, stamps).total_amount == sale.total_amount,
        after_payments(sale, amounts, stamps).salesid == sale.salesid,
        balanced(after_payments(sale, amounts, stamps)),
    decreases amounts.len(),
{
    if amounts.len() > 0 {
        let rest = amounts.drop_last();
        assert forall|k: int| 0 <= k < rest.len() implies (#[trigger] rest[k])@ > 0 by {
            assert(rest[k] == amounts[k]);
        }
        assert(amounts[amounts.len() - 1]@ > 0);
        lemma_sum_positive(rest);
        lemma_payments_accumulate(sale, rest, stamps.drop_last());
    }
}

/// After one or more payments that sum to `P` against a newly recorded sale
/// with total `T`, the amount paid is `P`, and the sale is paid if and only
/// if `P >= T`. The total itself is as it was recorded.
pub proof fn payments_settle_sale(sale: Sale, amounts: Seq<Amount>, stamps: Seq<Timestamp>)
    requires
        sale.paid_amount@ == 0,
        sale.status == SaleStatus::Pending,
        amounts.len() == stamps.len(),
        amounts.len() >= 1,
        all_positive(amounts),
        representable(sum_of(amounts)),
    ensures
        after_payments(sale, amounts, stamps).paid_amount@ == sum_of(amounts),
        after_payments(sale, amounts, stamps).status == SaleStatus::Paid <==> sum_of(amounts)
            >= sale.total_amount@,
        after_payments(sale, amounts, stamps).total_amount == sale.total_amount,
{
    lemma_sum_positive(amounts);
    lemma_payments_accumulate(sale, amounts, stamps);
}

} // verus!
