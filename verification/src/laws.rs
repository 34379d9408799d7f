//! What holds of the ledger whatever is done with it.

use crate::dates::Timestamp;
use crate::state::{delivered_items, loaded_items, paid_to, LedgerState};
use crate::models::SaleStatus;
use crate::money::Amount;
use crate::sale::balanced;
use crate::stock::{
    all_covered, all_holdable, all_valid, covered, demand, dispatched, lemma_covered_demand,
    lemma_demand_bounds, lemma_demand_covered, lemma_demand_prefix, lemma_dispatched_on_hand,
    lemma_received_on_hand, non_negative, on_hand, received, LineItem,
};
use vstd::prelude::*;

verus! {

/// A batch that is offered to the stock ledger: a delivery to credit or a
/// truck load to debit.
pub enum Movement {
    Delivery(Seq<LineItem>),
    TruckLoad(Seq<LineItem>),
}

impl Movement {
    /// Whether the stock ledger takes the batch at these levels. A delivery
    /// is taken if its line items are valid and can all be credited, a truck
    /// load if its line items are valid and all covered.
    pub open spec fn accepted(self, levels: Map<u128, i32>) -> bool {
        match self {
            Movement::Delivery(items) => all_valid(items) && all_holdable(levels, items),
            Movement::TruckLoad(items) => all_valid(items) && all_covered(levels, items),
        }
    }

    /// The levels after the batch was offered: changed by the whole batch
    /// if it is taken, and as they were if it is refused.
    pub open spec fn after(self, levels: Map<u128, i32>) -> Map<u128, i32> {
        if self.accepted(levels) {
            match self {
                Movement::Delivery(items) => received(levels, items),
                Movement::TruckLoad(items) => dispatched(levels, items),
            }
        } else {
            levels
        }
    }

    /// What the batch delivers of a product at these levels: its demand if
    /// it is a delivery that is taken, and nothing otherwise.
    pub open spec fn delivers(self, levels: Map<u128, i32>, product_id: u128) -> int {
        match self {
            Movement::Delivery(items) if self.accepted(levels) => demand(items, product_id),
            _ => 0,
        }
    }

    /// What the batch takes away of a product at these levels: its demand
    /// if it is a truck load that is taken, and nothing otherwise.
    pub open spec fn loads(self, levels: Map<u128, i32>, product_id: u128) -> int {
        match self {
            Movement::TruckLoad(items) if self.accepted(levels) => demand(items, product_id),
            _ => 0,
        }
    }
}

/// The levels after a sequence of batches was offered, one after the other.
pub open spec fn after_all(levels: Map<u128, i32>, moves: Seq<Movement>) -> Map<u128, i32>
    decreases moves.len(),
{
    if moves.len() == 0 {
        levels
    } else {
        moves.last().after(after_all(levels, moves.drop_last()))
    }
}

/// What a sequence of batches delivered of a product.
pub open spec fn delivered(levels: Map<u128, i32>, moves: Seq<Movement>, product_id: u128) -> int
    decreases moves.len(),
{
    if moves.len() == 0 {
        0
    } else {
        delivered(levels, moves.drop_last(), product_id) + moves.last().delivers(
            after_all(levels, moves.drop_last()),
            product_id,
        )
    }
}

/// What a sequence of batches took away of a product.
pub open spec fn loaded(levels: Map<u128, i32>, moves: Seq<Movement>, product_id: u128) -> int
    decreases moves.len(),
{
    if moves.len() == 0 {
        0
    } else {
        loaded(levels, moves.drop_last(), product_id) + moves.last().loads(
            after_all(levels, moves.drop_last()),
            product_id,
        )
    }
}

/// One batch changes what is on hand of a product by what it delivers less
/// what it takes away, and leaves nothing negative.
pub proof fn lemma_movement(levels: Map<u128, i32>, movement: Movement, product_id: u128)
    requires
        non_negative(levels),
    ensures
        non_negative(movement.after(levels)),
        on_hand(movement.after(levels), product_id) == on_hand(levels, product_id)
            + movement.delivers(levels, product_id) - movement.loads(levels, product_id),
{
    if movement.accepted(levels) {
        match movement {
            Movement::Delivery(items) => {
                lemma_received_on_hand(levels, items);
            },
            Movement::TruckLoad(items) => {
                lemma_dispatched_on_hand(levels, items);
            },
        }
    }
}

/// A sequence of batches changes what is on hand of a product by what they
/// delivered less what they took away, and leaves nothing negative.
pub proof fn lemma_movements(levels: Map<u128, i32>, moves: Seq<Movement>, product_id: u128)
    requires
        non_negative(levels),
    ensures
        non_negative(after_all(levels, moves)),
        on_hand(after_all(levels, moves), product_id) == on_hand(levels, product_id) + delivered(
            levels,
            moves,
            product_id,
        ) - loaded(levels, moves, product_id),
    decreases moves.len(),
{
    if moves.len() > 0 {
        lemma_movements(levels, moves.drop_last(), product_id);
        lemma_movement(after_all(levels, moves.drop_last()), moves.last(), product_id);
    }
}

/// After any sequence of deliveries and truck loads offered to an empty
/// stock ledger, each taken as a whole or refused as a whole, what is on
/// hand of a product is what was delivered of it less what was loaded onto
/// trucks, and it is not negative.
pub proof fn stock_is_delivered_less_loaded(moves: Seq<Movement>, product_id: u128)
    ensures
        on_hand(after_all(Map::empty(), moves), product_id) == delivered(
            Map::empty(),
            moves,
            product_id,
        ) - loaded(Map::empty(), moves, product_id),
        on_hand(after_all(Map::empty(), moves), product_id) >= 0,
{
    lemma_movements(Map::empty(), moves, product_id);
}

/// In a consistent ledger, what is on hand of a product is the sum of its
/// delivery lines less the sum of its truck load lines, and it is not
/// negative.
pub proof fn ledger_stock_reconciles(state: LedgerState, product_id: u128)
    requires
        state.consistent(),
    ensures
        on_hand(state.stock, product_id) == demand(
            delivered_items(state.delivery_lines),
            product_id,
        ) - demand(loaded_items(state.truck_load_lines), product_id),
        on_hand(state.stock, product_id) >= 0,
{
}

/// A truck load with a line item that asks for more of its product than is
/// on hand is refused, and leaves the level of every product as it was.
pub proof fn truck_load_over_stock_changes_nothing(
    levels: Map<u128, i32>,
    items: Seq<LineItem>,
    k: int,
)
    requires
        0 <= k < items.len(),
        items[k].quantity > on_hand(levels, items[k].product_id),
    ensures
        !Movement::TruckLoad(items).accepted(levels),
        Movement::TruckLoad(items).after(levels) == levels,
{
    if all_valid(items) && all_covered(levels, items) {
        assert(covered(levels, items, k));
        lemma_demand_prefix(items, k, items[k].product_id);
    }
}

/// Two truck loads offered one after the other never both succeed where
/// together they demand more of some product than is on hand of it.
pub proof fn truck_loads_never_oversell(
    levels: Map<u128, i32>,
    first: Seq<LineItem>,
    second: Seq<LineItem>,
    product_id: u128,
)
    requires
        non_negative(levels),
        demand(first, product_id) + demand(second, product_id) > on_hand(levels, product_id),
    ensures
        !(Movement::TruckLoad(first).accepted(levels) && Movement::TruckLoad(second).accepted(
            Movement::TruckLoad(first).after(levels),
        )),
{
    let one = Movement::TruckLoad(first);
    let two = Movement::TruckLoad(second);
    if one.accepted(levels) && two.accepted(one.after(levels)) {
        lemma_dispatched_on_hand(levels, first);
        lemma_covered_demand(one.after(levels), second, product_id);
    }
}

/// Two truck loads offered one after the other both succeed where together
/// they demand of no product more than is on hand of it.
pub proof fn truck_loads_within_stock_both_succeed(
    levels: Map<u128, i32>,
    first: Seq<LineItem>,
    second: Seq<LineItem>,
)
    requires
        non_negative(levels),
        all_valid(first),
        all_valid(second),
        forall|p: u128| #[trigger] demand(first, p) + demand(second, p) <= on_hand(levels, p),
    ensures
        Movement::TruckLoad(first).accepted(levels),
        Movement::TruckLoad(second).accepted(Movement::TruckLoad(first).after(levels)),
{
    assert forall|p: u128| #[trigger] demand(first, p) <= on_hand(levels, p) by {
        lemma_demand_bounds(second, p);
        assert(demand(first, p) + demand(second, p) <= on_hand(levels, p));
    }
    lemma_demand_covered(levels, first);
    lemma_dispatched_on_hand(levels, first);
    let left = dispatched(levels, first);
    assert forall|p: u128| #[trigger] demand(second, p) <= on_hand(left, p) by {
        assert(demand(first, p) + demand(second, p) <= on_hand(levels, p));
        assert(on_hand(left, p) == on_hand(levels, p) - demand(first, p));
    }
    lemma_demand_covered(left, second);
}

/// Of two truck loads that each alone is covered but that together demand
/// more of some product than is on hand of it, exactly one succeeds when
/// they are offered one after the other: the first. This holds in either
/// order.
pub proof fn truck_loads_over_stock_one_succeeds(
    levels: Map<u128, i32>,
    first: Seq<LineItem>,
    second: Seq<LineItem>,
    product_id: u128,
)
    requires
        non_negative(levels),
        Movement::TruckLoad(first).accepted(levels),
        Movement::TruckLoad(second).accepted(levels),
        demand(first, product_id) + demand(second, product_id) > on_hand(levels, product_id),
    ensures
        !Movement::TruckLoad(second).accepted(Movement::TruckLoad(first).after(levels)),
        !Movement::TruckLoad(first).accepted(Movement::TruckLoad(second).after(levels)),
        Movement::TruckLoad(second).after(Movement::TruckLoad(first).after(levels)) == dispatched(
            levels,
            first,
        ),
        Movement::TruckLoad(first).after(Movement::TruckLoad(second).after(levels)) == dispatched(
            levels,
            second,
        ),
{
    truck_loads_never_oversell(levels, first, second, product_id);
    truck_loads_never_oversell(levels, second, first, product_id);
}

/// A change of a product's unit price leaves every recorded sale, and with
/// it every recorded total, as it was.
pub proof fn price_change_keeps_sale_totals(
    state: LedgerState,
    product_id: u128,
    price: Amount,
    now: Timestamp,
)
    requires
        state.knows_product(product_id),
    ensures
        state.with_price(product_id, price, now).sales == state.sales,
        state.with_price(product_id, price, now).sale_lines == state.sale_lines,
{
}

/// In a consistent ledger, the amount paid on a sale is the sum of the
/// payments made against it, and the sale is paid if and only if something
/// was paid and that sum has reached the total of the sale.
pub proof fn sale_reflects_payments(state: LedgerState, salesid: u128)
    requires
        state.consistent(),
        salesid < state.sales.len(),
    ensures
        state.sales[salesid as int].paid_amount@ == paid_to(state.payments, salesid),
        state.sales[salesid as int].status == SaleStatus::Paid <==> paid_to(state.payments, salesid)
            > 0 && paid_to(state.payments, salesid) >= state.sales[salesid as int].total_amount@,
{
    assert(balanced(state.sales[salesid as int]));
}

} // verus!
