//! Reading the history of the ledger: records put in order of their dates,
//! newest first.

use crate::dates::{not_before, CalendarDate};
use crate::models::{Delivery, TruckLoad};
use vstd::prelude::*;
use vstd::seq_lib::{to_multiset_build, to_multiset_insert};

verus! {

/// A record that carries a date.
pub trait Dated: Copy {
    /// The date of the record.
    spec fn dated(&self) -> CalendarDate;

    /// The date of the record.
    fn date(&self) -> (d: CalendarDate)
        ensures
            d == self.dated(),
    ;
}

impl Dated for Delivery {
    open spec fn dated(&self) -> CalendarDate {
        self.date
    }

    fn date(&self) -> (d: CalendarDate) {
        self.date
    }
}

impl Dated for TruckLoad {
    open spec fn dated(&self) -> CalendarDate {
        self.date
    }

    fn date(&self) -> (d: CalendarDate) {
        self.date
    }
}

/// No record of the sequence comes before one of a later date.
pub open spec fn newest_first<T: Dated>(records: Seq<T>) -> bool {
    forall|i: int, j: int|
        0 <= i <= j < records.len() ==> not_before(
            (#[trigger] records[i]).dated(),
            (#[trigger] records[j]).dated(),
        )
}

/// The records in the order of their dates, newest first. Which of two
/// records of one date comes first is left open.
pub fn sorted_newest_first<T: Dated>(records: &Vec<T>) -> (sorted: Vec<T>)
    ensures
        newest_first(sorted@),
        sorted@.to_multiset() == records@.to_multiset(),
{
    let mut sorted: Vec<T> = Vec::new();
    let mut i: usize = 0;
    assert(records@.take(0) =~= Seq::<T>::empty());
    while i < records.len()
        invariant
            0 <= i <= records.len(),
            newest_first(sorted@),
            sorted@.to_multiset() == records@.take(i as int).to_multiset(),
        decreases records.len() - i,
    {
        let record: T = records[i];
        let date: CalendarDate = record.date();
        let mut place: usize = 0;
        while place < sorted.len() && sorted[place].date().not_before(date)
            invariant
                0 <= place <= sorted.len(),
                date == record.dated(),
                forall|k: int| 0 <= k < place ==> not_before((#[trigger] sorted@[k]).dated(), date),
            decreases sorted.len() - place,
        {
            place = place + 1;
        }
        proof {
            let before = sorted@;
            let after = before.insert(place as int, record);
            assert forall|a: int, b: int| 0 <= a <= b < after.len() implies not_before(
                (#[trigger] after[a]).dated(),
                (#[trigger] after[b]).dated(),
            ) by {
                if b < place {
                    assert(after[a] == before[a] && after[b] == before[b]);
                } else if a > place {
                    assert(after[a] == before[a - 1] && after[b] == before[b - 1]);
                } else if a == place && b == place {
                } else if a == place {
                    assert(after[b] == before[b - 1]);
                    assert(not_before(before[place as int].dated(), before[b - 1].dated()));
                } else if b == place {
                    assert(after[a] == before[a]);
                } else {
                    assert(after[a] == before[a] && after[b] == before[b - 1]);
                }
            }
            to_multiset_insert(before, place as int, record);
            assert(records@.take(i + 1) =~= records@.take(i as int).push(record));
            to_multiset_build(records@.take(i as int), record);
        }
        sorted.insert(place, record);
        i = i + 1;
    }
    assert(records@.take(records@.len() as int) =~= records@);
    sorted
}

/// Whether a delivery was taken in by the user.
pub open spec fn delivered_by(user_id: u128) -> spec_fn(Delivery) -> bool {
    |delivery: Delivery| delivery.userid == user_id
}

/// The deliveries that the user took in, in the order given.
pub fn deliveries_of(deliveries: &Vec<Delivery>, user_id: u128) -> (found: Vec<Delivery>)
    ensures
        found@ == deliveries@.filter(delivered_by(user_id)),
{
    let mut found: Vec<Delivery> = Vec::new();
    let mut i: usize = 0;
    proof {
        assert(deliveries@.take(0) =~= Seq::<Delivery>::empty());
        reveal(Seq::filter);
    }
    while i < deliveries.len()
        invariant
            0 <= i <= deliveries.len(),
            found@ == deliveries@.take(i as int).filter(delivered_by(user_id)),
        decreases deliveries.len() - i,
    {
        let delivery: Delivery = deliveries[i];
        proof {
            assert(deliveries@.take(i + 1) =~= deliveries@.take(i as int).push(delivery));
            deliveries@.take(i as int).lemma_filter_push(delivery, delivered_by(user_id));
        }
        if delivery.userid == user_id {
            found.push(delivery);
        }
        i = i + 1;
    }
    assert(deliveries@.take(deliveries@.len() as int) =~= deliveries@);
    found
}

} // verus!
