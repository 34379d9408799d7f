//! Truck loads: who may record or list them, and how they are shown.

use crate::access::{allowed, authorize, Operation};
use crate::dates::CalendarDate;
use crate::dtos::{CreateTruckLoadRequest, CreateTruckLoadResponse, TruckLoadProductItem};
use crate::error::{HttpError, INTERNAL_SERVER_ERROR};
use crate::models::{TruckLoad, UserRole};
use crate::stock::LineItem;
use vstd::prelude::*;
use vstd::string::StringExecFns;

verus! {

/// A truck load that may be recorded: who drives, which truck, when and
/// what.
#[derive(Debug, PartialEq, Eq)]
pub struct TruckLoadOrder {
    pub driver_id: u128,
    pub truck_id: u128,
    pub date: CalendarDate,
    pub products: Vec<LineItem>,
}

/// The line items of the lines of a request.
pub open spec fn requested_items(lines: Seq<TruckLoadProductItem>) -> Seq<LineItem> {
    Seq::new(lines.len(), |k: int| lines[k].item())
}

/// The line items of the lines of a request.
pub fn line_items(lines: &Vec<TruckLoadProductItem>) -> (items: Vec<LineItem>)
    ensures
        items@ == requested_items(lines@),
{
    let mut items: Vec<LineItem> = Vec::new();
    let mut i: usize = 0;
    while i < lines.len()
        invariant
            0 <= i <= lines.len(),
            items@ == requested_items(lines@.take(i as int)),
        decreases lines.len() - i,
    {
        let line: TruckLoadProductItem = lines[i];
        items.push(LineItem { product_id: line.product_id, quantity: line.quantity });
        assert(items@ =~= requested_items(lines@.take(i + 1)));
        i = i + 1;
    }
    assert(lines@.take(lines@.len() as int) =~= lines@);
    items
}

/// Reads a request to record a truck load. Managers and admins may ask.
/// The load is attributed to the driver that the request names, not to the
/// caller.
pub fn create_truck_load(role: UserRole, body: &CreateTruckLoadRequest) -> (r: Result<
    TruckLoadOrder,
    HttpError,
>)
    ensures
        r is Ok <==> allowed(role, Operation::CreateTruckLoad),
        match r {
            Ok(order) => {
                &&& order.driver_id == body.driver_id
                &&& order.truck_id == body.truck_id
                &&& order.date == body.date
                &&& order.products@ == requested_items(body.products@)
            },
            Err(e) => e.denies(),
        },
{
    match authorize(role, Operation::CreateTruckLoad) {
        Err(e) => {
            return Err(e);
        },
        Ok(()) => {},
    }
    Ok(
        TruckLoadOrder {
            driver_id: body.driver_id,
            truck_id: body.truck_id,
            date: body.date,
            products: line_items(&body.products),
        },
    )
}

/// The answer to a truck load that was recorded.
pub fn truck_load_created(load: &TruckLoad) -> (answer: CreateTruckLoadResponse)
    ensures
        answer.truckloadid == load.truckloadid,
        answer.driver_id == load.userid,
        answer.message@ == "Truck load created successfully"@,
{
    CreateTruckLoadResponse {
        truckloadid: load.truckloadid,
        driver_id: load.userid,
        message: String::from_str("Truck load created successfully"),
    }
}

/// How a truck load is shown in a list: by its date.
pub open spec fn listed(load: TruckLoad, answer: CreateTruckLoadResponse) -> bool {
    &&& answer.truckloadid == load.truckloadid
    &&& answer.driver_id == load.userid
    &&& load.date.text() matches Some(text)
    &&& answer.message@ == "Truck load on "@ + text
}

/// The entry of a truck load in a list, where its date can be written.
pub fn list_entry(load: &TruckLoad) -> (r: Option<CreateTruckLoadResponse>)
    ensures
        match r {
            Some(answer) => listed(*load, answer),
            None => load.date.text() is None,
        },
{
    match load.date.to_text() {
        None => None,
        Some(text) => {
            let mut message: String = String::from_str("Truck load on ");
            message.append(text.as_str());
            Some(
                CreateTruckLoadResponse {
                    truckloadid: load.truckloadid,
                    driver_id: load.userid,
                    message,
                },
            )
        },
    }
}

/// The answer that lists every truck load, in the order given. Managers
/// and admins may ask. A load whose date cannot be written is a fault of
/// the store.
pub fn get_truck_load_history(role: UserRole, loads: &Vec<TruckLoad>) -> (r: Result<
    Vec<CreateTruckLoadResponse>,
    HttpError,
>)
    ensures
        match r {
            Ok(answers) => {
                &&& allowed(role, Operation::ViewTruckLoads)
                &&& answers@.len() == loads@.len()
                &&& forall|k: int| 0 <= k < loads@.len() ==> listed(loads@[k], #[trigger] answers@[k])
            },
            Err(e) => if !allowed(role, Operation::ViewTruckLoads) {
                e.denies()
            } else {
                &&& exists|k: int| 0 <= k < loads@.len() && (#[trigger] loads@[k]).date.text() is None
                &&& e.carries("Invalid date in store"@, INTERNAL_SERVER_ERROR)
            },
        },
{
    match authorize(role, Operation::ViewTruckLoads) {
        Err(e) => {
            return Err(e);
        },
        Ok(()) => {},
    }
    let mut answers: Vec<CreateTruckLoadResponse> = Vec::new();
    let mut i: usize = 0;
    while i < loads.len()
        invariant
            0 <= i <= loads.len(),
            allowed(role, Operation::ViewTruckLoads),
            answers@.len() == i,
            forall|k: int| 0 <= k < i ==> listed(loads@[k], #[trigger] answers@[k]),
        decreases loads.len() - i,
    {
        match list_entry(&loads[i]) {
            None => {
                assert(loads@[i as int].date.text() is None);
                return Err(HttpError::server_error("Invalid date in store"));
            },
            Some(answer) => {
                answers.push(answer);
            },
        }
        i = i + 1;
    }
    Ok(answers)
}

} // verus!
