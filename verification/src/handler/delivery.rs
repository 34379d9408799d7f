//! Deliveries: who may record one, and how its request is read.

use crate::access::{allowed, authorize, Operation};
use crate::dates::CalendarDate;
use crate::dtos::{CreateDeliveryDto, DeliveryListResponseDto, DeliveryProductDto, DeliveryResponseDto};
use crate::error::{ErrorMessage, HttpError};
use crate::models::{Delivery, UserRole};
use crate::stock::LineItem;
use vstd::prelude::*;
use vstd::string::StringExecFns;

verus! {

/// A delivery that may be recorded: who delivers, when and what.
#[derive(Debug, PartialEq, Eq)]
pub struct DeliveryOrder {
    pub user_id: u128,
    pub date: CalendarDate,
    pub products: Vec<LineItem>,
}

/// The line items of the lines of a request.
pub open spec fn requested_items(lines: Seq<DeliveryProductDto>) -> Seq<LineItem> {
    Seq::new(lines.len(), |k: int| lines[k].item())
}

/// The line items of the lines of a request.
pub fn line_items(lines: &Vec<DeliveryProductDto>) -> (items: Vec<LineItem>)
    ensures
        items@ == requested_items(lines@),
{
    let mut items: Vec<LineItem> = Vec::new();
    let mut i: usize = 0;
    while i < lines.len()
        invariant
            0 <= i <= lines.len(),
            items@ == requested_items(lines@.take(i as int)),
        decreases lines.len() - i,
    {
        let line: DeliveryProductDto = lines[i];
        items.push(LineItem { product_id: line.product_id, quantity: line.quantity });
        assert(items@ =~= requested_items(lines@.take(i + 1)));
        i = i + 1;
    }
    assert(lines@.take(lines@.len() as int) =~= lines@);
    items
}

/// Reads a request to record a delivery. Managers and admins may ask; the
/// date must be written as year-month-day. The delivery is attributed to
/// the caller.
pub fn create_delivery(role: UserRole, user_id: u128, body: &CreateDeliveryDto) -> (r: Result<
    DeliveryOrder,
    HttpError,
>)
    ensures
        match r {
            Ok(order) => {
                &&& allowed(role, Operation::CreateDelivery)
                &&& CalendarDate::parsed(body.date@) == Some(order.date)
                &&& order.user_id == user_id
                &&& order.products@ == requested_items(body.products@)
            },
            Err(e) => if !allowed(role, Operation::CreateDelivery) {
                e.denies()
            } else {
                CalendarDate::parsed(body.date@) is None && e.rejects(
                    ErrorMessage::InvalidDateFormat,
                )
            },
        },
{
    match authorize(role, Operation::CreateDelivery) {
        Err(e) => {
            return Err(e);
        },
        Ok(()) => {},
    }
    let date: CalendarDate = match CalendarDate::parse(body.date.as_str()) {
        Some(date) => date,
        None => {
            return Err(HttpError::rejection(ErrorMessage::InvalidDateFormat));
        },
    };
    Ok(DeliveryOrder { user_id, date, products: line_items(&body.products) })
}

/// The answer to a delivery that was recorded.
pub fn delivery_created(delivery: Delivery) -> (answer: DeliveryResponseDto)
    ensures
        answer.status@ == "success"@,
        answer.delivery == delivery,
{
    DeliveryResponseDto { status: String::from_str("success"), delivery }
}

/// The answer that lists the deliveries of the caller.
pub fn get_delivery_history(deliveries: Vec<Delivery>) -> (answer: DeliveryListResponseDto)
    ensures
        answer.status@ == "success"@,
        answer.deliveries == deliveries,
{
    DeliveryListResponseDto { status: String::from_str("success"), deliveries }
}

} // verus!
