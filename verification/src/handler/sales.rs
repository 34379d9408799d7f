//! Sales: who may record one, and how its request is read.

use crate::access::{allowed, authorize, Operation};
use crate::dates::CalendarDate;
use crate::dtos::{CreateSaleRequest, CreateSaleResponse, SaleProductItem};
use crate::error::HttpError;
use crate::models::{Sale, UserRole};
use crate::stock::LineItem;
use vstd::prelude::*;
use vstd::string::StringExecFns;

verus! {

/// A sale that may be recorded: from which truck load, to which shop, when
/// and what.
#[derive(Debug, PartialEq, Eq)]
pub struct SaleOrder {
    pub truckload_id: u128,
    pub shop_id: u128,
    pub date: CalendarDate,
    pub products: Vec<LineItem>,
}

/// The line items of the lines of a request.
pub open spec fn requested_items(lines: Seq<SaleProductItem>) -> Seq<LineItem> {
    Seq::new(lines.len(), |k: int| lines[k].item())
}

/// The line items of the lines of a request.
pub fn line_items(lines: &Vec<SaleProductItem>) -> (items: Vec<LineItem>)
    ensures
        items@ == requested_items(lines@),
{
    let mut items: Vec<LineItem> = Vec::new();
    let mut i: usize = 0;
    while i < lines.len()
        invariant
            0 <= i <= lines.len(),
            items@ == requested_items(lines@.take(i as int)),
        decreases lines.len() - i,
    {
        let line: SaleProductItem = lines[i];
        items.push(LineItem { product_id: line.product_id, quantity: line.quantity });
        assert(items@ =~= requested_items(lines@.take(i + 1)));
        i = i + 1;
    }
    assert(lines@.take(lines@.len() as int) =~= lines@);
    items
}

/// Reads a request to record a sale. Only drivers may ask.
pub fn create_sale(role: UserRole, body: &CreateSaleRequest) -> (r: Result<SaleOrder, HttpError>)
    ensures
        r is Ok <==> allowed(role, Operation::CreateSale),
        match r {
            Ok(order) => {
                &&& order.truckload_id == body.truckload_id
                &&& order.shop_id == body.shop_id
                &&& order.date == body.date
                &&& order.products@ == requested_items(body.products@)
            },
            Err(e) => e.denies(),
        },
{
    match authorize(role, Operation::CreateSale) {
        Err(e) => {
            return Err(e);
        },
        Ok(()) => {},
    }
    Ok(
        SaleOrder {
            truckload_id: body.truckload_id,
            shop_id: body.shop_id,
            date: body.date,
            products: line_items(&body.products),
        },
    )
}

/// The answer to a sale that was recorded.
pub fn sale_recorded(sale: &Sale) -> (answer: CreateSaleResponse)
    ensures
        answer.salesid == sale.salesid,
        answer.message@ == "Sale recorded successfully"@,
{
    CreateSaleResponse {
        salesid: sale.salesid,
        message: String::from_str("Sale recorded successfully"),
    }
}

} // verus!
