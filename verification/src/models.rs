//! The records that the ledger keeps.

use crate::dates::{CalendarDate, Timestamp};
use crate::money::Amount;
use crate::stock::LineItem;
use vstd::prelude::*;

verus! {

/// What a user may do follows from the role.
#[derive(Clone, Copy, Debug, PartialEq, Eq, Structural)]
pub enum UserRole {
    Admin,
    Manager,
    Driver,
}

/// A user of the system.
#[derive(Debug, PartialEq, Eq)]
pub struct User {
    pub id: u128,
    pub first_name: String,
    pub last_name: String,
    pub email: String,
    pub password: String,
    pub role: UserRole,
    pub address: Option<String>,
    pub city: Option<String>,
    pub district: Option<String>,
    pub contact_number: Option<String>,
    pub created_at: Option<Timestamp>,
    pub updated_at: Option<Timestamp>,
}

/// A truck, with the most cash that it may be given as an allowance.
#[derive(Debug, PartialEq, Eq)]
pub struct Truck {
    pub truckid: u128,
    pub trucknumber: String,
    pub model: String,
    pub max_allowance: Option<Amount>,
}

/// A shop that buys from the trucks.
#[derive(Debug, PartialEq, Eq)]
pub struct Shop {
    pub shopid: u128,
    pub name: String,
    pub address: String,
    pub city: Option<String>,
    pub district: Option<String>,
    pub contact_number: Option<String>,
    pub created_at: Option<Timestamp>,
    pub updated_at: Option<Timestamp>,
}

/// A product: what is delivered, loaded and sold, with its unit price.
#[derive(Debug, PartialEq, Eq)]
pub struct Product {
    pub id: u128,
    pub name: String,
    pub price: Amount,
    pub unit_type: String,
    pub commission: Amount,
    pub created_at: Option<Timestamp>,
    pub updated_at: Option<Timestamp>,
}

/// A batch of stock taken into the warehouse.
#[derive(Clone, Copy, Debug, PartialEq, Eq, Structural)]
pub struct Delivery {
    pub deliveryid: u128,
    pub date: CalendarDate,
    pub userid: u128,
}

/// One line of a delivery.
#[derive(Clone, Copy, Debug, PartialEq, Eq, Structural)]
pub struct DeliveryProduct {
    pub deliveryid: u128,
    pub productid: u128,
    pub quantity: i32,
}

/// The row of the stock ledger for one product, as the store holds it.
#[derive(Clone, Copy, Debug, PartialEq, Eq, Structural)]
pub struct WarehouseStock {
    pub stockid: u128,
    pub productid: u128,
    pub quantity: i32,
}

/// A batch of stock sent out on a truck.
#[derive(Clone, Copy, Debug, PartialEq, Eq, Structural)]
pub struct TruckLoad {
    pub truckloadid: u128,
    pub date: CalendarDate,
    pub userid: u128,
    pub truckid: u128,
    pub created_at: Option<Timestamp>,
    pub updated_at: Option<Timestamp>,
}

/// One line of a truck load.
#[derive(Clone, Copy, Debug, PartialEq, Eq, Structural)]
pub struct TruckLoadProduct {
    pub truckloadid: u128,
    pub productid: u128,
    pub quantity: i32,
}

/// Whether a sale is still owed or settled.
#[derive(Clone, Copy, Debug, PartialEq, Eq, Structural)]
pub enum SaleStatus {
    Pending,
    Paid,
}

/// A sale of part of a truck load to a shop: a payable with the total fixed
/// when it was recorded.
#[derive(Clone, Copy, Debug, PartialEq, Eq, Structural)]
pub struct Sale {
    pub salesid: u128,
    pub truckloadid: u128,
    pub shopid: u128,
    pub date: CalendarDate,
    pub status: SaleStatus,
    pub total_amount: Amount,
    pub paid_amount: Amount,
    pub created_at: Option<Timestamp>,
    pub updated_at: Option<Timestamp>,
}

/// One line of a sale.
#[derive(Clone, Copy, Debug, PartialEq, Eq, Structural)]
pub struct SaleProduct {
    pub salesid: u128,
    pub productid: u128,
    pub quantity: i32,
}

/// A payment against a sale.
#[derive(Debug, PartialEq, Eq)]
pub struct Payment {
    pub paymentid: u128,
    pub salesid: u128,
    pub amount: Amount,
    pub method: String,
    pub date: CalendarDate,
    pub created_at: Option<Timestamp>,
    pub updated_at: Option<Timestamp>,
}

/// A dated amount of cash given out.
#[derive(Debug, PartialEq, Eq)]
pub struct Allowance {
    pub allowanceid: u128,
    pub date: CalendarDate,
    pub amount: Amount,
    pub notes: Option<String>,
    pub created_at: Option<Timestamp>,
    pub updated_at: Option<Timestamp>,
}

/// The share of an allowance that one truck was given.
#[derive(Clone, Copy, Debug, PartialEq, Eq, Structural)]
pub struct TruckAllowance {
    pub id: u128,
    pub allowanceid: u128,
    pub truckid: u128,
    pub amount: Amount,
    pub created_at: Option<Timestamp>,
    pub updated_at: Option<Timestamp>,
}

impl UserRole {
    /// The name of the role as the store and the tokens write it.
    pub open spec fn name(self) -> Seq<char> {
        match self {
            UserRole::Admin => "admin"@,
            UserRole::Manager => "manager"@,
            UserRole::Driver => "driver"@,
        }
    }

    /// The name of the role.
    pub fn to_str(&self) -> (s: &'static str)
        ensures
            s@ == self.name(),
    {
        match self {
            UserRole::Admin => "admin",
            UserRole::Manager => "manager",
            UserRole::Driver => "driver",
        }
    }
}

impl SaleStatus {
    /// The status as the store writes it.
    pub fn as_str(&self) -> (s: &'static str)
        ensures
            s@ == match *self {
                SaleStatus::Pending => "pending"@,
                SaleStatus::Paid => "paid"@,
            },
    {
        match self {
            SaleStatus::Pending => "pending",
            SaleStatus::Paid => "paid",
        }
    }
}

impl DeliveryProduct {
    /// The product and quantity of the line.
    pub open spec fn item(self) -> LineItem {
        LineItem { product_id: self.productid, quantity: self.quantity }
    }
}

impl TruckLoadProduct {
    /// The product and quantity of the line.
    pub open spec fn item(self) -> LineItem {
        LineItem { product_id: self.productid, quantity: self.quantity }
    }
}

impl SaleProduct {
    /// The product and quantity of the line.
    pub open spec fn item(self) -> LineItem {
        LineItem { product_id: self.productid, quantity: self.quantity }
    }
}

impl Product {
    /// A copy of the record.
    pub fn duplicate(&self) -> (copy: Product)
        ensures
            copy == *self,
    {
        Product {
            id: self.id,
            name: self.name.clone(),
            price: self.price,
            unit_type: self.unit_type.clone(),
            commission: self.commission,
            created_at: self.created_at,
            updated_at: self.updated_at,
        }
    }
}

impl Payment {
    /// A copy of the record.
    pub fn duplicate(&self) -> (copy: Payment)
        ensures
            copy == *self,
    {
        Payment {
            paymentid: self.paymentid,
            salesid: self.salesid,
            amount: self.amount,
            method: self.method.clone(),
            date: self.date,
            created_at: self.created_at,
            updated_at: self.updated_at,
        }
    }
}

impl Allowance {
    /// A copy of the record.
    pub fn duplicate(&self) -> (copy: Allowance)
        ensures
            copy == *self,
    {
        let notes: Option<String> = match &self.notes {
            Some(text) => Some(text.clone()),
            None => None,
        };
        Allowance {
            allowanceid: self.allowanceid,
            date: self.date,
            amount: self.amount,
            notes,
            created_at: self.created_at,
            updated_at: self.updated_at,
        }
    }
}

} // verus!
