//! The requests that the service takes and the answers that it gives, as
//! plain values.

use crate::dates::{CalendarDate, Timestamp};
use crate::ids::{hyphenated, parsed_uuid, uuid_text};
use crate::models::{Delivery, Product, User, UserRole};
use crate::money::Amount;
use crate::stock::LineItem;
use crate::validation::{
    check_email, login_violations, note, paging_violations, registration_violations, Violation,
};
use vstd::prelude::*;
use vstd::string::{StrSliceExecFns, StringExecFns};

verus! {

/// A request to register a user.
#[derive(Debug, PartialEq, Eq)]
pub struct RegisterUserDto {
    pub first_name: String,
    pub last_name: String,
    pub email: String,
    pub password: String,
    pub password_confirm: String,
    pub address: Option<String>,
    pub city: Option<String>,
    pub district: Option<String>,
    pub contact_number: Option<String>,
    pub role: Option<UserRole>,
}

/// A request to log in.
#[derive(Debug, PartialEq, Eq)]
pub struct LoginUserDto {
    pub email: String,
    pub password: String,
}

/// The paging of a list: the page, counted from 1, and the number of
/// entries on a page.
#[derive(Clone, Copy, Debug, PartialEq, Eq, Structural)]
pub struct RequestQueryDto {
    pub page: Option<usize>,
    pub limit: Option<usize>,
}

/// A user as shown to callers: without the password.
#[derive(Debug, PartialEq, Eq)]
pub struct FilterUserDto {
    pub id: String,
    pub first_name: String,
    pub last_name: String,
    pub email: String,
    pub role: String,
    pub address: Option<String>,
    pub city: Option<String>,
    pub district: Option<String>,
    pub contact_number: Option<String>,
    pub created_at: Timestamp,
    pub updated_at: Timestamp,
}

/// A page of users with the number of all users.
#[derive(Debug, PartialEq, Eq)]
pub struct UserListResponseDto {
    pub status: String,
    pub users: Vec<FilterUserDto>,
    pub results: i64,
}

/// The answer to a login: the token of the session.
#[derive(Debug, PartialEq, Eq)]
pub struct UserLoginResponseDto {
    pub status: String,
    pub token: String,
}

/// An answer that carries only a message.
#[derive(Debug, PartialEq, Eq)]
pub struct Response {
    pub status: &'static str,
    pub message: String,
}

/// A request to record a product.
#[derive(Debug, PartialEq, Eq)]
pub struct CreateProductDto {
    pub name: String,
    pub price: Amount,
    pub unit_type: String,
    pub commission: Option<Amount>,
}

/// The answer that carries one product.
#[derive(Debug, PartialEq, Eq)]
pub struct ProductResponseDto {
    pub status: String,
    pub product: Product,
}

/// The answer that carries every product and their number.
#[derive(Debug, PartialEq, Eq)]
pub struct ProductsListResponseDto {
    pub status: String,
    pub results: usize,
    pub products: Vec<Product>,
}

/// One line of a request to record a delivery.
#[derive(Clone, Copy, Debug, PartialEq, Eq, Structural)]
pub struct DeliveryProductDto {
    pub product_id: u128,
    pub quantity: i32,
}

/// A request to record a delivery, with its date as text.
#[derive(Debug, PartialEq, Eq)]
pub struct CreateDeliveryDto {
    pub date: String,
    pub products: Vec<DeliveryProductDto>,
}

/// The answer that carries one delivery.
#[derive(Debug, PartialEq, Eq)]
pub struct DeliveryResponseDto {
    pub status: String,
    pub delivery: Delivery,
}

/// The answer that carries the deliveries of a user.
#[derive(Debug, PartialEq, Eq)]
pub struct DeliveryListResponseDto {
    pub status: String,
    pub deliveries: Vec<Delivery>,
}

/// One line of a request to record a truck load.
#[derive(Clone, Copy, Debug, PartialEq, Eq, Structural)]
pub struct TruckLoadProductItem {
    pub product_id: u128,
    pub quantity: i32,
}

/// A request to record a truck load.
#[derive(Debug, PartialEq, Eq)]
pub struct CreateTruckLoadRequest {
    pub truck_id: u128,
    pub driver_id: u128,
    pub date: CalendarDate,
    pub products: Vec<TruckLoadProductItem>,
}

/// The answer that names a truck load.
#[derive(Debug, PartialEq, Eq)]
pub struct CreateTruckLoadResponse {
    pub truckloadid: u128,
    pub driver_id: u128,
    pub message: String,
}

/// One line of a request to record a sale.
#[derive(Clone, Copy, Debug, PartialEq, Eq, Structural)]
pub struct SaleProductItem {
    pub product_id: u128,
    pub quantity: i32,
}

/// A request to record a sale.
#[derive(Debug, PartialEq, Eq)]
pub struct CreateSaleRequest {
    pub truckload_id: u128,
    pub shop_id: u128,
    pub date: CalendarDate,
    pub products: Vec<SaleProductItem>,
}

/// The answer that names a sale.
#[derive(Debug, PartialEq, Eq)]
pub struct CreateSaleResponse {
    pub salesid: u128,
    pub message: String,
}

/// A request to record a payment.
#[derive(Debug, PartialEq, Eq)]
pub struct CreatePaymentRequest {
    pub salesid: u128,
    pub amount: Amount,
    pub method: String,
    pub date: CalendarDate,
}

/// The answer that names a payment.
#[derive(Debug, PartialEq, Eq)]
pub struct CreatePaymentResponse {
    pub paymentid: u128,
    pub message: String,
}

/// A request to record an allowance.
#[derive(Debug, PartialEq, Eq)]
pub struct CreateAllowanceRequest {
    pub date: CalendarDate,
    pub amount: Amount,
    pub notes: Option<String>,
}

/// The answer that names an allowance.
#[derive(Debug, PartialEq, Eq)]
pub struct CreateAllowanceResponse {
    pub allowanceid: u128,
    pub message: String,
}

/// A request to record the share of an allowance that a truck is given.
#[derive(Clone, Copy, Debug, PartialEq, Eq, Structural)]
pub struct CreateTruckAllowanceRequest {
    pub allowanceid: u128,
    pub truckid: u128,
    pub date: CalendarDate,
    pub amount: Amount,
}

/// The answer that names a truck allowance.
#[derive(Debug, PartialEq, Eq)]
pub struct CreateTruckAllowanceResponse {
    pub truck_allowance_id: u128,
    pub message: String,
}

/// A request to record a truck.
#[derive(Debug, PartialEq, Eq)]
pub struct CreateTruckRequest {
    pub trucknumber: String,
    pub model: String,
    pub max_allowance: Option<Amount>,
}

/// The answer that names a truck.
#[derive(Debug, PartialEq, Eq)]
pub struct CreateTruckResponse {
    pub truckid: u128,
    pub message: String,
}

/// A request to set the most that a truck may be given as an allowance.
#[derive(Debug, PartialEq, Eq)]
pub struct UpdateTruckMaxAllowanceRequest {
    pub trucknumber: String,
    pub max_allowance: Amount,
}

/// The answer to a change of a truck's highest allowance.
#[derive(Debug, PartialEq, Eq)]
pub struct UpdateTruckMaxAllowanceResponse {
    pub truckid: u128,
    pub trucknumber: String,
    pub max_allowance: Amount,
}

/// A request to record a shop.
#[derive(Debug, PartialEq, Eq)]
pub struct CreateShopRequest {
    pub name: String,
    pub address: String,
    pub city: Option<String>,
    pub district: Option<String>,
    pub contact_number: Option<String>,
}

/// The answer that names a shop.
#[derive(Debug, PartialEq, Eq)]
pub struct CreateShopResponse {
    pub shopid: u128,
    pub message: String,
}

/// A copy of a text that may be missing.
pub fn copy_text(text: &Option<String>) -> (copy: Option<String>)
    ensures
        copy == *text,
{
    match text {
        Some(t) => Some(t.clone()),
        None => None,
    }
}

impl LoginUserDto {
    /// The rules that the login breaks, in the order of its fields.
    pub fn validate(&self) -> (found: Vec<Violation>)
        ensures
            found@ == login_violations(self.email@, self.password@),
    {
        let mut found: Vec<Violation> = Vec::new();
        check_email(&mut found, self.email.as_str());
        let length: usize = self.password.as_str().unicode_len();
        note(&mut found, length < 1, Violation::PasswordRequired);
        note(&mut found, length < 6, Violation::PasswordTooShort);
        assert(found@ =~= login_violations(self.email@, self.password@));
        found
    }
}

impl RegisterUserDto {
    /// The rules that the registration breaks, in the order of its fields.
    pub fn validate(&self) -> (found: Vec<Violation>)
        ensures
            found@ == registration_violations(
                self.first_name@,
                self.last_name@,
                self.email@,
                self.password@,
                self.password_confirm@,
            ),
    {
        let mut found: Vec<Violation> = Vec::new();
        let first: usize = self.first_name.as_str().unicode_len();
        note(&mut found, first < 1, Violation::FirstNameRequired);
        let last: usize = self.last_name.as_str().unicode_len();
        note(&mut found, last < 1, Violation::LastNameRequired);
        check_email(&mut found, self.email.as_str());
        let length: usize = self.password.as_str().unicode_len();
        note(&mut found, length < 6, Violation::PasswordTooShort);
        let same: bool = self.password_confirm == self.password;
        note(&mut found, !same, Violation::PasswordMismatch);
        assert(found@ =~= registration_violations(
            self.first_name@,
            self.last_name@,
            self.email@,
            self.password@,
            self.password_confirm@,
        ));
        found
    }

    /// The role of the new user: a manager where none is asked for.
    pub fn role_or_default(&self) -> (role: UserRole)
        ensures
            role == match self.role {
                Some(r) => r,
                None => UserRole::Manager,
            },
    {
        match self.role {
            Some(r) => r,
            None => UserRole::Manager,
        }
    }
}

impl RequestQueryDto {
    /// The rules that the paging breaks.
    pub fn validate(&self) -> (found: Vec<Violation>)
        ensures
            found@ == paging_violations(self.page, self.limit),
    {
        let mut found: Vec<Violation> = Vec::new();
        let page_broken: bool = match self.page {
            Some(p) => p < 1,
            None => false,
        };
        note(&mut found, page_broken, Violation::PageOutOfRange);
        let limit_broken: bool = match self.limit {
            Some(l) => l < 1 || l > 50,
            None => false,
        };
        note(&mut found, limit_broken, Violation::LimitOutOfRange);
        assert(found@ =~= paging_violations(self.page, self.limit));
        found
    }

    /// The page asked for: the first where none is given.
    pub fn page_or_default(&self) -> (page: usize)
        ensures
            page == match self.page {
                Some(p) => p,
                None => 1,
            },
    {
        match self.page {
            Some(p) => p,
            None => 1,
        }
    }

    /// The number of entries on a page: 20 where none is given.
    pub fn limit_or_default(&self) -> (limit: usize)
        ensures
            limit == match self.limit {
                Some(l) => l,
                None => 20,
            },
    {
        match self.limit {
            Some(l) => l,
            None => 20,
        }
    }
}

/// The number of entries that come before a page: the pages before it
/// times the entries on a page. There is none for page 0, nor where the
/// limit or the number itself does not fit in 32 bits.
pub open spec fn offset_of(page: u32, limit: usize) -> Option<u32> {
    if page >= 1 && limit <= u32::MAX && (page - 1) * limit <= u32::MAX {
        Some(((page - 1) * limit) as u32)
    } else {
        None
    }
}

/// The number of entries to skip for a page.
pub fn page_offset(page: u32, limit: usize) -> (offset: Option<u32>)
    ensures
        offset == offset_of(page, limit),
{
    if page < 1 || limit > u32::MAX as usize {
        return None;
    }
    let before: u32 = page - 1;
    before.checked_mul(limit as u32)
}

impl FilterUserDto {
    /// What callers are shown of a user: everything but the password, with
    /// the identity as hyphenated text and the role by its name.
    pub fn filter_user(user: &User) -> (shown: FilterUserDto)
        requires
            user.created_at is Some,
            user.updated_at is Some,
        ensures
            shown.id@ == hyphenated(user.id),
            parsed_uuid(shown.id@) == Some(user.id),
            shown.first_name == user.first_name,
            shown.last_name == user.last_name,
            shown.email == user.email,
            shown.role@ == user.role.name(),
            shown.address == user.address,
            shown.city == user.city,
            shown.district == user.district,
            shown.contact_number == user.contact_number,
            Some(shown.created_at) == user.created_at,
            Some(shown.updated_at) == user.updated_at,
    {
        FilterUserDto {
            id: uuid_text(user.id),
            first_name: user.first_name.clone(),
            last_name: user.last_name.clone(),
            email: user.email.clone(),
            role: String::from_str(user.role.to_str()),
            address: copy_text(&user.address),
            city: copy_text(&user.city),
            district: copy_text(&user.district),
            contact_number: copy_text(&user.contact_number),
            created_at: user.created_at.unwrap(),
            updated_at: user.updated_at.unwrap(),
        }
    }

    /// What callers are shown of a user, where the store gave the user both
    /// instants.
    pub fn try_filter_user(user: &User) -> (shown: Option<FilterUserDto>)
        ensures
            shown is Some <==> user.created_at is Some && user.updated_at is Some,
            shown matches Some(dto) ==> {
                &&& dto.id@ == hyphenated(user.id)
                &&& parsed_uuid(dto.id@) == Some(user.id)
                &&& dto.first_name == user.first_name
                &&& dto.last_name == user.last_name
                &&& dto.email == user.email
                &&& dto.role@ == user.role.name()
                &&& dto.address == user.address
                &&& dto.city == user.city
                &&& dto.district == user.district
                &&& dto.contact_number == user.contact_number
                &&& Some(dto.created_at) == user.created_at
                &&& Some(dto.updated_at) == user.updated_at
            },
    {
        if user.created_at.is_some() && user.updated_at.is_some() {
            Some(FilterUserDto::filter_user(user))
        } else {
            None
        }
    }
}

impl DeliveryProductDto {
    /// The line as a line item.
    pub open spec fn item(self) -> LineItem {
        LineItem { product_id: self.product_id, quantity: self.quantity }
    }
}

impl TruckLoadProductItem {
    /// The line as a line item.
    pub open spec fn item(self) -> LineItem {
        LineItem { product_id: self.product_id, quantity: self.quantity }
    }
}

impl SaleProductItem {
    /// The line as a line item.
    pub open spec fn item(self) -> LineItem {
        LineItem { product_id: self.product_id, quantity: self.quantity }
    }
}

} // verus!
