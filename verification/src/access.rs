//! Which role may ask for which operation.

use crate::error::HttpError;
use crate::models::UserRole;
use vstd::prelude::*;

verus! {

/// The operations that are open to some roles only.
#[derive(Clone, Copy, Debug, PartialEq, Eq, Structural)]
pub enum Operation {
    CreateProduct,
    CreateDelivery,
    CreateTruckLoad,
    ViewTruckLoads,
    CreateSale,
    CreatePayment,
    CreateAllowance,
    CreateTruckAllowance,
    CreateTruck,
    ViewTrucks,
    UpdateTruckMaxAllowance,
    CreateShop,
    ViewShops,
}

/// Sales and payments are recorded by drivers; the highest allowance of a
/// truck is set by admins; everything else is done by managers and admins.
pub open spec fn allowed(role: UserRole, operation: Operation) -> bool {
    match operation {
        Operation::CreateSale | Operation::CreatePayment => role == UserRole::Driver,
        Operation::UpdateTruckMaxAllowance => role == UserRole::Admin,
        _ => role == UserRole::Manager || role == UserRole::Admin,
    }
}

/// Whether the role may ask for the operation.
pub fn is_allowed(role: UserRole, operation: Operation) -> (b: bool)
    ensures
        b == allowed(role, operation),
{
    match operation {
        Operation::CreateSale | Operation::CreatePayment => role == UserRole::Driver,
        Operation::UpdateTruckMaxAllowance => role == UserRole::Admin,
        _ => role == UserRole::Manager || role == UserRole::Admin,
    }
}

/// Turns the request down unless the role may ask for the operation.
pub fn authorize(role: UserRole, operation: Operation) -> (r: Result<(), HttpError>)
    ensures
        r is Ok <==> allowed(role, operation),
        r matches Err(e) ==> e.denies(),
{
    if is_allowed(role, operation) {
        Ok(())
    } else {
        Err(HttpError::permission_denied())
    }
}

} // verus!
