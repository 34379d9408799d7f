//! Allowances: who may record them.

use crate::access::{allowed, authorize, Operation};
use crate::dtos::{CreateAllowanceResponse, CreateTruckAllowanceResponse};
use crate::error::HttpError;
use crate::models::{Allowance, TruckAllowance, UserRole};
use vstd::prelude::*;
use vstd::string::StringExecFns;

verus! {

/// Decides on a request to record an allowance. Managers and admins may
/// ask; the request is then recorded as it stands.
pub fn create_allowance(role: UserRole) -> (r: Result<(), HttpError>)
    ensures
        r is Ok <==> allowed(role, Operation::CreateAllowance),
        r matches Err(e) ==> e.denies(),
{
    authorize(role, Operation::CreateAllowance)
}

/// The answer to an allowance that was recorded.
pub fn allowance_recorded(allowance: &Allowance) -> (answer: CreateAllowanceResponse)
    ensures
        answer.allowanceid == allowance.allowanceid,
        answer.message@ == "Allowance recorded successfully"@,
{
    CreateAllowanceResponse {
        allowanceid: allowance.allowanceid,
        message: String::from_str("Allowance recorded successfully"),
    }
}

/// Decides on a request to record the share of an allowance that a truck
/// is given. Managers and admins may ask.
pub fn create_truck_allowance(role: UserRole) -> (r: Result<(), HttpError>)
    ensures
        r is Ok <==> allowed(role, Operation::CreateTruckAllowance),
        r matches Err(e) ==> e.denies(),
{
    authorize(role, Operation::CreateTruckAllowance)
}

/// The answer to a truck allowance that was recorded.
pub fn truck_allowance_created(share: &TruckAllowance) -> (answer: CreateTruckAllowanceResponse)
    ensures
        answer.truck_allowance_id == share.id,
        answer.message@ == "Truck allowance created successfully"@,
{
    CreateTruckAllowanceResponse {
        truck_allowance_id: share.id,
        message: String::from_str("Truck allowance created successfully"),
    }
}

} // verus!
