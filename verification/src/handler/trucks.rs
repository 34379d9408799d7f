//! Trucks: who may record, list or change them, and how they are shown.

use crate::access::{allowed, authorize, Operation};
use crate::dtos::{CreateTruckResponse, UpdateTruckMaxAllowanceResponse};
use crate::error::HttpError;
use crate::models::{Truck, UserRole};
use crate::money::Amount;
use vstd::prelude::*;
use vstd::string::StringExecFns;

verus! {

/// The highest allowance of a truck for which none was set, in hundredths.
pub const DEFAULT_MAX_ALLOWANCE: i64 = 400000;

/// Decides on a request to record a truck. Managers and admins may ask.
pub fn create_truck(role: UserRole) -> (r: Result<(), HttpError>)
    ensures
        r is Ok <==> allowed(role, Operation::CreateTruck),
        r matches Err(e) ==> e.denies(),
{
    authorize(role, Operation::CreateTruck)
}

/// The answer to a truck that was recorded.
pub fn truck_created(truck: &Truck) -> (answer: CreateTruckResponse)
    ensures
        answer.truckid == truck.truckid,
        answer.message@ == "Truck created successfully"@,
{
    CreateTruckResponse {
        truckid: truck.truckid,
        message: String::from_str("Truck created successfully"),
    }
}

/// How a truck is shown in a list: by its number and, in brackets, its
/// model.
pub open spec fn listed(truck: Truck, answer: CreateTruckResponse) -> bool {
    &&& answer.truckid == truck.truckid
    &&& answer.message@ == "Truck "@ + truck.trucknumber@ + " ("@ + truck.model@ + ")"@
}

/// The entry of a truck in a list.
pub fn list_entry(truck: &Truck) -> (answer: CreateTruckResponse)
    ensures
        listed(*truck, answer),
{
    let mut message: String = String::from_str("Truck ");
    message.append(truck.trucknumber.as_str());
    message.append(" (");
    message.append(truck.model.as_str());
    message.append(")");
    CreateTruckResponse { truckid: truck.truckid, message }
}

/// The answer that lists every truck, in the order given. Managers and
/// admins may ask.
pub fn get_all_trucks(role: UserRole, trucks: &Vec<Truck>) -> (r: Result<
    Vec<CreateTruckResponse>,
    HttpError,
>)
    ensures
        r is Ok <==> allowed(role, Operation::ViewTrucks),
        match r {
            Ok(answers) => {
                &&& answers@.len() == trucks@.len()
                &&& forall|k: int|
                    0 <= k < trucks@.len() ==> listed(trucks@[k], #[trigger] answers@[k])
            },
            Err(e) => e.denies(),
        },
{
    match authorize(role, Operation::ViewTrucks) {
        Err(e) => {
            return Err(e);
        },
        Ok(()) => {},
    }
    let mut answers: Vec<CreateTruckResponse> = Vec::new();
    let mut i: usize = 0;
    while i < trucks.len()
        invariant
            0 <= i <= trucks.len(),
            answers@.len() == i,
            forall|k: int| 0 <= k < i ==> listed(trucks@[k], #[trigger] answers@[k]),
        decreases trucks.len() - i,
    {
        answers.push(list_entry(&trucks[i]));
        i = i + 1;
    }
    Ok(answers)
}

/// Decides on a request to set the highest allowance of a truck. Only
/// admins may ask.
pub fn update_truck_max_allowance(role: UserRole) -> (r: Result<(), HttpError>)
    ensures
        r is Ok <==> allowed(role, Operation::UpdateTruckMaxAllowance),
        r matches Err(e) ==> e.denies(),
{
    authorize(role, Operation::UpdateTruckMaxAllowance)
}

/// The answer to a change of a truck's highest allowance: the truck with
/// the allowance that it now has, or the default where it has none.
pub fn max_allowance_updated(truck: &Truck) -> (answer: UpdateTruckMaxAllowanceResponse)
    ensures
        answer.truckid == truck.truckid,
        answer.trucknumber == truck.trucknumber,
        answer.max_allowance@ == match truck.max_allowance {
            Some(most) => most@,
            None => DEFAULT_MAX_ALLOWANCE as int,
        },
{
    let max_allowance: Amount = match truck.max_allowance {
        Some(most) => most,
        None => Amount::from_hundredths(DEFAULT_MAX_ALLOWANCE),
    };
    UpdateTruckMaxAllowanceResponse {
        truckid: truck.truckid,
        trucknumber: truck.trucknumber.clone(),
        max_allowance,
    }
}

} // verus!
