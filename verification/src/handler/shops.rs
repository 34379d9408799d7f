//! Shops: who may record or list them, and how they are shown.

use crate::access::{allowed, authorize, Operation};
use crate::dtos::CreateShopResponse;
use crate::error::HttpError;
use crate::models::{Shop, UserRole};
use vstd::prelude::*;
use vstd::string::StringExecFns;

verus! {

/// Decides on a request to record a shop. Managers and admins may ask.
pub fn create_shop(role: UserRole) -> (r: Result<(), HttpError>)
    ensures
        r is Ok <==> allowed(role, Operation::CreateShop),
        r matches Err(e) ==> e.denies(),
{
    authorize(role, Operation::CreateShop)
}

/// The answer to a shop that was recorded.
pub fn shop_created(shop: &Shop) -> (answer: CreateShopResponse)
    ensures
        answer.shopid == shop.shopid,
        answer.message@ == "Shop created successfully"@,
{
    CreateShopResponse {
        shopid: shop.shopid,
        message: String::from_str("Shop created successfully"),
    }
}

/// How a shop is shown in a list: by its name and, in brackets, its
/// address.
pub open spec fn listed(shop: Shop, answer: CreateShopResponse) -> bool {
    &&& answer.shopid == shop.shopid
    &&& answer.message@ == shop.name@ + " ("@ + shop.address@ + ")"@
}

/// The entry of a shop in a list.
pub fn list_entry(shop: &Shop) -> (answer: CreateShopResponse)
    ensures
        listed(*shop, answer),
{
    let mut message: String = String::from_str(shop.name.as_str());
    message.append(" (");
    message.append(shop.address.as_str());
    message.append(")");
    CreateShopResponse { shopid: shop.shopid, message }
}

/// The answer that lists every shop, in the order given. Managers and
/// admins may ask.
pub fn get_all_shops(role: UserRole, shops: &Vec<Shop>) -> (r: Result<
    Vec<CreateShopResponse>,
    HttpError,
>)
    ensures
        r is Ok <==> allowed(role, Operation::ViewShops),
        match r {
            Ok(answers) => {
                &&& answers@.len() == shops@.len()
                &&& forall|k: int| 0 <= k < shops@.len() ==> listed(shops@[k], #[trigger] answers@[k])
            },
            Err(e) => e.denies(),
        },
{
    match authorize(role, Operation::ViewShops) {
        Err(e) => {
            return Err(e);
        },
        Ok(()) => {},
    }
    let mut answers: Vec<CreateShopResponse> = Vec::new();
    let mut i: usize = 0;
    while i < shops.len()
        invariant
            0 <= i <= shops.len(),
            answers@.len() == i,
            forall|k: int| 0 <= k < i ==> listed(shops@[k], #[trigger] answers@[k]),
        decreases shops.len() - i,
    {
        answers.push(list_entry(&shops[i]));
        i = i + 1;
    }
    Ok(answers)
}

} // verus!
