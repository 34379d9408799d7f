//! What each request handler decides before the store is asked and what it
//! answers afterwards. Talking to the network and to the store is left to
//! the caller.

pub mod allowance;
pub mod auth;
pub mod delivery;
pub mod payment;
pub mod products;
pub mod sales;
pub mod shops;
pub mod truck_load;
pub mod trucks;
pub mod users;
