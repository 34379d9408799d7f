//! Payments: who may record one.

use crate::access::{allowed, authorize, Operation};
use crate::dtos::CreatePaymentResponse;
use crate::error::HttpError;
use crate::models::{Payment, UserRole};
use vstd::prelude::*;
use vstd::string::StringExecFns;

verus! {

/// Decides on a request to record a payment. Only drivers may ask; the
/// request is then recorded as it stands.
pub fn create_payment(role: UserRole) -> (r: Result<(), HttpError>)
    ensures
        r is Ok <==> allowed(role, Operation::CreatePayment),
        r matches Err(e) ==> e.denies(),
{
    authorize(role, Operation::CreatePayment)
}

/// The answer to a payment that was recorded.
pub fn payment_created(payment: &Payment) -> (answer: CreatePaymentResponse)
    ensures
        answer.paymentid == payment.paymentid,
        answer.message@ == "Payment created successfully"@,
{
    CreatePaymentResponse {
        paymentid: payment.paymentid,
        message: String::from_str("Payment created successfully"),
    }
}

} // verus!
