//! Products: who may record one, and how one is looked up.

use crate::access::{allowed, authorize, Operation};
use crate::dtos::{ProductResponseDto, ProductsListResponseDto};
use crate::error::{ErrorMessage, HttpError};
use crate::ids::{parse_uuid, parsed_uuid};
use crate::models::{Product, UserRole};
use vstd::prelude::*;
use vstd::string::StringExecFns;

verus! {

/// Decides on a request to record a product. Managers and admins may ask.
pub fn create_product(role: UserRole) -> (r: Result<(), HttpError>)
    ensures
        r is Ok <==> allowed(role, Operation::CreateProduct),
        r matches Err(e) ==> e.denies(),
{
    authorize(role, Operation::CreateProduct)
}

/// The answer that carries a product.
pub fn product_answer(product: Product) -> (answer: ProductResponseDto)
    ensures
        answer.status@ == "success"@,
        answer.product == product,
{
    ProductResponseDto { status: String::from_str("success"), product }
}

/// Reads the identity of the product that a request asks for.
pub fn get_product(product_id: &str) -> (r: Result<u128, HttpError>)
    ensures
        match r {
            Ok(id) => parsed_uuid(product_id@) == Some(id),
            Err(e) => parsed_uuid(product_id@) is None && e.rejects(ErrorMessage::InvalidProductId),
        },
{
    match parse_uuid(product_id) {
        Some(id) => Ok(id),
        None => Err(HttpError::rejection(ErrorMessage::InvalidProductId)),
    }
}

/// The answer to a request for one product, once the store was asked.
pub fn product_found(found: Option<Product>) -> (r: Result<ProductResponseDto, HttpError>)
    ensures
        match r {
            Ok(answer) => answer.status@ == "success"@ && found == Some(answer.product),
            Err(e) => found is None && e.rejects(ErrorMessage::ProductNotFound),
        },
{
    match found {
        Some(product) => Ok(product_answer(product)),
        None => Err(HttpError::rejection(ErrorMessage::ProductNotFound)),
    }
}

/// The answer that lists every product with their number.
pub fn get_all_products(products: Vec<Product>) -> (answer: ProductsListResponseDto)
    ensures
        answer.status@ == "success"@,
        answer.results == products@.len(),
        answer.products == products,
{
    ProductsListResponseDto {
        status: String::from_str("success"),
        results: products.len(),
        products,
    }
}

} // verus!
