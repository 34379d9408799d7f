//! The failures that a ledger operation reports.

use vstd::prelude::*;
use vstd::string::StringExecFns;

verus! {

/// A malformed input, rejected before anything is recorded.
#[derive(Clone, Copy, Debug, PartialEq, Eq, Structural)]
pub enum ValidationError {
    /// A line item asks for a quantity that is not greater than zero.
    NonPositiveQuantity { product_id: u128, quantity: i32 },
    /// A payment carries an amount that is not greater than zero.
    NonPositiveAmount { hundredths: i64 },
}

/// The kind of record that an identity was expected to name.
#[derive(Clone, Copy, Debug, PartialEq, Eq, Structural)]
pub enum Entity {
    Product,
    Sale,
    Allowance,
}

/// A fault of the store itself: a value that a column cannot hold.
#[derive(Clone, Copy, Debug, PartialEq, Eq, Structural)]
pub enum StorageError {
    /// The on-hand quantity of a product would leave the range of its column.
    QuantityOutOfRange { product_id: u128 },
    /// A monetary total would leave the range of its column.
    AmountOutOfRange,
}

/// Why a ledger operation was refused. A refused operation leaves the
/// ledger as it was.
#[derive(Clone, Copy, Debug, PartialEq, Eq, Structural)]
pub enum LedgerError {
    /// The request was malformed.
    Validation(ValidationError),
    /// A truck load asks for more of a product than the warehouse holds.
    InsufficientStock { product_id: u128, requested: i32, available: i32 },
    /// A referenced record does not exist.
    NotFound { entity: Entity, id: u128 },
    /// The store could not take the result.
    Storage(StorageError),
}

impl LedgerError {
    /// Whether the failure lies with the store rather than with the request,
    /// so that the same request may be tried again.
    pub fn is_storage_fault(&self) -> (b: bool)
        ensures
            b == (*self is Storage),
    {
        match self {
            LedgerError::Storage(_) => true,
            _ => false,
        }
    }
}

/// The fixed texts with which a request is turned down.
#[derive(Clone, Copy, Debug, PartialEq, Eq, Structural)]
pub enum ErrorMessage {
    PermissionDenied,
    InvalidDateFormat,
    InvalidProductId,
    ProductNotFound,
    InvalidUserId,
    UserNotFound,
    WrongCredentials,
    EmailExist,
}

impl ErrorMessage {
    /// The text of the message.
    pub open spec fn text(self) -> Seq<char> {
        match self {
            ErrorMessage::PermissionDenied => "You are not allowed to perform this action"@,
            ErrorMessage::InvalidDateFormat => "Invalid date format"@,
            ErrorMessage::InvalidProductId => "Invalid product ID"@,
            ErrorMessage::ProductNotFound => "Product not found"@,
            ErrorMessage::InvalidUserId => "Invalid user ID"@,
            ErrorMessage::UserNotFound => "User not found"@,
            ErrorMessage::WrongCredentials => "Invalid email or password"@,
            ErrorMessage::EmailExist => "Email already exists"@,
        }
    }

    /// The text of the message.
    pub fn to_str(&self) -> (s: &'static str)
        ensures
            s@ == self.text(),
    {
        match self {
            ErrorMessage::PermissionDenied => "You are not allowed to perform this action",
            ErrorMessage::InvalidDateFormat => "Invalid date format",
            ErrorMessage::InvalidProductId => "Invalid product ID",
            ErrorMessage::ProductNotFound => "Product not found",
            ErrorMessage::InvalidUserId => "Invalid user ID",
            ErrorMessage::UserNotFound => "User not found",
            ErrorMessage::WrongCredentials => "Invalid email or password",
            ErrorMessage::EmailExist => "Email already exists",
        }
    }
}

/// A refusal as the caller of the service sees it: a message and the status
/// code of the response.
#[derive(Debug, PartialEq, Eq)]
pub struct HttpError {
    pub message: String,
    pub status: u16,
}

/// The status of a malformed request.
pub const BAD_REQUEST: u16 = 400;

/// The status of a request that the caller's role does not allow.
pub const FORBIDDEN: u16 = 403;

/// The status of a request for a record that does not exist.
pub const NOT_FOUND: u16 = 404;

/// The status of a request that collides with what is recorded.
pub const CONFLICT: u16 = 409;

/// The status of a fault on the side of the service.
pub const INTERNAL_SERVER_ERROR: u16 = 500;

impl HttpError {
    /// The refusal has this message and this status.
    pub open spec fn carries(self, message: Seq<char>, status: u16) -> bool {
        self.message@ == message && self.status == status
    }

    /// The refusal says that the caller's role does not allow the request.
    pub open spec fn denies(self) -> bool {
        self.carries(ErrorMessage::PermissionDenied.text(), FORBIDDEN)
    }

    /// The refusal says that the request was malformed in the given way.
    pub open spec fn rejects(self, reason: ErrorMessage) -> bool {
        self.carries(reason.text(), BAD_REQUEST)
    }

    /// A refusal with the given message and status.
    pub fn new(message: &str, status: u16) -> (e: HttpError)
        ensures
            e.carries(message@, status),
    {
        HttpError { message: String::from_str(message), status }
    }

    /// A malformed request.
    pub fn bad_request(message: &str) -> (e: HttpError)
        ensures
            e.carries(message@, BAD_REQUEST),
    {
        HttpError::new(message, BAD_REQUEST)
    }

    /// A fault on the side of the service.
    pub fn server_error(message: &str) -> (e: HttpError)
        ensures
            e.carries(message@, INTERNAL_SERVER_ERROR),
    {
        HttpError::new(message, INTERNAL_SERVER_ERROR)
    }

    /// A value that must be unique is taken.
    pub fn unique_constraint_violation(message: &str) -> (e: HttpError)
        ensures
            e.carries(message@, CONFLICT),
    {
        HttpError::new(message, CONFLICT)
    }

    /// A malformed request, with one of the fixed texts.
    pub fn rejection(reason: ErrorMessage) -> (e: HttpError)
        ensures
            e.rejects(reason),
    {
        HttpError::new(reason.to_str(), BAD_REQUEST)
    }

    /// The caller's role does not allow the request.
    pub fn permission_denied() -> (e: HttpError)
        ensures
            e.denies(),
    {
        HttpError::new(ErrorMessage::PermissionDenied.to_str(), FORBIDDEN)
    }
}

impl LedgerError {
    /// The status with which the failure is answered: a malformed request,
    /// a missing record, a shortfall of stock that the caller can correct,
    /// or a fault of the store.
    pub open spec fn status_of(self) -> u16 {
        match self {
            LedgerError::Validation(_) => BAD_REQUEST,
            LedgerError::InsufficientStock { .. } => CONFLICT,
            LedgerError::NotFound { .. } => NOT_FOUND,
            LedgerError::Storage(_) => INTERNAL_SERVER_ERROR,
        }
    }

    /// What went wrong, in a few words. The details are in the fields.
    pub open spec fn summary_of(self) -> Seq<char> {
        match self {
            LedgerError::Validation(ValidationError::NonPositiveQuantity { .. }) =>
                "Quantity must be greater than zero"@,
            LedgerError::Validation(ValidationError::NonPositiveAmount { .. }) =>
                "Amount must be greater than zero"@,
            LedgerError::InsufficientStock { .. } => "Insufficient stock"@,
            LedgerError::NotFound { entity: Entity::Product, .. } => "Product not found"@,
            LedgerError::NotFound { entity: Entity::Sale, .. } => "Sale not found"@,
            LedgerError::NotFound { entity: Entity::Allowance, .. } => "Allowance not found"@,
            LedgerError::Storage(StorageError::QuantityOutOfRange { .. }) =>
                "Quantity out of range"@,
            LedgerError::Storage(StorageError::AmountOutOfRange) => "Amount out of range"@,
        }
    }

    /// The status with which the failure is answered.
    pub fn status(&self) -> (code: u16)
        ensures
            code == self.status_of(),
    {
        match self {
            LedgerError::Validation(_) => BAD_REQUEST,
            LedgerError::InsufficientStock { .. } => CONFLICT,
            LedgerError::NotFound { .. } => NOT_FOUND,
            LedgerError::Storage(_) => INTERNAL_SERVER_ERROR,
        }
    }

    /// What went wrong, in a few words.
    pub fn summary(&self) -> (s: &'static str)
        ensures
            s@ == self.summary_of(),
    {
        match self {
            LedgerError::Validation(ValidationError::NonPositiveQuantity { .. }) =>
                "Quantity must be greater than zero",
            LedgerError::Validation(ValidationError::NonPositiveAmount { .. }) =>
                "Amount must be greater than zero",
            LedgerError::InsufficientStock { .. } => "Insufficient stock",
            LedgerError::NotFound { entity: Entity::Product, .. } => "Product not found",
            LedgerError::NotFound { entity: Entity::Sale, .. } => "Sale not found",
            LedgerError::NotFound { entity: Entity::Allowance, .. } => "Allowance not found",
            LedgerError::Storage(StorageError::QuantityOutOfRange { .. }) =>
                "Quantity out of range",
            LedgerError::Storage(StorageError::AmountOutOfRange) => "Amount out of range",
        }
    }

    /// The failure as the caller of the service sees it.
    pub fn to_http(&self) -> (e: HttpError)
        ensures
            e.carries(self.summary_of(), self.status_of()),
    {
        HttpError::new(self.summary(), self.status())
    }
}

} // verus!
