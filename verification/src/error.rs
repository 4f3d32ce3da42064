use vstd::prelude::*;

verus! {

/// Errors returned by the database layer and by the routes.
#[derive(Debug)]
pub enum Error {
    /// The requested resource does not exist (or is hidden from the caller).
    NotFound,
    /// The caller lacks the privilege the operation asks for.
    NotPrivileged,
    /// The account has already completed onboarding.
    AlreadyOnboarded,
    /// The entry code is missing, unknown or already redeemed.
    InvalidEntryCode,
    /// The request body did not pass validation.
    FailedValidation { error: String },
    /// A database operation failed.
    DatabaseError { operation: String, collection: String },
}

} // verus!
