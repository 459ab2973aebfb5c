//! Error taxonomy: validation, not-found, storage and internal failures.

use vstd::prelude::*;

verus! {

/// A rejected input: empty content, over-long content, or a free-form
/// validation message.
#[derive(Debug, Clone, PartialEq, Eq)]
pub enum ValidationError {
    EmptyContent,
    ContentTooLong { max: usize, actual: usize },
    InvalidInput(String),
}

impl ValidationError {
    pub fn new(msg: String) -> (r: ValidationError)
        ensures
            r == ValidationError::InvalidInput(msg),
    {
        ValidationError::InvalidInput(msg)
    }
}

/// Domain-level failure: a validation error, a storage error, or a missing
/// entity.
#[derive(Debug, Clone, PartialEq, Eq)]
pub enum DomainError {
    Validation(ValidationError),
    Database(String),
    NotFound(String),
    BusinessRuleViolation(String),
    Unknown(String),
}

impl DomainError {
    pub fn validation(msg: String) -> (r: DomainError)
        ensures
            r == DomainError::Validation(ValidationError::InvalidInput(msg)),
    {
        DomainError::Validation(ValidationError::new(msg))
    }
}

/// Application-level failure, the error type of every use case.
#[derive(Debug, Clone, PartialEq, Eq)]
pub enum AppError {
    Validation(ValidationError),
    Domain(DomainError),
    Database(String),
    NotFound(String),
    Internal(String),
}

impl AppError {
    pub fn internal(msg: String) -> (r: AppError)
        ensures
            r == AppError::Internal(msg),
    {
        AppError::Internal(msg)
    }

    pub fn not_found(msg: String) -> (r: AppError)
        ensures
            r == AppError::NotFound(msg),
    {
        AppError::NotFound(msg)
    }

    pub fn validation(msg: String) -> (r: AppError)
        ensures
            r == AppError::Validation(ValidationError::InvalidInput(msg)),
    {
        AppError::Validation(ValidationError::new(msg))
    }

    /// True iff this error reports a rejected input.
    pub fn is_validation(&self) -> (r: bool)
        ensures
            r == (self matches AppError::Validation(_)),
    {
        match self {
            AppError::Validation(_) => true,
            _ => false,
        }
    }
}

} // verus!
