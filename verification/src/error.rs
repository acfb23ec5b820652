//! The errors of the registry and the sentences that report them.

use crate::text::{decimal_digits, decimal_string};
use vstd::prelude::*;
use vstd::string::StringExecFns;

verus! {

/// The identifier of a user.
pub type UserId = u32;

/// A point in time, in seconds since the Unix epoch.
pub type Timestamp = u64;

/// Why a user record was refused.
#[derive(Debug, PartialEq)]
pub enum ValidationError {
    /// The named field is empty or blank.
    EmptyField(String),
    /// The e-mail address does not have the shape `local@domain`.
    InvalidEmail(String),
    /// The age is above the accepted bound.
    InvalidAge(u32),
    /// Another user already has the e-mail address.
    DuplicateEmail(String),
    /// The role is not known.
    InvalidRole(String),
}

/// The mathematical value of a [`ValidationError`].
pub enum ValidationErrorView {
    EmptyField(Seq<char>),
    InvalidEmail(Seq<char>),
    InvalidAge(u32),
    DuplicateEmail(Seq<char>),
    InvalidRole(Seq<char>),
}

impl View for ValidationError {
    type V = ValidationErrorView;

    open spec fn view(&self) -> ValidationErrorView {
        match self {
            ValidationError::EmptyField(field) => ValidationErrorView::EmptyField(field@),
            ValidationError::InvalidEmail(email) => ValidationErrorView::InvalidEmail(email@),
            ValidationError::InvalidAge(age) => ValidationErrorView::InvalidAge(*age),
            ValidationError::DuplicateEmail(email) => ValidationErrorView::DuplicateEmail(email@),
            ValidationError::InvalidRole(role) => ValidationErrorView::InvalidRole(role@),
        }
    }
}

/// The sentence that reports a validation error.
pub open spec fn validation_message(error: ValidationErrorView) -> Seq<char> {
    match error {
        ValidationErrorView::EmptyField(field) => "Field '"@ + field + "' cannot be empty"@,
        ValidationErrorView::InvalidEmail(email) => "Invalid email format: "@ + email,
        ValidationErrorView::InvalidAge(age) => "Invalid age: "@ + decimal_digits(age as nat),
        ValidationErrorView::DuplicateEmail(email) => "Email already exists: "@ + email,
        ValidationErrorView::InvalidRole(role) => "Invalid role: "@ + role,
    }
}

impl Clone for ValidationError {
    fn clone(&self) -> (out: Self)
        ensures
            out@ == self@,
    {
        match self {
            ValidationError::EmptyField(field) => ValidationError::EmptyField(field.clone()),
            ValidationError::InvalidEmail(email) => ValidationError::InvalidEmail(email.clone()),
            ValidationError::InvalidAge(age) => ValidationError::InvalidAge(*age),
            ValidationError::DuplicateEmail(email) => ValidationError::DuplicateEmail(email.clone()),
            ValidationError::InvalidRole(role) => ValidationError::InvalidRole(role.clone()),
        }
    }
}

impl ValidationError {
    /// The sentence that reports the error.
    pub fn message(&self) -> (out: String)
        ensures
            out@ == validation_message(self@),
    {
        match self {
            ValidationError::EmptyField(field) => {
                let mut out = "Field '".to_owned();
                out.append(field.as_str());
                out.append("' cannot be empty");
                out
            },
            ValidationError::InvalidEmail(email) => {
                let mut out = "Invalid email format: ".to_owned();
                out.append(email.as_str());
                out
            },
            ValidationError::InvalidAge(age) => {
                let mut out = "Invalid age: ".to_owned();
                out.append(decimal_string(*age).as_str());
                out
            },
            ValidationError::DuplicateEmail(email) => {
                let mut out = "Email already exists: ".to_owned();
                out.append(email.as_str());
                out
            },
            ValidationError::InvalidRole(role) => {
                let mut out = "Invalid role: ".to_owned();
                out.append(role.as_str());
                out
            },
        }
    }
}

/// Why an operation of the repository or of the service failed.
#[derive(Debug, PartialEq)]
pub enum UserError {
    /// The record was refused.
    Validation(ValidationError),
    /// No user has the identifier.
    NotFound(UserId),
}

/// The mathematical value of a [`UserError`].
pub enum UserErrorView {
    Validation(ValidationErrorView),
    NotFound(UserId),
}

impl View for UserError {
    type V = UserErrorView;

    open spec fn view(&self) -> UserErrorView {
        match self {
            UserError::Validation(error) => UserErrorView::Validation(error@),
            UserError::NotFound(id) => UserErrorView::NotFound(*id),
        }
    }
}

/// The sentence that reports an error.
pub open spec fn error_message(error: UserErrorView) -> Seq<char> {
    match error {
        UserErrorView::Validation(inner) => validation_message(inner),
        UserErrorView::NotFound(id) => "User with id "@ + decimal_digits(id as nat) + " not found"@,
    }
}

impl Clone for UserError {
    fn clone(&self) -> (out: Self)
        ensures
            out@ == self@,
    {
        match self {
            UserError::Validation(inner) => UserError::Validation(inner.clone()),
            UserError::NotFound(id) => UserError::NotFound(*id),
        }
    }
}

impl UserError {
    /// The sentence that reports the error.
    pub fn message(&self) -> (out: String)
        ensures
            out@ == error_message(self@),
    {
        match self {
            UserError::Validation(inner) => inner.message(),
            UserError::NotFound(id) => {
                let mut out = "User with id ".to_owned();
                out.append(decimal_string(*id).as_str());
                out.append(" not found");
                out
            },
        }
    }
}

} // verus!
