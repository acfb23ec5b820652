//! Field checks on user data.

use crate::error::{ValidationError, ValidationErrorView};
use crate::text::{contains_char, ends_with_char, starts_with_char};
use vstd::prelude::*;

verus! {

/// The highest age that is accepted.
pub const MAX_AGE: u32 = 150;

/// An e-mail address has the accepted shape when it holds an `@` and a `.`
/// and neither begins nor ends with `@`.
pub open spec fn email_shape_ok(email: Seq<char>) -> bool {
    &&& email.contains('@')
    &&& email.contains('.')
    &&& !(email.len() > 0 && email[0] == '@')
    &&& !(email.len() > 0 && email.last() == '@')
}

/// An age is accepted up to [`MAX_AGE`].
pub open spec fn age_ok(age: u32) -> bool {
    age <= MAX_AGE
}

/// Whether `email` has the accepted shape.
pub fn is_valid_email(email: &str) -> (valid: bool)
    ensures
        valid == email_shape_ok(email@),
{
    contains_char(email, '@') && contains_char(email, '.') && !starts_with_char(email, '@')
        && !ends_with_char(email, '@')
}

/// Accepts `email` when it has the accepted shape, and reports it otherwise.
pub fn validate_email(email: &str) -> (checked: Result<(), ValidationError>)
    ensures
        checked is Ok <==> email_shape_ok(email@),
        checked matches Err(error) ==> error@ == ValidationErrorView::InvalidEmail(email@),
{
    if !is_valid_email(email) {
        return Err(ValidationError::InvalidEmail(email.to_owned()));
    }
    Ok(())
}

/// Accepts `age` up to [`MAX_AGE`], and reports it otherwise.
pub fn validate_age(age: u32) -> (checked: Result<(), ValidationError>)
    ensures
        checked is Ok <==> age_ok(age),
        checked matches Err(error) ==> error@ == ValidationErrorView::InvalidAge(age),
{
    if age > MAX_AGE {
        return Err(ValidationError::InvalidAge(age));
    }
    Ok(())
}

} // verus!
