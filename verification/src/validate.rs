use vstd::prelude::*;
use vstd::string::{StrSliceExecFns, StringExecFns};

use crate::api::ApiError;
use crate::model::{CreateUserDto, CreateUserDtoV, UpdateUserDto, UpdateUserDtoV};

verus! {

/// A name passes when it has at least four characters.
pub open spec fn valid_name(s: Seq<char>) -> bool {
    s.len() >= 4
}

/// An age passes when it lies in the closed range 10 to 100.
pub open spec fn valid_age(a: int) -> bool {
    10 <= a && a <= 100
}

/// A plaintext password passes when it has at least four characters.
pub open spec fn valid_password(s: Seq<char>) -> bool {
    s.len() >= 4
}

/// Whether the HTML5 email grammar accepts the string; a function of the
/// characters alone, decided by the outside email check.
pub uninterp spec fn email_ok(s: Seq<char>) -> bool;

/// Relies on validator's `ValidateEmail` for `&str`: the HTML5 email check,
/// whose verdict depends on the characters of the string alone, and which
/// rejects the empty string.
#[verifier::external_body]
fn check_email(s: &str) -> (r: bool)
    ensures
        r == email_ok(s@),
        s@.len() == 0 ==> !r,
{
    validator::ValidateEmail::validate_email(&s)
}

/// A create intent passes when every field passes its constraint.
pub open spec fn create_dto_valid(u: CreateUserDtoV) -> bool {
    &&& valid_name(u.name)
    &&& valid_age(u.age)
    &&& email_ok(u.email)
    &&& valid_password(u.password)
}

/// An update intent passes when every present field passes its constraint;
/// an intent with no field present also passes.
pub open spec fn update_dto_valid(u: UpdateUserDtoV) -> bool {
    &&& (u.name matches Some(n) ==> valid_name(n))
    &&& (u.age matches Some(a) ==> valid_age(a))
    &&& (u.password matches Some(p) ==> valid_password(p))
}

/// Checks a create intent against the field constraints, before it ever
/// reaches the service; a failure carries status 400.
pub fn validate_create_user(user: &CreateUserDto) -> (r: Result<(), ApiError>)
    ensures
        (r is Ok) <==> create_dto_valid(user@),
        (r matches Err(e) ==> e.status == 400),
{
    if user.name.as_str().unicode_len() < 4 {
        return Err(ApiError::new(Some(String::from_str("name must have at least 4 characters")), 400));
    }
    if user.age < 10 || user.age > 100 {
        return Err(ApiError::new(Some(String::from_str("age must lie between 10 and 100")), 400));
    }
    if !check_email(user.email.as_str()) {
        return Err(ApiError::new(Some(String::from_str("email is not a valid address")), 400));
    }
    if user.password.as_str().unicode_len() < 4 {
        return Err(ApiError::new(Some(String::from_str("password must have at least 4 characters")), 400));
    }
    Ok(())
}

/// Checks an update intent against the field constraints; an intent with no
/// field present passes. A failure carries status 400.
pub fn validate_update_user(user: &UpdateUserDto) -> (r: Result<(), ApiError>)
    ensures
        (r is Ok) <==> update_dto_valid(user@),
        (r matches Err(e) ==> e.status == 400),
{
    match &user.name {
        Some(n) => {
            if n.as_str().unicode_len() < 4 {
                return Err(ApiError::new(Some(String::from_str("name must have at least 4 characters")), 400));
            }
        },
        None => (),
    }
    match &user.age {
        Some(a) => {
            if *a < 10 || *a > 100 {
                return Err(ApiError::new(Some(String::from_str("age must lie between 10 and 100")), 400));
            }
        },
        None => (),
    }
    match &user.password {
        Some(p) => {
            if p.as_str().unicode_len() < 4 {
                return Err(ApiError::new(Some(String::from_str("password must have at least 4 characters")), 400));
            }
        },
        None => (),
    }
    Ok(())
}

} // verus!
