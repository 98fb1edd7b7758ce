//! What a visitor submits to sign up and to log in.

use vstd::prelude::*;

verus! {

/// The fields of the sign-up form.
#[derive(Debug)]
pub struct SignupForm {
    pub email: String,
    pub password: String,
    pub username: String,
}

/// The fields of the log-in form.
#[derive(Debug)]
pub struct LoginForm {
    pub email: String,
    pub password: String,
}

} // verus!
