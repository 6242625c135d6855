//! Plain records of the account endpoints: the bodies of their requests
//! and the reply that carries a status and a message.

use vstd::prelude::*;

verus! {

/// The body of a registration request.
#[derive(Debug)]
pub struct UserRegisterSchema {
    pub name: String,
    pub email: String,
    pub password: String,
}

/// The body of a login request.
#[derive(Debug)]
pub struct UserLoginSchema {
    pub email: String,
    pub password: String,
}

/// The body of a request for a one-time-password secret.
#[derive(Debug)]
pub struct GenerateOTPSchema {
    pub email: String,
}

/// The body of a request that presents a one-time password.
#[derive(Debug)]
pub struct VerifyOTPSchema {
    pub token: String,
}

/// A reply that carries a status and a message.
#[derive(Debug)]
pub struct GenericResponse {
    pub status: String,
    pub message: String,
}

} // verus!
