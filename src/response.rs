//! Bodies of successful responses.
use vstd::prelude::*;

use crate::clock::system_time_rfc3339;

verus! {

/// The JSON body of a successful response: its data, stamped with the time.
#[derive(Debug)]
pub struct OkResponse<T> {
    pub data: T,
    pub timestamp: String,
}

impl<T> OkResponse<T> {
    pub fn new(response_data: T) -> (r: OkResponse<T>)
        ensures
            r.data == response_data,
    {
        OkResponse { data: response_data, timestamp: system_time_rfc3339() }
    }
}

/// The data of a successful login: the access token.
#[derive(Debug)]
pub struct LoginResponse {
    pub token: String,
}

} // verus!
