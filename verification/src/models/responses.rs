//! What came back from the service, reduced to what the library reads.

use vstd::prelude::*;

verus! {

/// The status code and the body of an answer.
#[derive(Debug, PartialEq, Eq)]
pub struct SimpleResponse {
    pub status: u16,
    pub body: String,
}

/// The mathematical value of a [`SimpleResponse`].
pub struct SimpleResponseModel {
    pub status: u16,
    pub body: Seq<char>,
}

impl DeepView for SimpleResponse {
    type V = SimpleResponseModel;

    open spec fn deep_view(&self) -> SimpleResponseModel {
        SimpleResponseModel { status: self.status, body: self.body@ }
    }
}

/// Whether a status code says that the request succeeded: 200 to 299.
pub open spec fn is_success_status(status: u16) -> bool {
    200 <= status < 300
}

impl SimpleResponse {
    /// Whether the status says that the request succeeded.
    pub fn is_success(&self) -> (yes: bool)
        ensures
            yes == is_success_status(self.status),
    {
        200 <= self.status && self.status < 300
    }
}

/// An answer whose status does not say success.
#[derive(Debug, PartialEq, Eq)]
pub struct ErrorResponse {
    pub response: SimpleResponse,
}

impl DeepView for ErrorResponse {
    type V = SimpleResponseModel;

    open spec fn deep_view(&self) -> SimpleResponseModel {
        self.response.deep_view()
    }
}

/// Sorts an answer by its status: `Ok` for a success, an error that holds
/// the answer for everything else. The answer itself is handed on
/// unchanged.
pub fn response_to_result(res: SimpleResponse) -> (r: Result<SimpleResponse, ErrorResponse>)
    ensures
        match r {
            Ok(response) => is_success_status(res.status) && response == res,
            Err(error) => !is_success_status(res.status) && error.response == res,
        },
{
    if res.is_success() {
        Ok(res)
    } else {
        Err(ErrorResponse { response: res })
    }
}

} // verus!
