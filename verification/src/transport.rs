//! What became of a request, judged by the status of the response.

use vstd::prelude::*;

verus! {

/// The status code that the service answers with when it does not know the API key.
pub const UNAUTHORIZED: u16 = 401;

/// The outcome of one delivery attempt. No outcome leads to a second attempt.
#[derive(Debug, Clone, Copy, PartialEq, Eq)]
pub enum Delivery {
    /// The service answered with a 2xx status.
    Delivered,
    /// The service answered 401: the API key is wrong or revoked.
    Unauthorized,
    /// The service answered with the given status, which is neither 2xx nor 401.
    Rejected(u16),
    /// No response arrived: the connection or the transfer failed.
    Unreachable,
}

/// Whether a status code is one of the success codes 200 to 299.
pub open spec fn is_success(status: u16) -> bool {
    200 <= status < 300
}

/// The outcome that a response status stands for.
pub open spec fn outcome_of(status: u16) -> Delivery {
    if is_success(status) {
        Delivery::Delivered
    } else if status == UNAUTHORIZED {
        Delivery::Unauthorized
    } else {
        Delivery::Rejected(status)
    }
}

/// Classifies a response by its status code.
pub fn classify(status: u16) -> (delivery: Delivery)
    ensures
        delivery == outcome_of(status),
{
    if 200 <= status && status < 300 {
        Delivery::Delivered
    } else if status == UNAUTHORIZED {
        Delivery::Unauthorized
    } else {
        Delivery::Rejected(status)
    }
}

/// Classifies the result of a delivery attempt: the status of the response, or
/// `None` where no response arrived.
pub fn classify_reply(reply: Option<u16>) -> (delivery: Delivery)
    ensures
        delivery == match reply {
            Some(status) => outcome_of(status),
            None => Delivery::Unreachable,
        },
{
    match reply {
        Some(status) => classify(status),
        None => Delivery::Unreachable,
    }
}

} // verus!
