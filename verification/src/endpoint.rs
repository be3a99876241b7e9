//! What the metrics endpoint answers to a request.

use vstd::prelude::*;
use vstd::string::*;

verus! {

/// The answer to one request.
#[derive(Clone, Copy, Debug, PartialEq, Eq, Structural)]
pub enum Reply {
    /// The current metrics, rendered as text.
    Metrics,
    /// Nothing is served under the path asked for.
    NotFound,
}

/// The answer to a request for `path`: the metrics under `/metrics`, and
/// nothing anywhere else.
pub open spec fn spec_route(path: Seq<char>) -> Reply {
    if path == "/metrics"@ {
        Reply::Metrics
    } else {
        Reply::NotFound
    }
}

/// The answer to a request for `path`.
pub fn route(path: &str) -> (reply: Reply)
    ensures
        reply == spec_route(path@),
{
    let asked = String::from_str(path);
    let served = String::from_str("/metrics");
    if asked == served {
        Reply::Metrics
    } else {
        Reply::NotFound
    }
}

impl Reply {
    /// The HTTP status of the answer.
    pub open spec fn spec_status(self) -> u16 {
        match self {
            Reply::Metrics => 200,
            Reply::NotFound => 404,
        }
    }

    /// The HTTP status of the answer.
    pub fn status(&self) -> (status: u16)
        ensures
            status == self.spec_status(),
    {
        match self {
            Reply::Metrics => 200,
            Reply::NotFound => 404,
        }
    }
}

} // verus!
