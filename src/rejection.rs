//! The closed set of request failures and the reply each one gets.
use vstd::prelude::*;

verus! {

/// Why a request was turned away.
#[derive(Clone, Debug)]
pub enum Failure {
    /// No route matches the request.
    NotFound,
    /// The credential header is absent.
    MissingHeader,
    /// The body is larger than the configured limit.
    PayloadTooLarge,
    /// The credential does not match the configured secret.
    Unauthorized,
    /// The route exists but not for this method.
    MethodNotAllowed,
    /// A configuration or storage failure on the server, with what went wrong.
    System(String),
    /// Anything not named above.
    Other,
}

/// The status line and body sent back for a failure, and the warning to log, if any.
#[derive(Clone, Debug)]
pub struct Reply {
    pub status: u16,
    pub message: String,
    pub warning: Option<String>,
}

pub open spec fn status_of(f: Failure) -> u16 {
    match f {
        Failure::NotFound => 404,
        Failure::MissingHeader => 400,
        Failure::PayloadTooLarge => 400,
        Failure::Unauthorized => 401,
        Failure::MethodNotAllowed => 405,
        Failure::System(_) => 500,
        Failure::Other => 500,
    }
}

pub open spec fn message_of(f: Failure) -> Seq<char> {
    match f {
        Failure::NotFound => "NOT_FOUND"@,
        Failure::MissingHeader => "BAD_REQUEST"@,
        Failure::PayloadTooLarge => "BAD_REQUEST"@,
        Failure::Unauthorized => "Unauthorized"@,
        Failure::MethodNotAllowed => "Invalid Request Method"@,
        Failure::System(_) => "SYS_ERROR"@,
        Failure::Other => "INTERNAL_SERVER_ERROR"@,
    }
}

/// Only a system failure is logged, with its own message.
pub open spec fn warning_of(f: Failure) -> Option<Seq<char>> {
    match f {
        Failure::System(m) => Some(m@),
        _ => None,
    }
}

/// The reply for a failure: every failure maps to exactly one status and message.
pub fn translate(f: &Failure) -> (r: Reply)
    ensures
        r.status == status_of(*f),
        r.message@ == message_of(*f),
        match r.warning {
            Some(w) => warning_of(*f) == Some(w@),
            None => warning_of(*f) is None,
        },
{
    match f {
        Failure::NotFound => Reply { status: 404, message: "NOT_FOUND".to_owned(), warning: None },
        Failure::MissingHeader => Reply {
            status: 400,
            message: "BAD_REQUEST".to_owned(),
            warning: None,
        },
        Failure::PayloadTooLarge => Reply {
            status: 400,
            message: "BAD_REQUEST".to_owned(),
            warning: None,
        },
        Failure::Unauthorized => Reply {
            status: 401,
            message: "Unauthorized".to_owned(),
            warning: None,
        },
        Failure::MethodNotAllowed => Reply {
            status: 405,
            message: "Invalid Request Method".to_owned(),
            warning: None,
        },
        Failure::System(m) => Reply {
            status: 500,
            message: "SYS_ERROR".to_owned(),
            warning: Some(m.clone()),
        },
        Failure::Other => Reply {
            status: 500,
            message: "INTERNAL_SERVER_ERROR".to_owned(),
            warning: None,
        },
    }
}

} // verus!
