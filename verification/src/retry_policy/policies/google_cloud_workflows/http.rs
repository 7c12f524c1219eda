//! The errors of an HTTP call and the two default retry predicates of
//! Google Cloud Workflows on them.
use vstd::prelude::*;

verus! {

/// What went wrong with an HTTP call.
#[derive(Debug)]
pub enum Error {
    /// 429
    TooManyRequests {
        /// The delay that the `Retry-After` header asks for.
        retry_after_delay_seconds: Option<usize>,
    },
    /// 502
    BadGateway,
    /// 503
    ServiceUnavailable {
        /// The delay that the `Retry-After` header asks for.
        retry_after_delay_seconds: Option<usize>,
    },
    /// 504
    GatewayTimeout,
    ConnectionError,
    TimeoutError,
    Other,
}

/// The predicate of `http.default_retry`: the call is worth another attempt
/// after a 429, 502, 503 or 504, a connection error or a timeout.
pub fn default_retry_predicate(err: &Error) -> (eligible: bool)
    ensures
        eligible == (err is TooManyRequests || err is BadGateway || err is ServiceUnavailable
            || err is GatewayTimeout || err is ConnectionError || err is TimeoutError),
{
    matches!(
        err,
        Error::TooManyRequests { retry_after_delay_seconds: _ } | Error::BadGateway
            | Error::ServiceUnavailable { retry_after_delay_seconds: _ } | Error::GatewayTimeout
            | Error::ConnectionError | Error::TimeoutError
    )
}

/// The predicate of `http.default_retry_non_idempotent`: the call is worth
/// another attempt only after a 429 or a 503, when the server has not acted
/// on it.
pub fn default_retry_predicate_non_idempotent(err: &Error) -> (eligible: bool)
    ensures
        eligible == (err is TooManyRequests || err is ServiceUnavailable),
{
    matches!(
        err,
        Error::TooManyRequests { retry_after_delay_seconds: _ } | Error::ServiceUnavailable {
            retry_after_delay_seconds: _,
        }
    )
}

/// The decimal digit `digit`.
pub open spec fn digit_text(digit: nat) -> Seq<char> {
    if digit == 0 {
        "0"@
    } else if digit == 1 {
        "1"@
    } else if digit == 2 {
        "2"@
    } else if digit == 3 {
        "3"@
    } else if digit == 4 {
        "4"@
    } else if digit == 5 {
        "5"@
    } else if digit == 6 {
        "6"@
    } else if digit == 7 {
        "7"@
    } else if digit == 8 {
        "8"@
    } else {
        "9"@
    }
}

/// `n` in decimal, without leading zeros.
pub open spec fn decimal_text(n: nat) -> Seq<char>
    decreases n,
{
    if n < 10 {
        digit_text(n)
    } else {
        decimal_text(n / 10) + digit_text(n % 10)
    }
}

/// A delay that may be missing, written as `None` or `Some(30)`.
pub open spec fn delay_text(delay: Option<usize>) -> Seq<char> {
    match delay {
        None => "None"@,
        Some(seconds) => "Some("@ + decimal_text(seconds as nat) + ")"@,
    }
}

fn digit_str(digit: usize) -> (text: &'static str)
    requires
        digit < 10,
    ensures
        text@ == digit_text(digit as nat),
{
    match digit {
        0 => "0",
        1 => "1",
        2 => "2",
        3 => "3",
        4 => "4",
        5 => "5",
        6 => "6",
        7 => "7",
        8 => "8",
        _ => "9",
    }
}

fn append_decimal(text: &mut String, n: usize)
    ensures
        final(text)@ == old(text)@ + decimal_text(n as nat),
    decreases n,
{
    if n >= 10 {
        append_decimal(text, n / 10);
    }
    text.append(digit_str(n % 10));
}

fn append_delay(text: &mut String, delay: &Option<usize>)
    ensures
        final(text)@ == old(text)@ + delay_text(*delay),
{
    match delay {
        None => {
            text.append("None");
        },
        Some(seconds) => {
            text.append("Some(");
            append_decimal(text, *seconds);
            text.append(")");
        },
    }
}

impl Error {
    /// The text of this error: the name of its variant and, where it has
    /// one, its field.
    pub open spec fn text(&self) -> Seq<char> {
        match self {
            Error::TooManyRequests { retry_after_delay_seconds } => {
                "TooManyRequests { retry_after_delay_seconds: "@ + delay_text(
                    *retry_after_delay_seconds,
                ) + " }"@
            },
            Error::BadGateway => "BadGateway"@,
            Error::ServiceUnavailable { retry_after_delay_seconds } => {
                "ServiceUnavailable { retry_after_delay_seconds: "@ + delay_text(
                    *retry_after_delay_seconds,
                ) + " }"@
            },
            Error::GatewayTimeout => "GatewayTimeout"@,
            Error::ConnectionError => "ConnectionError"@,
            Error::TimeoutError => "TimeoutError"@,
            Error::Other => "Other"@,
        }
    }

    /// This error as text.
    pub fn to_string(&self) -> (text: String)
        ensures
            text@ == self.text(),
    {
        match self {
            Error::TooManyRequests { retry_after_delay_seconds } => {
                let mut text = String::from_str("TooManyRequests { retry_after_delay_seconds: ");
                append_delay(&mut text, retry_after_delay_seconds);
                text.append(" }");
                text
            },
            Error::BadGateway => String::from_str("BadGateway"),
            Error::ServiceUnavailable { retry_after_delay_seconds } => {
                let mut text = String::from_str("ServiceUnavailable { retry_after_delay_seconds: ");
                append_delay(&mut text, retry_after_delay_seconds);
                text.append(" }");
                text
            },
            Error::GatewayTimeout => String::from_str("GatewayTimeout"),
            Error::ConnectionError => String::from_str("ConnectionError"),
            Error::TimeoutError => String::from_str("TimeoutError"),
            Error::Other => String::from_str("Other"),
        }
    }
}

} // verus!
