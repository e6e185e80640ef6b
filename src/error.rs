use vstd::prelude::*;

use crate::text::{decimal, decimal_of};

verus! {

/// The status code with which the engine reports success.
pub const SQLITE_OK: i32 = 0;

/// An error.
#[derive(Debug)]
pub struct Error {
    /// The error code.
    pub code: Option<isize>,
    /// The error message.
    pub message: Option<String>,
}

/// A result.
pub type Result<T> = std::result::Result<T, Error>;

/// What an error holds: its code and the characters of its message.
pub type ErrorView = (Option<isize>, Option<Seq<char>>);

impl View for Error {
    type V = ErrorView;

    open spec fn view(&self) -> ErrorView {
        (
            self.code,
            match self.message {
                Some(m) => Some(m@),
                None => None,
            },
        )
    }
}

/// A result with its error replaced by what the error holds.
pub open spec fn result_view<T>(r: Result<T>) -> std::result::Result<T, ErrorView> {
    match r {
        Ok(x) => Ok(x),
        Err(e) => Err(e@),
    }
}

/// The text used when an error has neither a code nor a message of its own.
pub open spec fn fallback_text() -> Seq<char> {
    "an SQL engine error"@
}

/// How an error reads: the message, the code, or the fallback text.
pub open spec fn error_text(e: ErrorView) -> Seq<char> {
    match e {
        (Some(code), Some(message)) => message + " (code "@ + decimal_of(code as int) + ")"@,
        (Some(code), None) => fallback_text() + " (code "@ + decimal_of(code as int) + ")"@,
        (None, Some(message)) => message,
        (None, None) => fallback_text(),
    }
}

/// An error that carries a message and no code.
pub open spec fn message_error(message: Seq<char>) -> ErrorView {
    (None, Some(message))
}

/// The message of an error about an index or a name that resolves to nothing.
pub open spec fn out_of_range_text(what: Seq<char>) -> Seq<char> {
    "the index is out of range ("@ + what + ")"@
}

/// The message of an error about a value of another type than the one asked for.
pub open spec fn conversion_text() -> Seq<char> {
    "failed to convert"@
}

/// The message of an error about a text column that the engine could not hand out.
pub open spec fn text_column_text() -> Seq<char> {
    "cannot read a text column"@
}

/// The error that the engine's last report on a connection makes, if any:
/// none when it reports success or gives no message.
pub open spec fn last_spec(code: i32, message: Option<Seq<char>>) -> Option<ErrorView> {
    if code == SQLITE_OK {
        None
    } else {
        match message {
            Some(m) => Some((Some(code as isize), Some(m))),
            None => None,
        }
    }
}

/// The error for a failing status code: the connection's last error when
/// there is one, else the bare code.
pub open spec fn engine_error_spec(code: i32, last: Option<Error>) -> ErrorView {
    match last {
        Some(e) => e@,
        None => (Some(code as isize), None),
    }
}

impl Error {
    /// Return the text of the error: its message followed by its code, or
    /// a fallback text where either is missing.
    pub fn to_string(&self) -> (r: String)
        ensures
            r@ == error_text(self@),
    {
        proof {
            reveal_strlit(" (code ");
            reveal_strlit(")");
            reveal_strlit("an SQL engine error");
        }
        match (self.code, &self.message) {
            (Some(code), Some(message)) => {
                let r = message.clone().concat(" (code ").concat(decimal(code as i64).as_str()).concat(")");
                assert(r@ =~= error_text(self@));
                r
            },
            (Some(code), None) => {
                let r = String::from_str("an SQL engine error").concat(" (code ").concat(
                    decimal(code as i64).as_str(),
                ).concat(")");
                assert(r@ =~= error_text(self@));
                r
            },
            (None, Some(message)) => message.clone(),
            (None, None) => String::from_str("an SQL engine error"),
        }
    }

    /// Return the message of the error, or the fallback text.
    pub fn description(&self) -> (r: &str)
        ensures
            r@ == match self.message {
                Some(m) => m@,
                None => fallback_text(),
            },
    {
        match &self.message {
            Some(message) => message.as_str(),
            None => "an SQL engine error",
        }
    }
}

/// An error that carries a message and no code.
pub fn message(text: String) -> (e: Error)
    ensures
        e@ == message_error(text@),
{
    Error { code: None, message: Some(text) }
}

/// The error about an index or a name that resolves to nothing.
pub fn out_of_range(what: &str) -> (e: Error)
    ensures
        e@ == message_error(out_of_range_text(what@)),
{
    proof {
        reveal_strlit("the index is out of range (");
        reveal_strlit(")");
    }
    let text = String::from_str("the index is out of range (").concat(what).concat(")");
    message(text)
}

/// The error about a value of another type than the one asked for.
pub fn conversion_error() -> (e: Error)
    ensures
        e@ == message_error(conversion_text()),
{
    proof {
        reveal_strlit("failed to convert");
    }
    message(String::from_str("failed to convert"))
}

/// The error about a text column that the engine could not hand out.
pub fn text_column_error() -> (e: Error)
    ensures
        e@ == message_error(text_column_text()),
{
    proof {
        reveal_strlit("cannot read a text column");
    }
    message(String::from_str("cannot read a text column"))
}

/// Turn the engine's last report on a connection (its error code and
/// message) into an error, if it reports one.
pub fn last(code: i32, message: Option<String>) -> (r: Option<Error>)
    ensures
        match r {
            Some(e) => last_spec(code, match message { Some(m) => Some(m@), None => None }) == Some(e@),
            None => last_spec(code, match message { Some(m) => Some(m@), None => None }) is None,
        },
{
    if code == SQLITE_OK {
        return None;
    }
    match message {
        Some(m) => Some(Error { code: Some(code as isize), message: Some(m) }),
        None => None,
    }
}

/// The error for a failing status code: the connection's last error when
/// there is one, else the bare code.
pub fn engine_error(code: i32, last: Option<Error>) -> (e: Error)
    ensures
        e@ == engine_error_spec(code, last),
{
    match last {
        Some(e) => e,
        None => Error { code: Some(code as isize), message: None },
    }
}

/// Check the status code of an engine call: success, or the error it stands for.
pub fn check(code: i32, last: Option<Error>) -> (r: Result<()>)
    ensures
        code == SQLITE_OK <==> r is Ok,
        r matches Err(e) ==> e@ == engine_error_spec(code, last),
{
    if code == SQLITE_OK {
        Ok(())
    } else {
        Err(engine_error(code, last))
    }
}

} // verus!
