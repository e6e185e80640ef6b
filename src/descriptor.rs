use vstd::prelude::*;

use crate::error::{check, engine_error_spec, Error, ErrorView, Result, SQLITE_OK};

verus! {

/// What a host that runs the engine answers when it opens a database: the
/// status code and the handle of the connection.
#[derive(Clone, Debug, Default)]
pub struct DBOpenDescriptor {
    pub ret_code: i32,
    pub db_handle: u32,
}

/// What a host that runs the engine answers when it compiles a statement:
/// the status code, the handle of the statement, and where the unused
/// rest of the text begins.
#[derive(Clone, Debug, Default)]
pub struct DBPrepareDescriptor {
    pub ret_code: i32,
    pub stmt_handle: u32,
    pub tail: u32,
}

/// What a host that runs the engine answers when it executes text: the
/// status code and the engine's message, empty when there is none.
#[derive(Clone, Debug, Default)]
pub struct DBExecDescriptor {
    pub ret_code: i32,
    pub err_msg: String,
}

impl DBOpenDescriptor {
    /// Return the handle of the connection, or the error that the status
    /// code stands for.
    pub fn handle(&self, last: Option<Error>) -> (r: Result<u32>)
        ensures
            self.ret_code == SQLITE_OK <==> r is Ok,
            r matches Ok(h) ==> h == self.db_handle,
            r matches Err(e) ==> e@ == engine_error_spec(self.ret_code, last),
    {
        check(self.ret_code, last)?;
        Ok(self.db_handle)
    }
}

impl DBPrepareDescriptor {
    /// Return the handle of the statement, or the error that the status
    /// code stands for.
    pub fn handle(&self, last: Option<Error>) -> (r: Result<u32>)
        ensures
            self.ret_code == SQLITE_OK <==> r is Ok,
            r matches Ok(h) ==> h == self.stmt_handle,
            r matches Err(e) ==> e@ == engine_error_spec(self.ret_code, last),
    {
        check(self.ret_code, last)?;
        Ok(self.stmt_handle)
    }
}

/// The error of a failed execution: its code, and the engine's message
/// where there is one.
pub open spec fn exec_error_spec(code: i32, message: Seq<char>) -> ErrorView {
    (Some(code as isize), if message.len() == 0 { None } else { Some(message) })
}

impl DBExecDescriptor {
    /// Return success, or the error that the status code and the message
    /// stand for.
    pub fn result(&self) -> (r: Result<()>)
        ensures
            self.ret_code == SQLITE_OK <==> r is Ok,
            r matches Err(e) ==> e@ == exec_error_spec(self.ret_code, self.err_msg@),
    {
        if self.ret_code == SQLITE_OK {
            return Ok(());
        }
        let message = if self.err_msg.as_str().is_empty() {
            None
        } else {
            Some(self.err_msg.clone())
        };
        Err(Error { code: Some(self.ret_code as isize), message })
    }
}

} // verus!
