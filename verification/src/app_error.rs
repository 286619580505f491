//! The error the application setup reports: a plain message.

use vstd::prelude::*;

verus! {

pub struct AppError {
    pub msg: String,
}

impl AppError {
    pub fn new(msg: String) -> (r: Self)
        ensures
            r.msg@ == msg@,
    {
        AppError { msg }
    }

    /// The message text, in place of a display implementation.
    pub fn message(&self) -> (r: &String)
        ensures
            r@ == self.msg@,
    {
        &self.msg
    }
}

} // verus!
