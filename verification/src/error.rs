use vstd::prelude::*;
use vstd::string::*;

verus! {

/// This is returned on errors reading the disc or setting the TOC.
#[derive(Debug)]
pub struct DiscError {
    reason: String,
}

impl View for DiscError {
    type V = Seq<char>;

    /// The reason of the error.
    closed spec fn view(&self) -> Seq<char> {
        self.reason@
    }
}

impl DiscError {
    /// An error for the given reason (libdiscid's error message).
    pub fn new(reason: String) -> (r: DiscError)
        ensures
            r@ == reason@,
    {
        DiscError { reason }
    }

    /// The error of a failed allocation of libdiscid's handle.
    pub fn allocation_failed() -> (r: DiscError)
        ensures
            r@ == "discid_new() failed, could not allocate memory"@,
    {
        DiscError { reason: String::from_str("discid_new() failed, could not allocate memory") }
    }

    /// The reason of the error.
    pub fn reason(&self) -> (r: &str)
        ensures
            r@ == self@,
    {
        self.reason.as_str()
    }

    /// The error as a message: `DiscError: ` and the reason.
    pub fn to_string(&self) -> (r: String)
        ensures
            r@ == "DiscError: "@ + self@,
    {
        let mut s = String::from_str("DiscError: ");
        s.append(self.reason.as_str());
        s
    }
}

/// What follows a libdiscid call that reports success as a status
/// (`discid_read_sparse`, `discid_put`): on failure the error message is
/// read and returned, on success the disc is read.
#[derive(Clone, Copy, PartialEq, Eq, Structural, Debug)]
pub enum CallOutcome {
    /// The call failed: the result is the error with libdiscid's message.
    Failed,
    /// The call succeeded: the result is the disc.
    Succeeded,
}

impl CallOutcome {
    /// The outcome of a call that returned `status`: failure exactly where
    /// the status is 0.
    pub fn of_status(status: i32) -> (r: CallOutcome)
        ensures
            r == (if status == 0 {
                CallOutcome::Failed
            } else {
                CallOutcome::Succeeded
            }),
    {
        if status == 0 {
            CallOutcome::Failed
        } else {
            CallOutcome::Succeeded
        }
    }
}

} // verus!
