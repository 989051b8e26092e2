use vstd::prelude::*;

verus! {

/// An error with the text shown to the user and the process exit code.
#[derive(Debug)]
pub struct MadmError {
    message: String,
    code: i32,
}

impl MadmError {
    /// The text of the error.
    pub closed spec fn text(&self) -> Seq<char> {
        self.message@
    }

    /// The exit code of the error.
    pub closed spec fn exit_code(&self) -> i32 {
        self.code
    }

    /// An error with the usual failure code 1.
    pub fn new(message: String) -> (res: Self)
        ensures
            res.text() == message@,
            res.exit_code() == 1,
    {
        MadmError { message, code: 1 }
    }

    /// An error with an explicit exit code.
    pub fn with_code(message: String, code: i32) -> (res: Self)
        ensures
            res.text() == message@,
            res.exit_code() == code,
    {
        MadmError { message, code }
    }

    /// An error for a failed input/output action: `"<action>: <detail>"`.
    pub fn io(action: &str, detail: &str) -> (res: Self)
        ensures
            res.text() == action@ + ": "@ + detail@,
            res.exit_code() == 1,
    {
        let mut message = String::from_str(action);
        message.append(": ");
        message.append(detail);
        MadmError { message, code: 1 }
    }

    pub fn message(&self) -> (res: &str)
        ensures
            res@ == self.text(),
    {
        self.message.as_str()
    }

    pub fn code(&self) -> (res: i32)
        ensures
            res == self.exit_code(),
    {
        self.code
    }
}

/// The result is the error with this message and exit code 1.
pub open spec fn fails_with<T>(res: Result<T, MadmError>, message: Seq<char>) -> bool {
    res matches Err(e) && e.text() == message && e.exit_code() == 1
}

} // verus!
