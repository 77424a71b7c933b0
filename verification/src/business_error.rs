//! The typed failure that the managed runtime catches.

use vstd::prelude::*;
use vstd::std_specs::cmp::PartialEqSpecImpl;

verus! {

/// A diagnostic as a mathematical value: an error code and the text that
/// came with it.
pub struct Diagnostic {
    pub code: int,
    pub message: Seq<char>,
}

/// A failure of a native call, carrying the native code and message.
#[derive(Debug)]
pub struct BusinessError {
    pub code: i32,
    pub message: String,
}

impl View for BusinessError {
    type V = Diagnostic;

    open spec fn view(&self) -> Diagnostic {
        Diagnostic { code: self.code as int, message: self.message@ }
    }
}

impl DeepView for BusinessError {
    type V = Diagnostic;

    open spec fn deep_view(&self) -> Diagnostic {
        self@
    }
}

impl BusinessError {
    /// A failure with the given code and message.
    pub fn new(code: i32, message: String) -> (error: BusinessError)
        ensures
            error == (BusinessError { code, message }),
    {
        BusinessError { code, message }
    }

    /// The error code.
    pub fn code(&self) -> (code: i32)
        ensures
            code == self.code,
    {
        self.code
    }

    /// The text that describes the failure.
    pub fn message(&self) -> (message: &str)
        ensures
            message@ == self.message@,
    {
        self.message.as_str()
    }
}

impl PartialEq for BusinessError {
    fn eq(&self, other: &Self) -> (same: bool) {
        self.code == other.code && self.message == other.message
    }
}

impl PartialEqSpecImpl for BusinessError {
    open spec fn obeys_eq_spec() -> bool {
        true
    }

    open spec fn eq_spec(&self, other: &Self) -> bool {
        self@ == other@
    }
}

} // verus!
