use vstd::prelude::*;

verus! {

/// An error that is only a message.
#[derive(Debug)]
pub struct Error {
    pub msg: String,
}

impl Error {
    /// The message is a text by which `e` is displayed.
    pub open spec fn shows<E: core::fmt::Display>(self, e: E) -> bool {
        exists|text: String|
            self.msg@ == text@ && #[trigger] vstd::string::to_string_from_display_ensures::<E>(
                &e,
                text,
            )
    }

    /// The error with the text by which `e` is displayed.
    pub fn new<E: core::fmt::Display>(e: E) -> (error: Error)
        ensures
            vstd::string::to_string_from_display_ensures::<E>(&e, error.msg),
            error.shows(e),
    {
        Error::from_message(e.to_string())
    }

    /// The error that wraps another one of this type, which is displayed by its message.
    pub fn wrap(error: &Error) -> (wrapped: Error)
        ensures
            wrapped.msg@ == error.msg@,
    {
        Error::from_message(error.to_string())
    }

    /// The error with that message.
    pub fn from_message(msg: String) -> (error: Error)
        ensures
            error.msg == msg,
    {
        Error { msg }
    }

    /// The text by which the error is displayed: its message.
    pub fn to_string(&self) -> (text: String)
        ensures
            text@ == self.msg@,
    {
        self.msg.clone()
    }
}

} // verus!
