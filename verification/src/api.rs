use vstd::prelude::*;
use vstd::string::StringExecFns;
use crate::text::FromText;

verus! {

/// The status that a failed request is answered with.
pub const INTERNAL_SERVER_ERROR: u16 = 500;

/// A failure while a request was served, with the text that describes it.
pub struct AppError(pub String);

/// A text that was sent where a value was wanted, and that spells none.
#[derive(Debug, Clone, Copy, PartialEq, Eq, Structural)]
pub enum ParseError {
    /// The text is not empty and spells no value of the type.
    Unreadable,
}

impl AppError {
    /// The body of the answer: a fixed lead, then the description of the failure.
    pub open spec fn body_text(&self) -> Seq<char> {
        "Something went wrong: "@ + self.0@
    }

    /// The status of the answer.
    pub fn status(&self) -> (code: u16)
        ensures
            code == 500,
    {
        INTERNAL_SERVER_ERROR
    }

    /// The body of the answer.
    pub fn body(&self) -> (text: String)
        ensures
            text@ == self.body_text(),
    {
        String::from_str("Something went wrong: ").concat(self.0.as_str())
    }
}

/// Reads an optional field of a form: a field that is missing or empty holds nothing; any
/// other must spell a value of the type.
pub fn empty_string_as_none<T: FromText>(field: Option<&str>) -> (r: Result<Option<T>, ParseError>)
    ensures
        match field {
            None => r is Ok && r->Ok_0 is None,
            Some(text) => if text@.len() == 0 {
                r is Ok && r->Ok_0 is None
            } else if T::readable(text@) {
                r is Ok && r->Ok_0 is Some && T::reads_as(text@, r->Ok_0->Some_0)
            } else {
                r is Err && r->Err_0 == ParseError::Unreadable
            },
        },
{
    match field {
        None => Ok(None),
        Some(text) => if text.is_empty() {
            Ok(None)
        } else {
            match T::from_text(text) {
                Some(value) => Ok(Some(value)),
                None => Err(ParseError::Unreadable),
            }
        },
    }
}

} // verus!
