use vstd::prelude::*;
use crate::error::{Error, ErrorDisplay};

verus! {

/// The most generic error type, for call sites that do not warrant a bespoke
/// error type: it holds an optional human-readable message and nothing else,
/// and is always a root cause.
pub struct GenericError {
    message: Option<String>,
}

impl View for GenericError {
    type V = Option<Seq<char>>;

    /// The message this error was made with, if any.
    closed spec fn view(&self) -> Option<Seq<char>> {
        match self.message {
            Some(m) => Some(m@),
            None => None,
        }
    }
}

impl GenericError {
    /// Make a [`GenericError`] without a message. It renders as
    /// `"Generic Error"`.
    pub fn default() -> (r: GenericError)
        ensures
            r@ is None,
            r.spec_render() == "Generic Error"@,
            r.spec_debug_render() == "Generic Error"@,
    {
        GenericError { message: None }
    }

    /// Make a [`GenericError`] holding its own copy of the given message.
    /// It renders as `"Error: "` followed by the message.
    pub fn with_message(message: &str) -> (r: GenericError)
        ensures
            r@ == Some(message@),
            r.spec_render() == "Error: "@ + message@,
            r.spec_debug_render() == "Error: "@ + message@,
    {
        GenericError { message: Some(String::from_str(message)) }
    }
}

impl ErrorDisplay for GenericError {
    open spec fn spec_render(&self) -> Seq<char> {
        match self@ {
            Some(m) => "Error: "@ + m,
            None => "Generic Error"@,
        }
    }

    /// The debug text equals the human-readable text.
    open spec fn spec_debug_render(&self) -> Seq<char> {
        self.spec_render()
    }

    fn render(&self) -> (r: String) {
        match &self.message {
            Some(m) => {
                proof {
                    reveal_strlit("Error: ");
                }
                String::from_str("Error: ").concat(m.as_str())
            },
            None => {
                proof {
                    reveal_strlit("Generic Error");
                }
                String::from_str("Generic Error")
            },
        }
    }

    fn debug_render(&self) -> (r: String) {
        self.render()
    }
}

impl Error for GenericError {
    type Cause = GenericError;

    /// A [`GenericError`] is always a root cause: it never reports a source.
    fn source(&self) -> (r: Option<&GenericError>)
        ensures
            r is None,
    {
        None
    }
}

} // verus!
