//! The error of the Perfetto tracing layer.
use vstd::prelude::*;

verus! {

/// An error: a message and, when there is one, the text of the error that caused it.
#[derive(Debug)]
pub struct TracingPerfettoError {
    message: String,
    source: Option<String>,
}

impl TracingPerfettoError {
    /// The message.
    pub closed spec fn spec_message(&self) -> Seq<char> {
        self.message@
    }

    /// The text of the causing error, if any.
    pub closed spec fn spec_source(&self) -> Option<Seq<char>> {
        match self.source {
            Some(s) => Some(s@),
            None => None,
        }
    }

    /// An error with `message`, caused by an error whose text is `source`.
    pub fn new(message: &str, source: String) -> (res: Self)
        ensures
            res.spec_message() == message@,
            res.spec_source() == Some(source@),
    {
        Self { message: message.to_owned(), source: Some(source) }
    }

    /// The text of the causing error, if any.
    pub fn source(&self) -> (res: Option<&String>)
        ensures
            match res {
                Some(s) => self.spec_source() == Some(s@),
                None => self.spec_source() is None,
            },
    {
        self.source.as_ref()
    }

    /// How the error reads: the message, then `": "` and the cause's text when there is a cause.
    pub fn to_display_string(&self) -> (res: String)
        ensures
            res@ == match self.spec_source() {
                Some(s) => self.spec_message() + ": "@ + s,
                None => self.spec_message(),
            },
    {
        let mut out = self.message.clone();
        if let Some(source) = &self.source {
            out.append(": ");
            out.append(source.as_str());
        }
        out
    }
}

} // verus!
