use vstd::prelude::*;

verus! {

/// The failure cases of the library, one per component boundary.
#[derive(Debug, Clone, PartialEq, Eq)]
pub enum AppError {
    /// A socket read, write, bind, accept or connect failed; carries the
    /// underlying error text.
    Io(String),
    /// The bounded connection-retry budget was exhausted; carries the last
    /// underlying error text.
    Connection(String),
    /// A received key blob had the wrong length or failed structural
    /// validation.
    KeyFormat(String),
    /// A re-encryption pipeline step rejected its inputs.
    Crypto(String),
    /// Binary encoding or decoding did not match the wire schema.
    Encoding(String),
}

impl AppError {
    /// The error text carried by the variant.
    pub fn text(&self) -> (r: &String)
        ensures
            r@ == self.text_spec(),
    {
        match self {
            AppError::Io(s) => s,
            AppError::Connection(s) => s,
            AppError::KeyFormat(s) => s,
            AppError::Crypto(s) => s,
            AppError::Encoding(s) => s,
        }
    }

    /// The error text as a sequence of characters.
    pub open spec fn text_spec(&self) -> Seq<char> {
        match self {
            AppError::Io(s) => s@,
            AppError::Connection(s) => s@,
            AppError::KeyFormat(s) => s@,
            AppError::Crypto(s) => s@,
            AppError::Encoding(s) => s@,
        }
    }
}

} // verus!
