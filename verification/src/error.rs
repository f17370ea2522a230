//! The errors of a conversion, and their mathematical counterpart.

use vstd::prelude::*;

verus! {

/// Why a conversion could not be carried out.
#[derive(Debug, Clone, PartialEq)]
pub enum Error {
    /// The source encoding assigns no character to a byte of the input, or the
    /// target of a table has no byte for it.
    UnmappableSource {
        /// The offending byte.
        byte: u8,
        /// Its index in the input.
        position: usize,
    },
    /// The target encoding has no byte for a character of the input.
    UnmappableTarget {
        /// The offending character.
        character: char,
        /// The byte offset at which it starts in the UTF-8 text.
        position: usize,
    },
    /// The input is malformed for its declared encoding.
    InvalidInput(String),
    /// The engine cannot convert between the two encodings.
    UnsupportedConversion {
        /// Name of the source encoding.
        from: &'static str,
        /// Name of the target encoding.
        to: &'static str,
    },
}

/// An [`Error`] as a mathematical value.
pub ghost enum ErrorView {
    UnmappableSource { byte: u8, position: int },
    UnmappableTarget { character: char, position: int },
    InvalidInput(Seq<char>),
    UnsupportedConversion { from: Seq<char>, to: Seq<char> },
}

impl View for Error {
    type V = ErrorView;

    open spec fn view(&self) -> ErrorView {
        match *self {
            Error::UnmappableSource { byte, position } => ErrorView::UnmappableSource {
                byte,
                position: position as int,
            },
            Error::UnmappableTarget { character, position } => ErrorView::UnmappableTarget {
                character,
                position: position as int,
            },
            Error::InvalidInput(message) => ErrorView::InvalidInput(message@),
            Error::UnsupportedConversion { from, to } => ErrorView::UnsupportedConversion {
                from: from@,
                to: to@,
            },
        }
    }
}

/// The result of a conversion as a mathematical value: the bytes written, or
/// the error.
pub open spec fn outcome(r: Result<Vec<u8>, Error>) -> Result<Seq<u8>, ErrorView> {
    match r {
        Ok(bytes) => Ok(bytes@),
        Err(e) => Err(e@),
    }
}

/// The outcome of a step that writes nothing of its own.
pub open spec fn status(r: Result<(), Error>) -> Result<(), ErrorView> {
    match r {
        Ok(()) => Ok(()),
        Err(e) => Err(e@),
    }
}

/// The message of the error for input that is not well-formed UTF-8.
pub open spec fn invalid_utf8() -> ErrorView {
    ErrorView::InvalidInput("Invalid UTF-8 sequence"@)
}

/// The message of the error for input that is not well-formed UTF-16.
pub open spec fn invalid_utf16() -> ErrorView {
    ErrorView::InvalidInput("Invalid UTF-16 sequence"@)
}

/// The message of the error for UTF-16 input with an odd number of bytes.
pub open spec fn odd_utf16() -> ErrorView {
    ErrorView::InvalidInput("UTF-16 data must have even number of bytes"@)
}

impl Error {
    /// The error for input that is not well-formed UTF-8.
    pub fn invalid_utf8() -> (e: Error)
        ensures
            e@ == invalid_utf8(),
    {
        Error::InvalidInput("Invalid UTF-8 sequence".to_owned())
    }

    /// The error for input that is not well-formed UTF-16.
    pub fn invalid_utf16() -> (e: Error)
        ensures
            e@ == invalid_utf16(),
    {
        Error::InvalidInput("Invalid UTF-16 sequence".to_owned())
    }

    /// The error for UTF-16 input with an odd number of bytes.
    pub fn odd_utf16() -> (e: Error)
        ensures
            e@ == odd_utf16(),
    {
        Error::InvalidInput("UTF-16 data must have even number of bytes".to_owned())
    }
}

} // verus!
