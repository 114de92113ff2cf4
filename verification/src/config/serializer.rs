//! The errors of reading the configuration.

use vstd::prelude::*;

verus! {

/// Describes the kind of error for the serializer and deserializer.
#[derive(Debug, Clone, Copy, PartialEq, Eq, Structural)]
pub enum SerializerErrorKind {
    /// The configuration could not be read.
    Io,
    /// The configuration is not written as it should be.
    Syntax,
}

/// The text that names a kind of error.
pub open spec fn kind_text(kind: SerializerErrorKind) -> Seq<char> {
    match kind {
        SerializerErrorKind::Io => "IO error"@,
        SerializerErrorKind::Syntax => "Syntax error"@,
    }
}

impl SerializerErrorKind {
    /// The text that names the kind of error.
    pub fn to_string(&self) -> (text: String)
        ensures
            text@ == kind_text(*self),
    {
        match self {
            SerializerErrorKind::Io => String::from_str("IO error"),
            SerializerErrorKind::Syntax => String::from_str("Syntax error"),
        }
    }
}

/// Contains the error for the serializer and deserializer.
#[derive(Debug)]
pub struct SerializerError {
    kind: SerializerErrorKind,
    msg: String,
}

impl SerializerError {
    /// The kind of the error.
    pub closed spec fn spec_kind(&self) -> SerializerErrorKind {
        self.kind
    }

    /// The message of the error.
    pub closed spec fn spec_msg(&self) -> Seq<char> {
        self.msg@
    }

    /// Instantiates a new `SerializerError` with description message.
    pub fn new(kind: SerializerErrorKind, msg: String) -> (error: SerializerError)
        ensures
            error.spec_kind() == kind,
            error.spec_msg() == msg@,
    {
        SerializerError { kind, msg }
    }

    /// The kind of the error.
    pub fn kind(&self) -> (kind: SerializerErrorKind)
        ensures
            kind == self.spec_kind(),
    {
        self.kind
    }

    /// The text of the error: its kind, then its message in brackets.
    pub fn to_string(&self) -> (text: String)
        ensures
            text@ == kind_text(self.spec_kind()) + " ("@ + self.spec_msg() + ")"@,
    {
        let mut text = self.kind.to_string();
        text.append(" (");
        text.append(self.msg.as_str());
        text.append(")");
        text
    }
}

} // verus!
