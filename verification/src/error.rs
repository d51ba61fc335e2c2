//! Faults of the binding.
//!
//! [`JsonError`] says why a JSON document could not be decoded into, or
//! encoded from, a typed structure; [`Error`] is the request builders' fault
//! type; [`ClientError`] wraps every fault a caller driving the binding can
//! meet, including the transport's.

use vstd::prelude::*;

verus! {

/// Why a JSON document was rejected by a decoder, or a value by an encoder.
#[derive(Debug, PartialEq)]
pub enum JsonError {
    /// The text is not a JSON document that this library models.
    Syntax,
    /// A required field is absent.
    MissingField(String),
    /// A field is present but does not have the required shape.
    WrongType(String),
    /// The `plugin_name` names no database backend this library knows.
    UnsupportedPlugin(String),
    /// A certificate bundle with this many parts has no reading.
    InvalidBundleLength(usize),
    /// A certificate bundle with no parts at all.
    EmptyBundle,
    /// A credential object whose certificate fields form none of the three
    /// bundle shapes.
    InvalidCombination,
    /// The value has no JSON form.
    Unserializable,
}

/// The mathematical value of a [`JsonError`].
pub enum JsonErrorV {
    Syntax,
    MissingField(Seq<char>),
    WrongType(Seq<char>),
    UnsupportedPlugin(Seq<char>),
    InvalidBundleLength(usize),
    EmptyBundle,
    InvalidCombination,
    Unserializable,
}

impl View for JsonError {
    type V = JsonErrorV;

    open spec fn view(&self) -> JsonErrorV {
        match self {
            JsonError::Syntax => JsonErrorV::Syntax,
            JsonError::MissingField(f) => JsonErrorV::MissingField(f@),
            JsonError::WrongType(f) => JsonErrorV::WrongType(f@),
            JsonError::UnsupportedPlugin(p) => JsonErrorV::UnsupportedPlugin(p@),
            JsonError::InvalidBundleLength(n) => JsonErrorV::InvalidBundleLength(*n),
            JsonError::EmptyBundle => JsonErrorV::EmptyBundle,
            JsonError::InvalidCombination => JsonErrorV::InvalidCombination,
            JsonError::Unserializable => JsonErrorV::Unserializable,
        }
    }
}

/// A fault met while building a request.
#[derive(Debug, PartialEq)]
pub enum Error {
    /// The request line could not be formed.
    HttpError(String),
    /// The body could not be formed from, or read into, a JSON document.
    JsonError(JsonError),
}

/// The mathematical value of an [`Error`].
pub enum ErrorV {
    HttpError(Seq<char>),
    JsonError(JsonErrorV),
}

impl View for Error {
    type V = ErrorV;

    open spec fn view(&self) -> ErrorV {
        match self {
            Error::HttpError(m) => ErrorV::HttpError(m@),
            Error::JsonError(e) => ErrorV::JsonError(e@),
        }
    }
}

/// A fault met while driving an operation end to end.
#[derive(Debug, PartialEq)]
pub enum ClientError {
    /// The request could not be built.
    ProtoError(Error),
    /// The transport failed; the message is the transport's own.
    HyperError(String),
    /// The response body could not be decoded.
    SerdeError(JsonError),
}

/// The mathematical value of a [`ClientError`].
pub enum ClientErrorV {
    ProtoError(ErrorV),
    HyperError(Seq<char>),
    SerdeError(JsonErrorV),
}

impl View for ClientError {
    type V = ClientErrorV;

    open spec fn view(&self) -> ClientErrorV {
        match self {
            ClientError::ProtoError(e) => ClientErrorV::ProtoError(e@),
            ClientError::HyperError(m) => ClientErrorV::HyperError(m@),
            ClientError::SerdeError(e) => ClientErrorV::SerdeError(e@),
        }
    }
}

} // verus!
