//! Why a configuration could not be loaded or built.

use vstd::prelude::*;

verus! {

/// How a document breaks the schema.
#[derive(Clone, Copy, Debug, PartialEq, Eq, Structural)]
pub enum SchemaFault {
    /// A value is not of the type that its place asks for, or out of its
    /// range.
    InvalidType,
    /// An object lacks a field that it must have.
    MissingField,
    /// An object has a field that its schema does not know, or has one
    /// twice.
    UnknownField,
    /// An interpreter is of a kind that is not known.
    UnknownKind,
}

/// Where and how a document breaks the schema.
#[derive(Clone, Debug, PartialEq, Eq)]
pub struct SchemaError {
    /// How the schema is broken.
    pub fault: SchemaFault,
    /// The key of the field at fault: the field that is missing, that
    /// holds a value of the wrong type, or that the schema does not know.
    /// Empty where the document itself is no object.
    pub field: String,
}

/// A schema error as a plain value.
pub struct SchemaErrorView {
    /// How the schema is broken.
    pub fault: SchemaFault,
    /// The key of the field at fault.
    pub field: Seq<char>,
}

impl View for SchemaError {
    type V = SchemaErrorView;

    open spec fn view(&self) -> SchemaErrorView {
        SchemaErrorView { fault: self.fault, field: self.field@ }
    }
}

/// What was wrong with a configuration document.
#[derive(Debug)]
pub enum SyntaxError {
    /// The text is not a document of its format; the parser's message.
    Malformed(String),
    /// The document is well formed but breaks the schema.
    Schema(SchemaError),
}

/// Describes a configuration error.
#[derive(Debug)]
pub enum Error {
    /// A JSON syntax error.
    Json(SyntaxError),
    /// A YAML syntax error.
    Yaml(SyntaxError),
    /// Indicates a misconfigured client; the connector's message.
    Connector(String),
    /// Indicates a misconfigured interpreter; the resolver's message.
    Interpreter(String),
    /// Indicates a misconfigured server; the server's message.
    Server(String),
}

} // verus!
