//! Errors of routing and decoding, and errors of schema construction.

use vstd::prelude::*;
use vstd::string::*;

verus! {

/// Why an interaction could not be routed to a handler.
#[derive(Clone, Copy, Debug, PartialEq, Eq, Structural)]
pub enum Error {
    /// The interaction does not address a node of the tree: unknown name,
    /// not exactly one selected branch, or a branch of the wrong shape.
    UnrecognizedCommand,
    /// A required option has no value in the interaction.
    MissingOption,
    /// The value's kind is not one the option's type accepts.
    BadOptionType,
    /// The value's kind is accepted, but the value itself is not: an integer
    /// out of range, a value that is none of the choices, a user without
    /// member data.
    BadOptionValue,
}

impl Error {
    /// A short description of the error.
    pub fn message(&self) -> (text: &'static str)
        ensures
            text@ == match *self {
                Error::UnrecognizedCommand => "unrecognized command"@,
                Error::MissingOption => "missing option"@,
                Error::BadOptionType => "bad option type"@,
                Error::BadOptionValue => "bad option value"@,
            },
    {
        match self {
            Error::UnrecognizedCommand => "unrecognized command",
            Error::MissingOption => "missing option",
            Error::BadOptionType => "bad option type",
            Error::BadOptionValue => "bad option value",
        }
    }
}

/// Why a declaration is not a usable schema.  The variants are listed in the
/// order in which violations are reported when a declaration has several.
#[derive(Clone, Copy, Debug, PartialEq, Eq, Structural)]
pub enum SchemaError {
    /// A variant or an option has an empty description.
    EmptyDescription,
    /// A locale tag of a localized name or description is malformed.
    MalformedLocale,
    /// Two localized texts of one list stand under the same locale, once
    /// the tags are written with hyphens.
    DuplicateLocale,
    /// Two siblings (variants of one enumeration, or options of one
    /// structure) share a name.
    DuplicateName,
    /// An option is restricted to a set of choices that is empty.
    EmptyChoices,
    /// An option is flagged `default` although its type has no fallback value.
    IllegalDefault,
    /// A choice variant declares no value of the kind its set is made of.
    MissingChoiceValue,
}

impl SchemaError {
    /// A short description of the error.
    pub fn message(&self) -> (text: &'static str)
        ensures
            text@ == match *self {
                SchemaError::EmptyDescription => "empty description"@,
                SchemaError::MalformedLocale => "malformed locale tag"@,
                SchemaError::DuplicateLocale => "duplicate locale tag"@,
                SchemaError::DuplicateName => "duplicate name"@,
                SchemaError::EmptyChoices => "empty choice set"@,
                SchemaError::IllegalDefault => "default flag on a type without a fallback"@,
                SchemaError::MissingChoiceValue => "provide a value through an attribute or discriminant"@,
            },
    {
        match self {
            SchemaError::EmptyDescription => "empty description",
            SchemaError::MalformedLocale => "malformed locale tag",
            SchemaError::DuplicateLocale => "duplicate locale tag",
            SchemaError::DuplicateName => "duplicate name",
            SchemaError::EmptyChoices => "empty choice set",
            SchemaError::IllegalDefault => "default flag on a type without a fallback",
            SchemaError::MissingChoiceValue => "provide a value through an attribute or discriminant",
        }
    }
}

} // verus!
