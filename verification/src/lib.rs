//! Schema-driven routing of hierarchical slash commands.
//!
//! A command tree is declared once as plain values: commands, sub-commands and
//! sub-sub-commands, each either an enumeration of named variants (a group) or
//! a structure of typed options (a leaf).  From that declaration the library
//! produces the registration descriptor the chat platform expects, and routes
//! an incoming interaction down the same hierarchy to one handler, decoding
//! every option into a typed argument.

use vstd::prelude::*;
use crate::choices::{all_valued, holds_declared, ChoiceKind, Choices};
use crate::command::Command;
use crate::command_tree::CommandTree;
use crate::subcommand::SubCommand;
use crate::subsubcommand::SubSubCommand;

pub mod builder;
pub mod choices;
pub mod command;
pub mod command_tree;
pub mod common;
pub mod error;
pub mod interaction;
pub mod locale;
pub mod number;
pub mod options;
pub mod router;
pub mod search;
pub mod slash;
pub mod subcommand;
pub mod subsubcommand;

pub use crate::error::{Error, SchemaError};

verus! {

/// Accepts the declaration of a tree if it breaks no rule, and hands it
/// back; else reports the first rule it breaks.
pub fn derive_command_tree(input: CommandTree) -> (r: Result<CommandTree, SchemaError>)
    ensures
        match r {
            Ok(tree) => tree == input && input.well_formed(),
            Err(e) => input.violation() == Some(e),
        },
{
    command_tree::derive(input)
}

/// Accepts the declaration of a command if it breaks no rule, and hands it
/// back; else reports the first rule it breaks.
pub fn derive_command(input: Command) -> (r: Result<Command, SchemaError>)
    ensures
        match r {
            Ok(node) => node == input && input.well_formed(),
            Err(e) => input.violation() == Some(e),
        },
{
    command::derive(input)
}

/// Accepts the declaration of a node below a command if it breaks no rule,
/// and hands it back; else reports the first rule it breaks.
pub fn derive_subcommand(input: SubCommand) -> (r: Result<SubCommand, SchemaError>)
    ensures
        match r {
            Ok(node) => node == input && input.well_formed(),
            Err(e) => input.violation() == Some(e),
        },
{
    subcommand::derive(input)
}

/// Accepts the declaration of a sub-command of a group if it breaks no rule,
/// and hands it back; else reports the first rule it breaks.
pub fn derive_subsubcommand(input: SubSubCommand) -> (r: Result<SubSubCommand, SchemaError>)
    ensures
        match r {
            Ok(node) => node == input && input.well_formed(),
            Err(e) => input.violation() == Some(e),
        },
{
    subsubcommand::derive(input)
}

/// Builds a set of text choices from the declared variants.  Fails with
/// `MissingChoiceValue` if, and only if, some variant declares no text.
pub fn derive_string_choice(input: &Vec<choices::VariantOpts>) -> (r: Result<Choices, SchemaError>)
    ensures
        r is Ok <==> all_valued(input@, ChoiceKind::String),
        match r {
            Ok(set) => set.kind == ChoiceKind::String && set.default is None && set.well_typed()
                && holds_declared(set, input@),
            Err(e) => e == SchemaError::MissingChoiceValue,
        },
{
    choices::derive(input, ChoiceKind::String)
}

/// Builds a set of integer choices from the declared variants.  Fails with
/// `MissingChoiceValue` if, and only if, some variant declares neither an
/// integer nor a discriminant.
pub fn derive_int_choice(input: &Vec<choices::VariantOpts>) -> (r: Result<Choices, SchemaError>)
    ensures
        r is Ok <==> all_valued(input@, ChoiceKind::Int),
        match r {
            Ok(set) => set.kind == ChoiceKind::Int && set.default is None && set.well_typed()
                && holds_declared(set, input@),
            Err(e) => e == SchemaError::MissingChoiceValue,
        },
{
    choices::derive(input, ChoiceKind::Int)
}

/// Builds a set of number choices from the declared variants.  Fails with
/// `MissingChoiceValue` if, and only if, some variant declares no number.
pub fn derive_float_choice(input: &Vec<choices::VariantOpts>) -> (r: Result<Choices, SchemaError>)
    ensures
        r is Ok <==> all_valued(input@, ChoiceKind::Float),
        match r {
            Ok(set) => set.kind == ChoiceKind::Float && set.default is None && set.well_typed()
                && holds_declared(set, input@),
            Err(e) => e == SchemaError::MissingChoiceValue,
        },
{
    choices::derive(input, ChoiceKind::Float)
}

} // verus!
