//! The lowest level of the hierarchy: a sub-command of a group.  It is always
//! a structure of options.

use vstd::prelude::*;
use crate::builder::{CreateCommandOption, CreateCommandOptionView};
use crate::common::{
    dispatch_struct, fields_break, fields_violate, first_violation,
    generate_sub_or_subsub_create_from_struct, struct_descriptor, struct_routed, FieldOpts,
};
use crate::error::{Error, SchemaError};
use crate::interaction::ResolvedOption;
use crate::slash::{Invocation, InvocationView};

verus! {

/// A sub-command of a group: its options, and the handler it is routed to.
#[derive(Debug, PartialEq, Eq)]
pub struct SubSubCommand {
    pub fields: Vec<FieldOpts>,
    pub handler: u64,
}

/// Routes the entries below a sub-command of a group to its handler.
pub fn generate_dispatch(fields: &Vec<FieldOpts>, handler: u64, opts: &Vec<ResolvedOption>) -> (r:
    Result<Invocation, Error>)
    ensures
        match r {
            Ok(invocation) => struct_routed(fields@, handler, opts@) == Ok::<InvocationView, Error>(
                invocation@,
            ),
            Err(e) => struct_routed(fields@, handler, opts@) == Err::<InvocationView, Error>(e),
        },
{
    dispatch_struct(fields, handler, opts)
}

/// The descriptor of a sub-command of a group.
pub fn generate_create(fields: &Vec<FieldOpts>, name: String, desc: String) -> (r:
    CreateCommandOption)
    ensures
        r@ == struct_descriptor(fields@, name@, desc@),
        r@.hyphen_only(),
{
    generate_sub_or_subsub_create_from_struct(fields, name, desc)
}

impl SubSubCommand {
    /// The descriptor of the sub-command under the given name and
    /// description.
    pub open spec fn created(self, name: Seq<char>, desc: Seq<char>) -> CreateCommandOptionView {
        struct_descriptor(self.fields@, name, desc)
    }

    /// Where the sub-command routes the entries below it.
    pub open spec fn routed(self, opts: Seq<ResolvedOption>) -> Result<InvocationView, Error> {
        struct_routed(self.fields@, self.handler, opts)
    }

    /// Routes the entries below the sub-command to its handler.
    pub fn dispatch(&self, opts: &Vec<ResolvedOption>) -> (r: Result<Invocation, Error>)
        ensures
            match r {
                Ok(invocation) => self.routed(opts@) == Ok::<InvocationView, Error>(invocation@),
                Err(e) => self.routed(opts@) == Err::<InvocationView, Error>(e),
            },
    {
        generate_dispatch(&self.fields, self.handler, opts)
    }

    /// The descriptor of the sub-command under the given name and
    /// description.
    pub fn create(&self, name: String, desc: String) -> (r: CreateCommandOption)
        ensures
            r@ == self.created(name@, desc@),
            r@.hyphen_only(),
    {
        generate_create(&self.fields, name, desc)
    }
}

impl SubSubCommand {
    /// The sub-command is routed to the handler `handler`.
    pub open spec fn refers_to(self, handler: u64) -> bool {
        self.handler == handler
    }

    /// The sub-command breaks the rule that the error `e` stands for.
    pub open spec fn violates(self, e: SchemaError) -> bool {
        fields_violate(self.fields@, e)
    }

    /// The first rule the sub-command breaks, in the order in which
    /// violations are reported.
    pub open spec fn violation(self) -> Option<SchemaError> {
        first_violation(|e: SchemaError| self.violates(e))
    }

    /// The sub-command breaks no rule.
    pub open spec fn well_formed(self) -> bool {
        self.violation() is None
    }

    /// Whether the sub-command breaks the rule that the error `e` stands for.
    pub fn breaks(&self, e: SchemaError) -> (r: bool)
        ensures
            r == self.violates(e),
    {
        fields_break(&self.fields, e)
    }
}

/// Accepts the declaration of a sub-command of a group if it breaks no rule,
/// and hands it back; else reports the first rule it breaks.
pub fn derive(input: SubSubCommand) -> (r: Result<SubSubCommand, SchemaError>)
    ensures
        match r {
            Ok(node) => node == input && input.well_formed(),
            Err(e) => input.violation() == Some(e),
        },
{
    if input.breaks(SchemaError::EmptyDescription) {
        Err(SchemaError::EmptyDescription)
    } else if input.breaks(SchemaError::MalformedLocale) {
        Err(SchemaError::MalformedLocale)
    } else if input.breaks(SchemaError::DuplicateLocale) {
        Err(SchemaError::DuplicateLocale)
    } else if input.breaks(SchemaError::DuplicateName) {
        Err(SchemaError::DuplicateName)
    } else if input.breaks(SchemaError::EmptyChoices) {
        Err(SchemaError::EmptyChoices)
    } else if input.breaks(SchemaError::IllegalDefault) {
        Err(SchemaError::IllegalDefault)
    } else {
        Ok(input)
    }
}

} // verus!
