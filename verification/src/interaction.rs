//! The interaction as it arrives: the name of a command and, nested below
//! it, the selected branches and the values of the options.

use vstd::prelude::*;
use crate::builder::CommandOptionType;

verus! {

/// A value the platform could not resolve to an entity, by its identifier.
#[derive(Debug, PartialEq, Eq)]
pub enum Unresolved {
    Attachment(u64),
    Channel(u64),
    Mentionable(u64),
    RoleId(u64),
    User(u64),
    /// A value of an option type the platform does not document.
    Unknown(u8),
}

/// The value of one entry of an interaction, tagged with its kind.  An
/// entity is carried by its identifier, a number by its bit pattern.
#[derive(Debug, PartialEq, Eq)]
pub enum ResolvedValue {
    /// The text typed so far into an option that is being completed.
    Autocomplete { kind: CommandOptionType, value: String },
    Boolean(bool),
    Integer(i64),
    Number(u64),
    String(String),
    /// A selected sub-command, with the entries below it.
    SubCommand(Vec<ResolvedOption>),
    /// A selected group of sub-commands, with the entries below it.
    SubCommandGroup(Vec<ResolvedOption>),
    Attachment(u64),
    Channel(u64),
    Role(u64),
    /// A user, and whether member data came with it.
    User(u64, bool),
    Unresolved(Unresolved),
}

/// One entry of an interaction: a selected branch, or the value of an option.
#[derive(Debug, PartialEq, Eq)]
pub struct ResolvedOption {
    pub name: String,
    pub value: ResolvedValue,
}

/// An interaction that invokes a command.
#[derive(Debug, PartialEq, Eq)]
pub struct CommandInteraction {
    /// The name of the invoked command.
    pub name: String,
    /// The entries directly below the command.
    pub options: Vec<ResolvedOption>,
}

/// Anything the platform may deliver.
#[derive(Debug, PartialEq, Eq)]
pub enum Interaction {
    Ping,
    Command(CommandInteraction),
    Autocomplete(CommandInteraction),
    Component,
    Modal,
}

impl ResolvedValue {
    /// The entries below a selected branch; below a plain value there are
    /// none.
    pub open spec fn below(self) -> Seq<ResolvedOption> {
        match self {
            ResolvedValue::SubCommand(opts) => opts@,
            ResolvedValue::SubCommandGroup(opts) => opts@,
            _ => Seq::empty(),
        }
    }

    /// The kind the value is tagged with.  A mentionable that was resolved
    /// appears as the user or the role it names.
    pub open spec fn spec_kind(&self) -> CommandOptionType {
        match *self {
            ResolvedValue::Autocomplete { kind, .. } => kind,
            ResolvedValue::Boolean(_) => CommandOptionType::Boolean,
            ResolvedValue::Integer(_) => CommandOptionType::Integer,
            ResolvedValue::Number(_) => CommandOptionType::Number,
            ResolvedValue::String(_) => CommandOptionType::String,
            ResolvedValue::SubCommand(_) => CommandOptionType::SubCommand,
            ResolvedValue::SubCommandGroup(_) => CommandOptionType::SubCommandGroup,
            ResolvedValue::Attachment(_) => CommandOptionType::Attachment,
            ResolvedValue::Channel(_) => CommandOptionType::Channel,
            ResolvedValue::Role(_) => CommandOptionType::Role,
            ResolvedValue::User(_, _) => CommandOptionType::User,
            ResolvedValue::Unresolved(Unresolved::Attachment(_)) => CommandOptionType::Attachment,
            ResolvedValue::Unresolved(Unresolved::Channel(_)) => CommandOptionType::Channel,
            ResolvedValue::Unresolved(Unresolved::Mentionable(_)) => CommandOptionType::Mentionable,
            ResolvedValue::Unresolved(Unresolved::RoleId(_)) => CommandOptionType::Role,
            ResolvedValue::Unresolved(Unresolved::User(_)) => CommandOptionType::User,
            ResolvedValue::Unresolved(Unresolved::Unknown(code)) => CommandOptionType::Unknown(code),
        }
    }

    /// The kind the value is tagged with.
    #[verifier::when_used_as_spec(spec_kind)]
    pub fn kind(&self) -> (r: CommandOptionType)
        ensures
            r == self.spec_kind(),
    {
        match self {
            ResolvedValue::Autocomplete { kind, .. } => *kind,
            ResolvedValue::Boolean(_) => CommandOptionType::Boolean,
            ResolvedValue::Integer(_) => CommandOptionType::Integer,
            ResolvedValue::Number(_) => CommandOptionType::Number,
            ResolvedValue::String(_) => CommandOptionType::String,
            ResolvedValue::SubCommand(_) => CommandOptionType::SubCommand,
            ResolvedValue::SubCommandGroup(_) => CommandOptionType::SubCommandGroup,
            ResolvedValue::Attachment(_) => CommandOptionType::Attachment,
            ResolvedValue::Channel(_) => CommandOptionType::Channel,
            ResolvedValue::Role(_) => CommandOptionType::Role,
            ResolvedValue::User(_, _) => CommandOptionType::User,
            ResolvedValue::Unresolved(Unresolved::Attachment(_)) => CommandOptionType::Attachment,
            ResolvedValue::Unresolved(Unresolved::Channel(_)) => CommandOptionType::Channel,
            ResolvedValue::Unresolved(Unresolved::Mentionable(_)) => CommandOptionType::Mentionable,
            ResolvedValue::Unresolved(Unresolved::RoleId(_)) => CommandOptionType::Role,
            ResolvedValue::Unresolved(Unresolved::User(_)) => CommandOptionType::User,
            ResolvedValue::Unresolved(Unresolved::Unknown(code)) => CommandOptionType::Unknown(
                *code,
            ),
        }
    }
}

} // verus!
