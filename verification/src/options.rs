//! The types an option can have, and how a value of each is decoded.

use vstd::prelude::*;
use vstd::string::*;
use crate::builder::{CommandOptionType, CreateCommandOption, CreateCommandOptionView};
use crate::choices::{
    carried, created, generate_create, generate_from_resolved_value, resolved, ChoiceKind, Choices,
};
use crate::error::{Error, SchemaError};
use crate::interaction::{ResolvedValue, Unresolved};

verus! {

/// The integer types an integer option can decode to.
#[derive(Clone, Copy, Debug, PartialEq, Eq, Structural)]
pub enum IntegerType {
    Isize,
    I128,
    I64,
    I32,
    I16,
    I8,
    Usize,
    U128,
    U64,
    U32,
    U16,
    U8,
}

impl IntegerType {
    /// The least value of the type.
    pub open spec fn min(self) -> int {
        match self {
            IntegerType::Isize => isize::MIN as int,
            IntegerType::I128 => i128::MIN as int,
            IntegerType::I64 => i64::MIN as int,
            IntegerType::I32 => i32::MIN as int,
            IntegerType::I16 => i16::MIN as int,
            IntegerType::I8 => i8::MIN as int,
            IntegerType::Usize => 0,
            IntegerType::U128 => 0,
            IntegerType::U64 => 0,
            IntegerType::U32 => 0,
            IntegerType::U16 => 0,
            IntegerType::U8 => 0,
        }
    }

    /// The greatest value of the type.
    pub open spec fn max(self) -> int {
        match self {
            IntegerType::Isize => isize::MAX as int,
            IntegerType::I128 => i128::MAX as int,
            IntegerType::I64 => i64::MAX as int,
            IntegerType::I32 => i32::MAX as int,
            IntegerType::I16 => i16::MAX as int,
            IntegerType::I8 => i8::MAX as int,
            IntegerType::Usize => usize::MAX as int,
            IntegerType::U128 => u128::MAX as int,
            IntegerType::U64 => u64::MAX as int,
            IntegerType::U32 => u32::MAX as int,
            IntegerType::U16 => u16::MAX as int,
            IntegerType::U8 => u8::MAX as int,
        }
    }

    /// The type can hold `v`.
    pub open spec fn holds(self, v: int) -> bool {
        self.min() <= v <= self.max()
    }
}

/// The type of an option: what it accepts and what it decodes to.
#[derive(Debug, PartialEq, Eq)]
pub enum CommandOption {
    /// A text.
    String,
    /// An integer of the given type.
    Integer(IntegerType),
    /// A truth value.
    Boolean,
    /// A user.
    User,
    /// The member data of a user.
    PartialMember,
    /// A user together with its member data.
    UserWithMember,
    /// A channel.
    PartialChannel,
    /// A role.
    Role,
    /// A double-precision number.
    Number,
    /// An attachment.
    Attachment,
    /// The identifier of a user, resolved or not.
    UserId,
    /// The identifier of a role, resolved or not.
    RoleId,
    /// The identifier of a channel, resolved or not.
    ChannelId,
    /// The identifier of a user or a role.
    GenericId,
    /// The identifier of an attachment, resolved or not.
    AttachmentId,
    /// An option of the inner type that may be left out.
    Optional(Box<CommandOption>),
    /// One of a closed set of values.
    Choice(Choices),
}

/// A decoded value.  Entities are carried by their identifiers, a number by
/// its bit pattern, a choice by its position in the set.
#[derive(Debug, PartialEq, Eq)]
pub enum OptionValue {
    String(String),
    Isize(isize),
    I128(i128),
    I64(i64),
    I32(i32),
    I16(i16),
    I8(i8),
    Usize(usize),
    U128(u128),
    U64(u64),
    U32(u32),
    U16(u16),
    U8(u8),
    Boolean(bool),
    User(u64),
    PartialMember(u64),
    UserWithMember(u64),
    PartialChannel(u64),
    Role(u64),
    Number(u64),
    Attachment(u64),
    UserId(u64),
    RoleId(u64),
    ChannelId(u64),
    GenericId(u64),
    AttachmentId(u64),
    Optional(Option<Box<OptionValue>>),
    Choice(usize),
}

/// A decoded value as a mathematical value.
pub enum OptionValueView {
    String(Seq<char>),
    Integer(IntegerType, int),
    Boolean(bool),
    User(u64),
    PartialMember(u64),
    UserWithMember(u64),
    PartialChannel(u64),
    Role(u64),
    Number(u64),
    Attachment(u64),
    UserId(u64),
    RoleId(u64),
    ChannelId(u64),
    GenericId(u64),
    AttachmentId(u64),
    Optional(Option<Box<OptionValueView>>),
    Choice(int),
}

impl OptionValue {
    /// The value as a mathematical value.
    pub open spec fn model(self) -> OptionValueView
        decreases self,
    {
        match self {
            OptionValue::String(s) => OptionValueView::String(s@),
            OptionValue::Isize(v) => OptionValueView::Integer(IntegerType::Isize, v as int),
            OptionValue::I128(v) => OptionValueView::Integer(IntegerType::I128, v as int),
            OptionValue::I64(v) => OptionValueView::Integer(IntegerType::I64, v as int),
            OptionValue::I32(v) => OptionValueView::Integer(IntegerType::I32, v as int),
            OptionValue::I16(v) => OptionValueView::Integer(IntegerType::I16, v as int),
            OptionValue::I8(v) => OptionValueView::Integer(IntegerType::I8, v as int),
            OptionValue::Usize(v) => OptionValueView::Integer(IntegerType::Usize, v as int),
            OptionValue::U128(v) => OptionValueView::Integer(IntegerType::U128, v as int),
            OptionValue::U64(v) => OptionValueView::Integer(IntegerType::U64, v as int),
            OptionValue::U32(v) => OptionValueView::Integer(IntegerType::U32, v as int),
            OptionValue::U16(v) => OptionValueView::Integer(IntegerType::U16, v as int),
            OptionValue::U8(v) => OptionValueView::Integer(IntegerType::U8, v as int),
            OptionValue::Boolean(b) => OptionValueView::Boolean(b),
            OptionValue::User(id) => OptionValueView::User(id),
            OptionValue::PartialMember(id) => OptionValueView::PartialMember(id),
            OptionValue::UserWithMember(id) => OptionValueView::UserWithMember(id),
            OptionValue::PartialChannel(id) => OptionValueView::PartialChannel(id),
            OptionValue::Role(id) => OptionValueView::Role(id),
            OptionValue::Number(bits) => OptionValueView::Number(bits),
            OptionValue::Attachment(id) => OptionValueView::Attachment(id),
            OptionValue::UserId(id) => OptionValueView::UserId(id),
            OptionValue::RoleId(id) => OptionValueView::RoleId(id),
            OptionValue::ChannelId(id) => OptionValueView::ChannelId(id),
            OptionValue::GenericId(id) => OptionValueView::GenericId(id),
            OptionValue::AttachmentId(id) => OptionValueView::AttachmentId(id),
            OptionValue::Optional(None) => OptionValueView::Optional(None),
            OptionValue::Optional(Some(inner)) => OptionValueView::Optional(
                Some(Box::new((*inner).model())),
            ),
            OptionValue::Choice(i) => OptionValueView::Choice(i as int),
        }
    }
}

impl View for OptionValue {
    type V = OptionValueView;

    open spec fn view(&self) -> OptionValueView {
        self.model()
    }
}

/// The identifier that types with a fallback fall back to: the least one.
pub const DEFAULT_ID: u64 = 1;

impl CommandOption {
    /// The type is the identifier of an entity rather than the entity.
    pub open spec fn identifier(self) -> bool {
        self is UserId || self is RoleId || self is ChannelId || self is AttachmentId
    }

    /// The tag of `value` is one the type accepts.
    ///
    /// A type accepts the values of the kind that is its descriptor type:
    /// those that were resolved and, where the type is an identifier, those
    /// that were not.  Of a text that is being completed it accepts none.
    /// The identifier of a mentionable accepts what a mentionable resolves
    /// to, a user or a role, and the mentionable that was not resolved.
    pub open spec fn accepts(self, value: ResolvedValue) -> bool
        decreases self,
    {
        match self {
            CommandOption::Optional(inner) => inner.accepts(value),
            CommandOption::GenericId => value is User || value is Role || (
            value matches ResolvedValue::Unresolved(u) && u is Mentionable),
            _ => !(value is Autocomplete) && value.spec_kind() == self.option_type() && (
            self.identifier() || !(value is Unresolved)),
        }
    }

    /// What `value` decodes to for an option of this type.
    pub open spec fn decoded(self, value: ResolvedValue) -> Result<OptionValueView, Error>
        decreases self,
    {
        match self {
            CommandOption::String => match value {
                ResolvedValue::String(s) => Ok(OptionValueView::String(s@)),
                _ => Err(Error::BadOptionType),
            },
            CommandOption::Integer(ty) => match value {
                ResolvedValue::Integer(v) => if ty.holds(v as int) {
                    Ok(OptionValueView::Integer(ty, v as int))
                } else {
                    Err(Error::BadOptionValue)
                },
                _ => Err(Error::BadOptionType),
            },
            CommandOption::Boolean => match value {
                ResolvedValue::Boolean(b) => Ok(OptionValueView::Boolean(b)),
                _ => Err(Error::BadOptionType),
            },
            CommandOption::User => match value {
                ResolvedValue::User(id, _) => Ok(OptionValueView::User(id)),
                _ => Err(Error::BadOptionType),
            },
            CommandOption::PartialMember => match value {
                ResolvedValue::User(id, member) => if member {
                    Ok(OptionValueView::PartialMember(id))
                } else {
                    Err(Error::BadOptionValue)
                },
                _ => Err(Error::BadOptionType),
            },
            CommandOption::UserWithMember => match value {
                ResolvedValue::User(id, member) => if member {
                    Ok(OptionValueView::UserWithMember(id))
                } else {
                    Err(Error::BadOptionValue)
                },
                _ => Err(Error::BadOptionType),
            },
            CommandOption::PartialChannel => match value {
                ResolvedValue::Channel(id) => Ok(OptionValueView::PartialChannel(id)),
                _ => Err(Error::BadOptionType),
            },
            CommandOption::Role => match value {
                ResolvedValue::Role(id) => Ok(OptionValueView::Role(id)),
                _ => Err(Error::BadOptionType),
            },
            CommandOption::Number => match value {
                ResolvedValue::Number(bits) => Ok(OptionValueView::Number(bits)),
                _ => Err(Error::BadOptionType),
            },
            CommandOption::Attachment => match value {
                ResolvedValue::Attachment(id) => Ok(OptionValueView::Attachment(id)),
                _ => Err(Error::BadOptionType),
            },
            CommandOption::UserId => match value {
                ResolvedValue::User(id, _) => Ok(OptionValueView::UserId(id)),
                ResolvedValue::Unresolved(Unresolved::User(id)) => Ok(OptionValueView::UserId(id)),
                _ => Err(Error::BadOptionType),
            },
            CommandOption::RoleId => match value {
                ResolvedValue::Role(id) => Ok(OptionValueView::RoleId(id)),
                ResolvedValue::Unresolved(Unresolved::RoleId(id)) => Ok(
                    OptionValueView::RoleId(id),
                ),
                _ => Err(Error::BadOptionType),
            },
            CommandOption::ChannelId => match value {
                ResolvedValue::Channel(id) => Ok(OptionValueView::ChannelId(id)),
                ResolvedValue::Unresolved(Unresolved::Channel(id)) => Ok(
                    OptionValueView::ChannelId(id),
                ),
                _ => Err(Error::BadOptionType),
            },
            CommandOption::GenericId => match value {
                ResolvedValue::User(id, _) => Ok(OptionValueView::GenericId(id)),
                ResolvedValue::Role(id) => Ok(OptionValueView::GenericId(id)),
                ResolvedValue::Unresolved(Unresolved::Mentionable(id)) => Ok(
                    OptionValueView::GenericId(id),
                ),
                _ => Err(Error::BadOptionType),
            },
            CommandOption::AttachmentId => match value {
                ResolvedValue::Attachment(id) => Ok(OptionValueView::AttachmentId(id)),
                ResolvedValue::Unresolved(Unresolved::Attachment(id)) => Ok(
                    OptionValueView::AttachmentId(id),
                ),
                _ => Err(Error::BadOptionType),
            },
            CommandOption::Optional(inner) => match inner.decoded(value) {
                Ok(v) => Ok(OptionValueView::Optional(Some(Box::new(v)))),
                Err(e) => Err(e),
            },
            CommandOption::Choice(set) => match resolved(set.variants@, set.kind, value) {
                Ok(i) => Ok(OptionValueView::Choice(i)),
                Err(e) => Err(e),
            },
        }
    }

    /// What an option of this type comes to when the interaction holds no
    /// value for it: no value for one that may be left out, else
    /// `MissingOption`.
    pub open spec fn absent(self) -> Result<OptionValueView, Error> {
        match self {
            CommandOption::Optional(_) => Ok(OptionValueView::Optional(None)),
            _ => Err(Error::MissingOption),
        }
    }

    /// The fallback value of the type, where it has one: the empty text,
    /// zero, false, the least identifier, no value, or the variant that a set
    /// of choices names.  Member data, channels and attachments have none.
    pub open spec fn fallback(self) -> Option<OptionValueView> {
        match self {
            CommandOption::String => Some(OptionValueView::String(Seq::empty())),
            CommandOption::Integer(ty) => Some(OptionValueView::Integer(ty, 0)),
            CommandOption::Boolean => Some(OptionValueView::Boolean(false)),
            CommandOption::User => Some(OptionValueView::User(DEFAULT_ID)),
            CommandOption::PartialMember => None,
            CommandOption::UserWithMember => None,
            CommandOption::PartialChannel => None,
            CommandOption::Role => Some(OptionValueView::Role(DEFAULT_ID)),
            CommandOption::Number => Some(OptionValueView::Number(0)),
            CommandOption::Attachment => None,
            CommandOption::UserId => Some(OptionValueView::UserId(DEFAULT_ID)),
            CommandOption::RoleId => Some(OptionValueView::RoleId(DEFAULT_ID)),
            CommandOption::ChannelId => Some(OptionValueView::ChannelId(DEFAULT_ID)),
            CommandOption::GenericId => Some(OptionValueView::GenericId(DEFAULT_ID)),
            CommandOption::AttachmentId => Some(OptionValueView::AttachmentId(DEFAULT_ID)),
            CommandOption::Optional(_) => Some(OptionValueView::Optional(None)),
            CommandOption::Choice(set) => match set.default {
                Some(i) => if i < set.variants@.len() {
                    Some(OptionValueView::Choice(i as int))
                } else {
                    None
                },
                None => None,
            },
        }
    }

    /// The descriptor type of an option of this type.
    pub open spec fn option_type(self) -> CommandOptionType
        decreases self,
    {
        match self {
            CommandOption::String => CommandOptionType::String,
            CommandOption::Integer(_) => CommandOptionType::Integer,
            CommandOption::Boolean => CommandOptionType::Boolean,
            CommandOption::User => CommandOptionType::User,
            CommandOption::PartialMember => CommandOptionType::User,
            CommandOption::UserWithMember => CommandOptionType::User,
            CommandOption::PartialChannel => CommandOptionType::Channel,
            CommandOption::Role => CommandOptionType::Role,
            CommandOption::Number => CommandOptionType::Number,
            CommandOption::Attachment => CommandOptionType::Attachment,
            CommandOption::UserId => CommandOptionType::User,
            CommandOption::RoleId => CommandOptionType::Role,
            CommandOption::ChannelId => CommandOptionType::Channel,
            CommandOption::GenericId => CommandOptionType::Mentionable,
            CommandOption::AttachmentId => CommandOptionType::Attachment,
            CommandOption::Optional(inner) => inner.option_type(),
            CommandOption::Choice(set) => set.kind.option_type(),
        }
    }

    /// The type is one that may be left out.
    pub open spec fn optional(self) -> bool {
        self is Optional
    }

    /// The descriptor of an option of this type with the given name and
    /// description: required unless the type may be left out, listing the
    /// choices where the type is a set of them.
    pub open spec fn created(self, name: Seq<char>, desc: Seq<char>) -> CreateCommandOptionView
        decreases self,
    {
        match self {
            CommandOption::Optional(inner) => CreateCommandOptionView {
                required: false,
                ..inner.created(name, desc)
            },
            CommandOption::Choice(set) => created(set.variants@, set.kind, name, desc),
            _ => CreateCommandOptionView {
                required: true,
                ..CreateCommandOptionView::plain(self.option_type(), name, desc)
            },
        }
    }

    /// The type is no set of choices, nor one that may be left out of one.
    pub open spec fn plain(self) -> bool
        decreases self,
    {
        match self {
            CommandOption::Optional(inner) => inner.plain(),
            CommandOption::Choice(_) => false,
            _ => true,
        }
    }

    /// A value the type accepts: one of the tag its decoder reads (for a
    /// text, any text).
    pub open spec fn specimen(self) -> ResolvedValue
        decreases self,
    {
        match self {
            CommandOption::String => ResolvedValue::String(arbitrary()),
            CommandOption::Integer(_) => ResolvedValue::Integer(0),
            CommandOption::Boolean => ResolvedValue::Boolean(false),
            CommandOption::User => ResolvedValue::User(DEFAULT_ID, true),
            CommandOption::PartialMember => ResolvedValue::User(DEFAULT_ID, true),
            CommandOption::UserWithMember => ResolvedValue::User(DEFAULT_ID, true),
            CommandOption::PartialChannel => ResolvedValue::Channel(DEFAULT_ID),
            CommandOption::Role => ResolvedValue::Role(DEFAULT_ID),
            CommandOption::Number => ResolvedValue::Number(0),
            CommandOption::Attachment => ResolvedValue::Attachment(DEFAULT_ID),
            CommandOption::UserId => ResolvedValue::User(DEFAULT_ID, true),
            CommandOption::RoleId => ResolvedValue::Role(DEFAULT_ID),
            CommandOption::ChannelId => ResolvedValue::Channel(DEFAULT_ID),
            CommandOption::GenericId => ResolvedValue::Role(DEFAULT_ID),
            CommandOption::AttachmentId => ResolvedValue::Attachment(DEFAULT_ID),
            CommandOption::Optional(inner) => inner.specimen(),
            CommandOption::Choice(set) => match set.kind {
                ChoiceKind::String => ResolvedValue::String(arbitrary()),
                ChoiceKind::Int => ResolvedValue::Integer(0),
                ChoiceKind::Float => ResolvedValue::Number(0),
            },
        }
    }

    /// The type breaks the rule that the error `e` stands for: a set of
    /// choices inside it has a choice with a malformed locale tag or with
    /// two names under one locale, or is empty.  A type breaks no other rule.
    pub open spec fn violates(self, e: SchemaError) -> bool
        decreases self,
    {
        match self {
            CommandOption::Optional(inner) => inner.violates(e),
            CommandOption::Choice(set) => match e {
                SchemaError::MalformedLocale => set.malformed_locale(),
                SchemaError::DuplicateLocale => set.duplicate_locale(),
                SchemaError::EmptyChoices => set.variants@.len() == 0,
                _ => false,
            },
            _ => false,
        }
    }
}

/// The integer as a value of the given type, or `BadOptionValue` where the
/// type cannot hold it.
fn integer(ty: IntegerType, v: i64) -> (r: Result<OptionValue, Error>)
    ensures
        match r {
            Ok(x) => ty.holds(v as int) && x@ == OptionValueView::Integer(ty, v as int),
            Err(e) => e == Error::BadOptionValue && !ty.holds(v as int),
        },
{
    match ty {
        IntegerType::Isize => match isize::try_from(v) {
            Ok(x) => Ok(OptionValue::Isize(x)),
            Err(_) => Err(Error::BadOptionValue),
        },
        IntegerType::I128 => Ok(OptionValue::I128(v as i128)),
        IntegerType::I64 => Ok(OptionValue::I64(v)),
        IntegerType::I32 => match i32::try_from(v) {
            Ok(x) => Ok(OptionValue::I32(x)),
            Err(_) => Err(Error::BadOptionValue),
        },
        IntegerType::I16 => match i16::try_from(v) {
            Ok(x) => Ok(OptionValue::I16(x)),
            Err(_) => Err(Error::BadOptionValue),
        },
        IntegerType::I8 => match i8::try_from(v) {
            Ok(x) => Ok(OptionValue::I8(x)),
            Err(_) => Err(Error::BadOptionValue),
        },
        IntegerType::Usize => match usize::try_from(v) {
            Ok(x) => Ok(OptionValue::Usize(x)),
            Err(_) => Err(Error::BadOptionValue),
        },
        IntegerType::U128 => match u128::try_from(v) {
            Ok(x) => Ok(OptionValue::U128(x)),
            Err(_) => Err(Error::BadOptionValue),
        },
        IntegerType::U64 => match u64::try_from(v) {
            Ok(x) => Ok(OptionValue::U64(x)),
            Err(_) => Err(Error::BadOptionValue),
        },
        IntegerType::U32 => match u32::try_from(v) {
            Ok(x) => Ok(OptionValue::U32(x)),
            Err(_) => Err(Error::BadOptionValue),
        },
        IntegerType::U16 => match u16::try_from(v) {
            Ok(x) => Ok(OptionValue::U16(x)),
            Err(_) => Err(Error::BadOptionValue),
        },
        IntegerType::U8 => match u8::try_from(v) {
            Ok(x) => Ok(OptionValue::U8(x)),
            Err(_) => Err(Error::BadOptionValue),
        },
    }
}

impl CommandOption {
    /// Decodes a resolved value for an option of this type.  Only the tag and
    /// what the type itself demands are examined; bounds declared on the
    /// option are the platform's to enforce.
    ///
    /// Fails with `BadOptionType` if, and only if, the type does not accept
    /// the value's tag; with `BadOptionValue` where the tag is accepted and
    /// the value is not.
    pub fn try_from_resolved_value(&self, value: &ResolvedValue) -> (r: Result<OptionValue, Error>)
        ensures
            match r {
                Ok(v) => self.decoded(*value) == Ok::<OptionValueView, Error>(v@),
                Err(e) => self.decoded(*value) == Err::<OptionValueView, Error>(e),
            },
            r == Err::<OptionValue, Error>(Error::BadOptionType) <==> !self.accepts(*value),
            r is Err ==> r == Err::<OptionValue, Error>(Error::BadOptionType) || r == Err::<
                OptionValue,
                Error,
            >(Error::BadOptionValue),
        decreases self,
    {
        match self {
            CommandOption::String => match value {
                ResolvedValue::String(s) => Ok(OptionValue::String(s.clone())),
                _ => Err(Error::BadOptionType),
            },
            CommandOption::Integer(ty) => match value {
                ResolvedValue::Integer(v) => integer(*ty, *v),
                _ => Err(Error::BadOptionType),
            },
            CommandOption::Boolean => match value {
                ResolvedValue::Boolean(b) => Ok(OptionValue::Boolean(*b)),
                _ => Err(Error::BadOptionType),
            },
            CommandOption::User => match value {
                ResolvedValue::User(id, _) => Ok(OptionValue::User(*id)),
                _ => Err(Error::BadOptionType),
            },
            CommandOption::PartialMember => match value {
                ResolvedValue::User(id, member) => if *member {
                    Ok(OptionValue::PartialMember(*id))
                } else {
                    Err(Error::BadOptionValue)
                },
                _ => Err(Error::BadOptionType),
            },
            CommandOption::UserWithMember => match value {
                ResolvedValue::User(id, member) => if *member {
                    Ok(OptionValue::UserWithMember(*id))
                } else {
                    Err(Error::BadOptionValue)
                },
                _ => Err(Error::BadOptionType),
            },
            CommandOption::PartialChannel => match value {
                ResolvedValue::Channel(id) => Ok(OptionValue::PartialChannel(*id)),
                _ => Err(Error::BadOptionType),
            },
            CommandOption::Role => match value {
                ResolvedValue::Role(id) => Ok(OptionValue::Role(*id)),
                _ => Err(Error::BadOptionType),
            },
            CommandOption::Number => match value {
                ResolvedValue::Number(bits) => Ok(OptionValue::Number(*bits)),
                _ => Err(Error::BadOptionType),
            },
            CommandOption::Attachment => match value {
                ResolvedValue::Attachment(id) => Ok(OptionValue::Attachment(*id)),
                _ => Err(Error::BadOptionType),
            },
            CommandOption::UserId => match value {
                ResolvedValue::User(id, _) => Ok(OptionValue::UserId(*id)),
                ResolvedValue::Unresolved(Unresolved::User(id)) => Ok(OptionValue::UserId(*id)),
                _ => Err(Error::BadOptionType),
            },
            CommandOption::RoleId => match value {
                ResolvedValue::Role(id) => Ok(OptionValue::RoleId(*id)),
                ResolvedValue::Unresolved(Unresolved::RoleId(id)) => Ok(OptionValue::RoleId(*id)),
                _ => Err(Error::BadOptionType),
            },
            CommandOption::ChannelId => match value {
                ResolvedValue::Channel(id) => Ok(OptionValue::ChannelId(*id)),
                ResolvedValue::Unresolved(Unresolved::Channel(id)) => Ok(
                    OptionValue::ChannelId(*id),
                ),
                _ => Err(Error::BadOptionType),
            },
            CommandOption::GenericId => match value {
                ResolvedValue::User(id, _) => Ok(OptionValue::GenericId(*id)),
                ResolvedValue::Role(id) => Ok(OptionValue::GenericId(*id)),
                ResolvedValue::Unresolved(Unresolved::Mentionable(id)) => Ok(
                    OptionValue::GenericId(*id),
                ),
                _ => Err(Error::BadOptionType),
            },
            CommandOption::AttachmentId => match value {
                ResolvedValue::Attachment(id) => Ok(OptionValue::AttachmentId(*id)),
                ResolvedValue::Unresolved(Unresolved::Attachment(id)) => Ok(
                    OptionValue::AttachmentId(*id),
                ),
                _ => Err(Error::BadOptionType),
            },
            CommandOption::Optional(inner) => match inner.try_from_resolved_value(value) {
                Ok(v) => Ok(OptionValue::Optional(Some(Box::new(v)))),
                Err(e) => Err(e),
            },
            CommandOption::Choice(set) => match generate_from_resolved_value(
                &set.variants,
                set.kind,
                value,
            ) {
                Ok(i) => Ok(OptionValue::Choice(i)),
                Err(e) => Err(e),
            },
        }
    }

    /// What an option of this type comes to when the interaction holds no
    /// value for it: no value where the type may be left out, else
    /// `MissingOption`.
    pub fn try_from_missing_value(&self) -> (r: Result<OptionValue, Error>)
        ensures
            match r {
                Ok(v) => self.absent() == Ok::<OptionValueView, Error>(v@),
                Err(e) => self.absent() == Err::<OptionValueView, Error>(e),
            },
            r is Ok <==> self.optional(),
            r is Err ==> r == Err::<OptionValue, Error>(Error::MissingOption),
    {
        match self {
            CommandOption::Optional(_) => Ok(OptionValue::Optional(None)),
            _ => Err(Error::MissingOption),
        }
    }

    /// The fallback value of the type, where it has one.
    pub fn default_value(&self) -> (r: Option<OptionValue>)
        ensures
            match r {
                Some(v) => self.fallback() == Some(v@),
                None => self.fallback() is None,
            },
    {
        match self {
            CommandOption::String => Some(OptionValue::String(String::new())),
            CommandOption::Integer(ty) => Some(
                match ty {
                    IntegerType::Isize => OptionValue::Isize(0),
                    IntegerType::I128 => OptionValue::I128(0),
                    IntegerType::I64 => OptionValue::I64(0),
                    IntegerType::I32 => OptionValue::I32(0),
                    IntegerType::I16 => OptionValue::I16(0),
                    IntegerType::I8 => OptionValue::I8(0),
                    IntegerType::Usize => OptionValue::Usize(0),
                    IntegerType::U128 => OptionValue::U128(0),
                    IntegerType::U64 => OptionValue::U64(0),
                    IntegerType::U32 => OptionValue::U32(0),
                    IntegerType::U16 => OptionValue::U16(0),
                    IntegerType::U8 => OptionValue::U8(0),
                },
            ),
            CommandOption::Boolean => Some(OptionValue::Boolean(false)),
            CommandOption::User => Some(OptionValue::User(DEFAULT_ID)),
            CommandOption::PartialMember => None,
            CommandOption::UserWithMember => None,
            CommandOption::PartialChannel => None,
            CommandOption::Role => Some(OptionValue::Role(DEFAULT_ID)),
            CommandOption::Number => Some(OptionValue::Number(0)),
            CommandOption::Attachment => None,
            CommandOption::UserId => Some(OptionValue::UserId(DEFAULT_ID)),
            CommandOption::RoleId => Some(OptionValue::RoleId(DEFAULT_ID)),
            CommandOption::ChannelId => Some(OptionValue::ChannelId(DEFAULT_ID)),
            CommandOption::GenericId => Some(OptionValue::GenericId(DEFAULT_ID)),
            CommandOption::AttachmentId => Some(OptionValue::AttachmentId(DEFAULT_ID)),
            CommandOption::Optional(_) => Some(OptionValue::Optional(None)),
            CommandOption::Choice(set) => match set.default {
                Some(i) => if i < set.variants.len() {
                    Some(OptionValue::Choice(i))
                } else {
                    None
                },
                None => None,
            },
        }
    }

    /// The descriptor type of an option of this type.
    pub fn kind(&self) -> (r: CommandOptionType)
        ensures
            r == self.option_type(),
        decreases self,
    {
        match self {
            CommandOption::String => CommandOptionType::String,
            CommandOption::Integer(_) => CommandOptionType::Integer,
            CommandOption::Boolean => CommandOptionType::Boolean,
            CommandOption::User => CommandOptionType::User,
            CommandOption::PartialMember => CommandOptionType::User,
            CommandOption::UserWithMember => CommandOptionType::User,
            CommandOption::PartialChannel => CommandOptionType::Channel,
            CommandOption::Role => CommandOptionType::Role,
            CommandOption::Number => CommandOptionType::Number,
            CommandOption::Attachment => CommandOptionType::Attachment,
            CommandOption::UserId => CommandOptionType::User,
            CommandOption::RoleId => CommandOptionType::Role,
            CommandOption::ChannelId => CommandOptionType::Channel,
            CommandOption::GenericId => CommandOptionType::Mentionable,
            CommandOption::AttachmentId => CommandOptionType::Attachment,
            CommandOption::Optional(inner) => inner.kind(),
            CommandOption::Choice(set) => set.kind.option_type_variant(),
        }
    }

    /// The descriptor of an option of this type with the given name and
    /// description.
    pub fn create(&self, name: String, desc: String) -> (r: CreateCommandOption)
        ensures
            r@ == self.created(name@, desc@),
            r@.hyphen_only(),
        decreases self,
    {
        match self {
            CommandOption::Optional(inner) => {
                let mut option = inner.create(name, desc);
                option.required = false;
                option
            },
            CommandOption::Choice(set) => generate_create(&set.variants, set.kind, name, desc),
            _ => {
                let mut option = CreateCommandOption::new(self.kind(), name, desc);
                option.required = true;
                option
            },
        }
    }

    /// Whether the type breaks the rule that the error `e` stands for.
    pub fn breaks(&self, e: SchemaError) -> (r: bool)
        ensures
            r == self.violates(e),
        decreases self,
    {
        match self {
            CommandOption::Optional(inner) => inner.breaks(e),
            CommandOption::Choice(set) => match e {
                SchemaError::MalformedLocale => set.has_malformed_locale(),
                SchemaError::DuplicateLocale => set.has_duplicate_locale(),
                SchemaError::EmptyChoices => set.variants.len() == 0,
                _ => false,
            },
            _ => false,
        }
    }
}

/// A value whose tag the option's type accepts never fails with
/// `BadOptionType`.
pub proof fn lemma_accepted_is_not_bad_type(ty: CommandOption, value: ResolvedValue)
    requires
        ty.accepts(value),
    ensures
        ty.decoded(value) != Err::<OptionValueView, Error>(Error::BadOptionType),
    decreases ty,
{
    match ty {
        CommandOption::Optional(inner) => {
            lemma_accepted_is_not_bad_type(*inner, value);
        },
        _ => {},
    }
}

/// A value that was resolved, and whose kind is the descriptor type of the
/// option's type, never fails with `BadOptionType`: the tag that the
/// platform sends for an option of that type is one its decoder reads.
pub proof fn lemma_matching_kind_is_not_bad_type(ty: CommandOption, value: ResolvedValue)
    requires
        !(value is Unresolved),
        !(value is Autocomplete),
        value.spec_kind() == ty.option_type(),
    ensures
        ty.accepts(value),
        ty.decoded(value) != Err::<OptionValueView, Error>(Error::BadOptionType),
    decreases ty,
{
    match ty {
        CommandOption::Optional(inner) => {
            lemma_matching_kind_is_not_bad_type(*inner, value);
        },
        _ => {},
    }
}

/// A value whose tag the option's type does not accept fails with exactly
/// `BadOptionType`.
pub proof fn lemma_rejected_is_bad_type(ty: CommandOption, value: ResolvedValue)
    requires
        !ty.accepts(value),
    ensures
        ty.decoded(value) == Err::<OptionValueView, Error>(Error::BadOptionType),
    decreases ty,
{
    match ty {
        CommandOption::Optional(inner) => {
            lemma_rejected_is_bad_type(*inner, value);
        },
        _ => {},
    }
}

/// Every type has a decoder: there is a value that it accepts, and decoding
/// that value does not fail for its tag.  Of a type that is no set of
/// choices, the value decodes.
pub proof fn lemma_every_type_has_a_decoder(ty: CommandOption)
    ensures
        ty.accepts(ty.specimen()),
        ty.decoded(ty.specimen()) != Err::<OptionValueView, Error>(Error::BadOptionType),
        ty.plain() ==> ty.decoded(ty.specimen()) is Ok,
    decreases ty,
{
    match ty {
        CommandOption::Optional(inner) => {
            lemma_every_type_has_a_decoder(*inner);
        },
        _ => {},
    }
}

} // verus!
