//! The middle level of the hierarchy: what stands directly below a command.
//! Either a sub-command, a structure of options; or a group, an enumeration
//! of sub-commands.

use vstd::prelude::*;
use crate::builder::{CommandOptionType, CreateCommandOption, CreateCommandOptionView};
use crate::common::{
    dispatch_struct, distinct_variants, fields_break, fields_violate, find_variant,
    first_violation, generate_sub_or_subsub_create_from_struct, knows,
    lemma_variant_named_is_a_variant, struct_descriptor, struct_routed, variant_named,
    variants_distinct, FieldOpts, VariantOpts,
};
use crate::error::{Error, SchemaError};
use crate::interaction::{ResolvedOption, ResolvedValue};
use crate::locale::{localized, normalize_all};
use crate::slash::{Invocation, InvocationView};
use crate::subsubcommand::SubSubCommand;

verus! {

/// A node directly below a command.
#[derive(Debug, PartialEq, Eq)]
pub enum SubCommand {
    /// A group: an enumeration of sub-commands.
    Enum { variants: Vec<VariantOpts<SubSubCommand>> },
    /// A sub-command: its options, and the handler it is routed to.
    Struct { fields: Vec<FieldOpts>, handler: u64 },
}

/// The descriptor of one sub-command of a group: that of the node the
/// variant leads to, with the variant's localized texts under normalized
/// tags.
pub open spec fn variant_descriptor(
    variant: VariantOpts<SubSubCommand>,
) -> CreateCommandOptionView {
    CreateCommandOptionView {
        name_localizations: localized(variant.names@),
        description_localizations: localized(variant.descs@),
        ..variant.fields.ty.created(variant.name@, variant.desc@)
    }
}

/// The descriptor of a group: of type sub-command group, with the
/// descriptors of its sub-commands below it, in the order of declaration.
pub open spec fn enum_descriptor(
    variants: Seq<VariantOpts<SubSubCommand>>,
    name: Seq<char>,
    desc: Seq<char>,
) -> CreateCommandOptionView {
    CreateCommandOptionView {
        options: Seq::new(variants.len(), |i: int| variant_descriptor(variants[i])),
        ..CreateCommandOptionView::plain(CommandOptionType::SubCommandGroup, name, desc)
    }
}

/// The variant that the entries `opts` address, by its position.  They
/// must be exactly one entry, and that entry a selected sub-command under
/// the name of a variant; the first variant of that name is the one
/// addressed.
pub open spec fn selected(
    variants: Seq<VariantOpts<SubSubCommand>>,
    opts: Seq<ResolvedOption>,
) -> Option<int> {
    if opts.len() == 1 && opts[0].value is SubCommand {
        variant_named(variants, opts[0].name@)
    } else {
        None
    }
}

/// Where a group routes the entries `opts`: where the sub-command that they
/// address routes the entries below it.  Where they address none, the
/// command is unrecognized.
pub open spec fn enum_routed(
    variants: Seq<VariantOpts<SubSubCommand>>,
    opts: Seq<ResolvedOption>,
) -> Result<InvocationView, Error> {
    match selected(variants, opts) {
        Some(i) => variants[i].fields.ty.routed(opts[0].value.below()),
        None => Err(Error::UnrecognizedCommand),
    }
}

/// The sub-command that the entries below a group address, by its position
/// among the variants, with the entries below it; or `UnrecognizedCommand`
/// where they address none.
pub fn select<'a>(variants: &Vec<VariantOpts<SubSubCommand>>, opts: &'a Vec<ResolvedOption>) -> (r:
    Result<(usize, &'a Vec<ResolvedOption>), Error>)
    ensures
        match r {
            Ok((i, sub_opts)) => {
                &&& selected(variants@, opts@) == Some(i as int)
                &&& i < variants.len()
                &&& sub_opts@ == opts@[0].value.below()
            },
            Err(e) => e == Error::UnrecognizedCommand && selected(variants@, opts@) is None,
        },
{
    if opts.len() != 1 {
        return Err(Error::UnrecognizedCommand);
    }
    let opt = &opts[0];
    match &opt.value {
        ResolvedValue::SubCommand(sub_opts) => match find_variant(variants, &opt.name) {
            Some(i) => Ok((i, sub_opts)),
            None => Err(Error::UnrecognizedCommand),
        },
        _ => Err(Error::UnrecognizedCommand),
    }
}

/// Routes the entries below a group to the handler of one of its
/// sub-commands.
pub fn generate_dispatch_from_enum(
    variants: &Vec<VariantOpts<SubSubCommand>>,
    opts: &Vec<ResolvedOption>,
) -> (r: Result<Invocation, Error>)
    ensures
        match r {
            Ok(invocation) => enum_routed(variants@, opts@) == Ok::<InvocationView, Error>(
                invocation@,
            ),
            Err(e) => enum_routed(variants@, opts@) == Err::<InvocationView, Error>(e),
        },
        opts@.len() != 1 ==> r == Err::<Invocation, Error>(Error::UnrecognizedCommand),
{
    match select(variants, opts) {
        Ok((i, sub_opts)) => variants[i].ty().dispatch(sub_opts),
        Err(e) => Err(e),
    }
}

/// Routes the entries below a sub-command to its handler.
pub fn generate_dispatch_from_struct(
    fields: &Vec<FieldOpts>,
    handler: u64,
    opts: &Vec<ResolvedOption>,
) -> (r: Result<Invocation, Error>)
    ensures
        match r {
            Ok(invocation) => struct_routed(fields@, handler, opts@) == Ok::<InvocationView, Error>(
                invocation@,
            ),
            Err(e) => struct_routed(fields@, handler, opts@) == Err::<InvocationView, Error>(e),
        },
{
    dispatch_struct(fields, handler, opts)
}

/// The descriptor of one sub-command of a group.
pub fn generate_variant_create(variant: &VariantOpts<SubSubCommand>) -> (r: CreateCommandOption)
    ensures
        r@ == variant_descriptor(*variant),
        r@.hyphen_only(),
{
    let mut option = variant.ty().create(variant.name(), variant.desc.clone());
    option.name_localizations = normalize_all(&variant.names);
    option.description_localizations = normalize_all(&variant.descs);
    option
}

/// The descriptor of a group.
pub fn generate_create_from_enum(
    variants: &Vec<VariantOpts<SubSubCommand>>,
    name: String,
    desc: String,
) -> (r: CreateCommandOption)
    ensures
        r@ == enum_descriptor(variants@, name@, desc@),
        r@.hyphen_only(),
{
    let mut sub_opt_creates: Vec<CreateCommandOption> = Vec::new();
    let mut i: usize = 0;
    while i < variants.len()
        invariant
            i <= variants.len(),
            sub_opt_creates@.len() == i,
            forall|j: int|
                0 <= j < i ==> (#[trigger] sub_opt_creates@[j])@ == variant_descriptor(variants@[j])
                    && sub_opt_creates@[j]@.hyphen_only(),
        decreases variants.len() - i,
    {
        sub_opt_creates.push(generate_variant_create(&variants[i]));
        i += 1;
    }
    let mut option = CreateCommandOption::new(CommandOptionType::SubCommandGroup, name, desc);
    option.options = sub_opt_creates;
    proof {
        assert(option@.options =~= enum_descriptor(variants@, name@, desc@).options);
        assert forall|k: int| 0 <= k < option@.options.len() implies (
        #[trigger] option@.options[k]).hyphen_only() by {}
    }
    option
}

/// The descriptor of a sub-command.
pub fn generate_create_from_struct(fields: &Vec<FieldOpts>, name: String, desc: String) -> (r:
    CreateCommandOption)
    ensures
        r@ == struct_descriptor(fields@, name@, desc@),
        r@.hyphen_only(),
{
    generate_sub_or_subsub_create_from_struct(fields, name, desc)
}

impl SubCommand {
    /// The descriptor of the node under the given name and description.
    pub open spec fn created(self, name: Seq<char>, desc: Seq<char>) -> CreateCommandOptionView {
        match self {
            SubCommand::Enum { variants } => enum_descriptor(variants@, name, desc),
            SubCommand::Struct { fields, .. } => struct_descriptor(fields@, name, desc),
        }
    }

    /// Where the node routes the entries below it.
    pub open spec fn routed(self, opts: Seq<ResolvedOption>) -> Result<InvocationView, Error> {
        match self {
            SubCommand::Enum { variants } => enum_routed(variants@, opts),
            SubCommand::Struct { fields, handler } => struct_routed(fields@, handler, opts),
        }
    }

    /// Routes the entries below the node to one handler.
    pub fn dispatch(&self, opts: &Vec<ResolvedOption>) -> (r: Result<Invocation, Error>)
        ensures
            match r {
                Ok(invocation) => self.routed(opts@) == Ok::<InvocationView, Error>(invocation@),
                Err(e) => self.routed(opts@) == Err::<InvocationView, Error>(e),
            },
    {
        match self {
            SubCommand::Enum { variants } => generate_dispatch_from_enum(variants, opts),
            SubCommand::Struct { fields, handler } => generate_dispatch_from_struct(
                fields,
                *handler,
                opts,
            ),
        }
    }

    /// The descriptor of the node under the given name and description.
    pub fn create(&self, name: String, desc: String) -> (r: CreateCommandOption)
        ensures
            r@ == self.created(name@, desc@),
            r@.hyphen_only(),
    {
        match self {
            SubCommand::Enum { variants } => generate_create_from_enum(variants, name, desc),
            SubCommand::Struct { fields, .. } => generate_create_from_struct(fields, name, desc),
        }
    }
}

/// The variant, or the sub-command it leads to, breaks the rule that the
/// error `e` stands for.
pub open spec fn variant_violates(variant: VariantOpts<SubSubCommand>, e: SchemaError) -> bool {
    variant.violates(e) || variant.fields.ty.violates(e)
}

/// The group breaks the rule that the error `e` stands for: one of its
/// variants does, or two of them go under one name.
pub open spec fn variants_violate(
    variants: Seq<VariantOpts<SubSubCommand>>,
    e: SchemaError,
) -> bool {
    (exists|i: int| 0 <= i < variants.len() && variant_violates(#[trigger] variants[i], e)) || (e
        == SchemaError::DuplicateName && !distinct_variants(variants))
}

/// Whether the group breaks the rule that the error `e` stands for.
pub fn variants_break(variants: &Vec<VariantOpts<SubSubCommand>>, e: SchemaError) -> (r: bool)
    ensures
        r == variants_violate(variants@, e),
{
    let mut i: usize = 0;
    while i < variants.len()
        invariant
            i <= variants.len(),
            forall|j: int| 0 <= j < i ==> !variant_violates(#[trigger] variants@[j], e),
        decreases variants.len() - i,
    {
        if variants[i].breaks(e) || variants[i].ty().breaks(e) {
            return true;
        }
        i += 1;
    }
    match e {
        SchemaError::DuplicateName => !variants_distinct(variants),
        _ => false,
    }
}

impl SubCommand {
    /// The node breaks the rule that the error `e` stands for.
    pub open spec fn violates(self, e: SchemaError) -> bool {
        match self {
            SubCommand::Enum { variants } => variants_violate(variants@, e),
            SubCommand::Struct { fields, .. } => fields_violate(fields@, e),
        }
    }

    /// The first rule the node breaks, in the order in which violations are
    /// reported.
    pub open spec fn violation(self) -> Option<SchemaError> {
        first_violation(|e: SchemaError| self.violates(e))
    }

    /// The node breaks no rule.
    pub open spec fn well_formed(self) -> bool {
        self.violation() is None
    }

    /// Whether the node breaks the rule that the error `e` stands for.
    pub fn breaks(&self, e: SchemaError) -> (r: bool)
        ensures
            r == self.violates(e),
    {
        match self {
            SubCommand::Enum { variants } => variants_break(variants, e),
            SubCommand::Struct { fields, .. } => fields_break(fields, e),
        }
    }
}

/// Accepts the declaration of a node below a command if it breaks no rule,
/// and hands it back; else reports the first rule it breaks.
pub fn derive(input: SubCommand) -> (r: Result<SubCommand, SchemaError>)
    ensures
        match r {
            Ok(node) => node == input && input.well_formed(),
            Err(e) => input.violation() == Some(e),
        },
{
    if input.breaks(SchemaError::EmptyDescription) {
        Err(SchemaError::EmptyDescription)
    } else if input.breaks(SchemaError::MalformedLocale) {
        Err(SchemaError::MalformedLocale)
    } else if input.breaks(SchemaError::DuplicateLocale) {
        Err(SchemaError::DuplicateLocale)
    } else if input.breaks(SchemaError::DuplicateName) {
        Err(SchemaError::DuplicateName)
    } else if input.breaks(SchemaError::EmptyChoices) {
        Err(SchemaError::EmptyChoices)
    } else if input.breaks(SchemaError::IllegalDefault) {
        Err(SchemaError::IllegalDefault)
    } else {
        Ok(input)
    }
}

/// One of the variants leads to a node that is routed to the handler
/// `handler`.
pub open spec fn variants_refer_to(
    variants: Seq<VariantOpts<SubSubCommand>>,
    handler: u64,
) -> bool {
    exists|i: int|
        0 <= i < variants.len() && (#[trigger] variants[i]).fields.ty.refers_to(handler)
}

/// A handler that one of the variants refers to and that is none of the
/// `known` ones, if there is one.
pub fn variants_unhandled(
    variants: &Vec<VariantOpts<SubSubCommand>>,
    known: &Vec<u64>,
) -> (r: Option<u64>)
    ensures
        match r {
            Some(handler) => variants_refer_to(variants@, handler) && !known@.contains(handler),
            None => forall|handler: u64|
                variants_refer_to(variants@, handler) ==> known@.contains(handler),
        },
{
    let mut i: usize = 0;
    while i < variants.len()
        invariant
            i <= variants.len(),
            forall|j: int, handler: u64|
                0 <= j < i && (#[trigger] variants@[j]).fields.ty.refers_to(handler)
                    ==> #[trigger] known@.contains(handler),
        decreases variants.len() - i,
    {
            let handler = variants[i].ty().handler;
            if !knows(known, handler) {
                assert(variants@[i as int].fields.ty.refers_to(handler));
                return Some(handler);
            }
        i += 1;
    }
    None
}

impl SubCommand {
    /// The node, or a sub-command below it, is routed to the handler `handler`.
    pub open spec fn refers_to(self, handler: u64) -> bool {
        match self {
            SubCommand::Enum { variants } => variants_refer_to(variants@, handler),
            SubCommand::Struct { handler: own, .. } => own == handler,
        }
    }

    /// A handler that the node refers to and that is none of the `known`
    /// ones, if there is one.
    pub fn unhandled(&self, known: &Vec<u64>) -> (r: Option<u64>)
        ensures
            match r {
                Some(handler) => self.refers_to(handler) && !known@.contains(handler),
                None => forall|handler: u64|
                    self.refers_to(handler) ==> known@.contains(handler),
            },
    {
        match self {
            SubCommand::Enum { variants } => variants_unhandled(variants, known),
            SubCommand::Struct { handler, .. } => if knows(known, *handler) {
                None
            } else {
                Some(*handler)
            },
        }
    }
}

/// A node routes to no handler but one that it refers to.
pub proof fn lemma_routes_to_a_declared_handler(node: SubCommand, opts: Seq<ResolvedOption>)
    ensures
        node.routed(opts) matches Ok(invocation) ==> node.refers_to(invocation.handler),
{
    match node {
        SubCommand::Enum { variants } => {
            if let Some(i) = selected(variants@, opts) {
                lemma_variant_named_is_a_variant(variants@, opts[0].name@);
                if let Ok(invocation) = variants@[i].fields.ty.routed(opts[0].value.below()) {
                    assert(variants@[i].fields.ty.refers_to(invocation.handler));
                }
            }
        },
        SubCommand::Struct { .. } => {},
    }
}

/// A group that receives no selected branch, or more than one, routes to
/// exactly `UnrecognizedCommand`; so does one that receives a branch under
/// a name it does not declare, or an entry that is no selected sub-command.
pub proof fn lemma_group_rejects(
    variants: Seq<VariantOpts<SubSubCommand>>,
    opts: Seq<ResolvedOption>,
)
    ensures
        opts.len() != 1 ==> enum_routed(variants, opts) == Err::<InvocationView, Error>(
            Error::UnrecognizedCommand,
        ),
        opts.len() == 1 && variant_named(variants, opts[0].name@) is None ==> enum_routed(
            variants,
            opts,
        ) == Err::<InvocationView, Error>(Error::UnrecognizedCommand),
        opts.len() == 1 && !(opts[0].value is SubCommand) ==> enum_routed(variants, opts) == Err::<
            InvocationView,
            Error,
        >(Error::UnrecognizedCommand),
{
}

} // verus!
