//! The top level of the hierarchy: a command.  Either a structure of
//! options, or an enumeration of the nodes directly below it.

use vstd::prelude::*;
use crate::builder::{
    CreateCommand, CreateCommandOption, CreateCommandOptionView, CreateCommandView,
};
use crate::common::{
    dispatch_struct, distinct_variants, field_descriptors, fields_break, fields_violate,
    find_variant, first_violation, generate_opt_creates, knows, lemma_variant_named_is_a_variant,
    struct_routed, variant_named, variants_distinct, FieldOpts, VariantOpts,
};
use crate::error::{Error, SchemaError};
use crate::interaction::{ResolvedOption, ResolvedValue};
use crate::locale::{localized, normalize_all};
use crate::slash::{Invocation, InvocationView};
use crate::subcommand::SubCommand;

verus! {

/// A command.
#[derive(Debug, PartialEq, Eq)]
pub enum Command {
    /// An enumeration of sub-commands and groups.
    Enum { variants: Vec<VariantOpts<SubCommand>> },
    /// A command without sub-commands: its options, and the handler it is
    /// routed to.
    Struct { fields: Vec<FieldOpts>, handler: u64 },
}

/// The descriptor of one node below a command: that of the node the variant
/// leads to, with the variant's localized texts under normalized tags.
pub open spec fn variant_descriptor(variant: VariantOpts<SubCommand>) -> CreateCommandOptionView {
    CreateCommandOptionView {
        name_localizations: localized(variant.names@),
        description_localizations: localized(variant.descs@),
        ..variant.fields.ty.created(variant.name@, variant.desc@)
    }
}

/// The descriptors of the nodes below a command, in the order of
/// declaration.
pub open spec fn variant_descriptors(variants: Seq<VariantOpts<SubCommand>>) -> Seq<
    CreateCommandOptionView,
> {
    Seq::new(variants.len(), |i: int| variant_descriptor(variants[i]))
}

/// A command descriptor with the given name, description and nodes below
/// it, and no localized texts.
pub open spec fn command_descriptor(
    name: Seq<char>,
    desc: Seq<char>,
    options: Seq<CreateCommandOptionView>,
) -> CreateCommandView {
    CreateCommandView {
        name,
        name_localizations: Seq::empty(),
        description: desc,
        description_localizations: Seq::empty(),
        options,
    }
}

/// The entry is a selected branch of the shape of the node: a selected
/// sub-command for a sub-command, a selected group for a group.
pub open spec fn shapes_agree(node: SubCommand, value: ResolvedValue) -> bool {
    match node {
        SubCommand::Struct { .. } => value is SubCommand,
        SubCommand::Enum { .. } => value is SubCommandGroup,
    }
}

/// The variant that the entries `opts` address, by its position.  They
/// must be exactly one entry, and that entry must go under the name of a
/// variant; the first variant of that name is the one addressed, if the
/// entry is a selected branch of the shape of the node it leads to.
pub open spec fn selected(
    variants: Seq<VariantOpts<SubCommand>>,
    opts: Seq<ResolvedOption>,
) -> Option<int> {
    if opts.len() != 1 {
        None
    } else {
        match variant_named(variants, opts[0].name@) {
            Some(i) => if shapes_agree(variants[i].fields.ty, opts[0].value) {
                Some(i)
            } else {
                None
            },
            None => None,
        }
    }
}

/// Where an enumeration routes the entries `opts`: where the node that they
/// address routes the entries below it.  Where they address none, the
/// command is unrecognized.
pub open spec fn enum_routed(
    variants: Seq<VariantOpts<SubCommand>>,
    opts: Seq<ResolvedOption>,
) -> Result<InvocationView, Error> {
    match selected(variants, opts) {
        Some(i) => variants[i].fields.ty.routed(opts[0].value.below()),
        None => Err(Error::UnrecognizedCommand),
    }
}

/// The node that the entries below a command address, by its position among
/// the variants, with the entries below it; or `UnrecognizedCommand` where
/// they address none.
pub fn select<'a>(variants: &Vec<VariantOpts<SubCommand>>, opts: &'a Vec<ResolvedOption>) -> (r:
    Result<(usize, &'a Vec<ResolvedOption>), Error>)
    ensures
        match r {
            Ok((i, sub_opts)) => {
                &&& selected(variants@, opts@) == Some(i as int)
                &&& i < variants.len()
                &&& sub_opts@ == opts@[0].value.below()
            },
            Err(e) => e == Error::UnrecognizedCommand && selected(variants@, opts@) is None,
        },
{
    if opts.len() != 1 {
        return Err(Error::UnrecognizedCommand);
    }
    let opt = &opts[0];
    match find_variant(variants, &opt.name) {
        Some(i) => match (variants[i].ty(), &opt.value) {
            (SubCommand::Struct { .. }, ResolvedValue::SubCommand(sub_opts)) => Ok((i, sub_opts)),
            (SubCommand::Enum { .. }, ResolvedValue::SubCommandGroup(sub_opts)) => Ok(
                (i, sub_opts),
            ),
            _ => Err(Error::UnrecognizedCommand),
        },
        None => Err(Error::UnrecognizedCommand),
    }
}

/// Routes the entries below a command to the handler of one of the nodes
/// below it.
pub fn generate_dispatch_from_enum(
    variants: &Vec<VariantOpts<SubCommand>>,
    opts: &Vec<ResolvedOption>,
) -> (r: Result<Invocation, Error>)
    ensures
        match r {
            Ok(invocation) => enum_routed(variants@, opts@) == Ok::<InvocationView, Error>(
                invocation@,
            ),
            Err(e) => enum_routed(variants@, opts@) == Err::<InvocationView, Error>(e),
        },
        opts@.len() != 1 ==> r == Err::<Invocation, Error>(Error::UnrecognizedCommand),
{
    match select(variants, opts) {
        Ok((i, sub_opts)) => variants[i].ty().dispatch(sub_opts),
        Err(e) => Err(e),
    }
}

/// Routes the entries below a command without sub-commands to its handler.
pub fn generate_dispatch_from_struct(
    fields: &Vec<FieldOpts>,
    handler: u64,
    opts: &Vec<ResolvedOption>,
) -> (r: Result<Invocation, Error>)
    ensures
        match r {
            Ok(invocation) => struct_routed(fields@, handler, opts@) == Ok::<InvocationView, Error>(
                invocation@,
            ),
            Err(e) => struct_routed(fields@, handler, opts@) == Err::<InvocationView, Error>(e),
        },
{
    dispatch_struct(fields, handler, opts)
}

/// The descriptor of one node below a command.
pub fn generate_variant_create(variant: &VariantOpts<SubCommand>) -> (r: CreateCommandOption)
    ensures
        r@ == variant_descriptor(*variant),
        r@.hyphen_only(),
{
    let mut option = variant.ty().create(variant.name(), variant.desc.clone());
    option.name_localizations = normalize_all(&variant.names);
    option.description_localizations = normalize_all(&variant.descs);
    option
}

/// The descriptor of a command that is an enumeration: the descriptors of
/// the nodes below it, in the order of declaration.
pub fn generate_create_from_enum(
    variants: &Vec<VariantOpts<SubCommand>>,
    name: String,
    desc: String,
) -> (r: CreateCommand)
    ensures
        r@ == command_descriptor(name@, desc@, variant_descriptors(variants@)),
        r@.hyphen_only(),
{
    let mut opt_creates: Vec<CreateCommandOption> = Vec::new();
    let mut i: usize = 0;
    while i < variants.len()
        invariant
            i <= variants.len(),
            opt_creates@.len() == i,
            forall|j: int|
                0 <= j < i ==> (#[trigger] opt_creates@[j])@ == variant_descriptor(variants@[j])
                    && opt_creates@[j]@.hyphen_only(),
        decreases variants.len() - i,
    {
        opt_creates.push(generate_variant_create(&variants[i]));
        i += 1;
    }
    let command = CreateCommand {
        name,
        name_localizations: Vec::new(),
        description: desc,
        description_localizations: Vec::new(),
        options: opt_creates,
    };
    proof {
        let want = command_descriptor(name@, desc@, variant_descriptors(variants@));
        assert(command@.options =~= want.options);
        assert(command@.description_localizations =~= want.description_localizations);
    }
    command
}

/// The descriptor of a command that is a structure: the descriptors of its
/// options, in the order of declaration.
pub fn generate_create_from_struct(fields: &Vec<FieldOpts>, name: String, desc: String) -> (r:
    CreateCommand)
    ensures
        r@ == command_descriptor(name@, desc@, field_descriptors(fields@)),
        r@.hyphen_only(),
{
    let opt_creates = generate_opt_creates(fields);
    let command = CreateCommand {
        name,
        name_localizations: Vec::new(),
        description: desc,
        description_localizations: Vec::new(),
        options: opt_creates,
    };
    proof {
        let want = command_descriptor(name@, desc@, field_descriptors(fields@));
        assert(command@.description_localizations =~= want.description_localizations);
    }
    command
}

impl Command {
    /// The descriptor of the command under the given name and description.
    pub open spec fn created(self, name: Seq<char>, desc: Seq<char>) -> CreateCommandView {
        match self {
            Command::Enum { variants } => command_descriptor(
                name,
                desc,
                variant_descriptors(variants@),
            ),
            Command::Struct { fields, .. } => command_descriptor(
                name,
                desc,
                field_descriptors(fields@),
            ),
        }
    }

    /// Where the command routes the entries below it.
    pub open spec fn routed(self, opts: Seq<ResolvedOption>) -> Result<InvocationView, Error> {
        match self {
            Command::Enum { variants } => enum_routed(variants@, opts),
            Command::Struct { fields, handler } => struct_routed(fields@, handler, opts),
        }
    }

    /// Routes the entries below the command to one handler.
    pub fn dispatch(&self, opts: &Vec<ResolvedOption>) -> (r: Result<Invocation, Error>)
        ensures
            match r {
                Ok(invocation) => self.routed(opts@) == Ok::<InvocationView, Error>(invocation@),
                Err(e) => self.routed(opts@) == Err::<InvocationView, Error>(e),
            },
    {
        match self {
            Command::Enum { variants } => generate_dispatch_from_enum(variants, opts),
            Command::Struct { fields, handler } => generate_dispatch_from_struct(
                fields,
                *handler,
                opts,
            ),
        }
    }

    /// The descriptor of the command under the given name and description.
    pub fn create(&self, name: String, desc: String) -> (r: CreateCommand)
        ensures
            r@ == self.created(name@, desc@),
            r@.hyphen_only(),
    {
        match self {
            Command::Enum { variants } => generate_create_from_enum(variants, name, desc),
            Command::Struct { fields, .. } => generate_create_from_struct(fields, name, desc),
        }
    }
}

/// The variant, or the node it leads to, breaks the rule that the error `e`
/// stands for.
pub open spec fn variant_violates(variant: VariantOpts<SubCommand>, e: SchemaError) -> bool {
    variant.violates(e) || variant.fields.ty.violates(e)
}

/// The enumeration breaks the rule that the error `e` stands for: one of
/// its variants does, or two of them go under one name.
pub open spec fn variants_violate(variants: Seq<VariantOpts<SubCommand>>, e: SchemaError) -> bool {
    (exists|i: int| 0 <= i < variants.len() && variant_violates(#[trigger] variants[i], e)) || (e
        == SchemaError::DuplicateName && !distinct_variants(variants))
}

/// Whether the enumeration breaks the rule that the error `e` stands for.
pub fn variants_break(variants: &Vec<VariantOpts<SubCommand>>, e: SchemaError) -> (r: bool)
    ensures
        r == variants_violate(variants@, e),
{
    let mut i: usize = 0;
    while i < variants.len()
        invariant
            i <= variants.len(),
            forall|j: int| 0 <= j < i ==> !variant_violates(#[trigger] variants@[j], e),
        decreases variants.len() - i,
    {
        if variants[i].breaks(e) || variants[i].ty().breaks(e) {
            return true;
        }
        i += 1;
    }
    match e {
        SchemaError::DuplicateName => !variants_distinct(variants),
        _ => false,
    }
}

impl Command {
    /// The command breaks the rule that the error `e` stands for.
    pub open spec fn violates(self, e: SchemaError) -> bool {
        match self {
            Command::Enum { variants } => variants_violate(variants@, e),
            Command::Struct { fields, .. } => fields_violate(fields@, e),
        }
    }

    /// The first rule the command breaks, in the order in which violations
    /// are reported.
    pub open spec fn violation(self) -> Option<SchemaError> {
        first_violation(|e: SchemaError| self.violates(e))
    }

    /// The command breaks no rule.
    pub open spec fn well_formed(self) -> bool {
        self.violation() is None
    }

    /// Whether the command breaks the rule that the error `e` stands for.
    pub fn breaks(&self, e: SchemaError) -> (r: bool)
        ensures
            r == self.violates(e),
    {
        match self {
            Command::Enum { variants } => variants_break(variants, e),
            Command::Struct { fields, .. } => fields_break(fields, e),
        }
    }
}

/// Accepts the declaration of a command if it breaks no rule, and hands it
/// back; else reports the first rule it breaks.
pub fn derive(input: Command) -> (r: Result<Command, SchemaError>)
    ensures
        match r {
            Ok(node) => node == input && input.well_formed(),
            Err(e) => input.violation() == Some(e),
        },
{
    if input.breaks(SchemaError::EmptyDescription) {
        Err(SchemaError::EmptyDescription)
    } else if input.breaks(SchemaError::MalformedLocale) {
        Err(SchemaError::MalformedLocale)
    } else if input.breaks(SchemaError::DuplicateLocale) {
        Err(SchemaError::DuplicateLocale)
    } else if input.breaks(SchemaError::DuplicateName) {
        Err(SchemaError::DuplicateName)
    } else if input.breaks(SchemaError::EmptyChoices) {
        Err(SchemaError::EmptyChoices)
    } else if input.breaks(SchemaError::IllegalDefault) {
        Err(SchemaError::IllegalDefault)
    } else {
        Ok(input)
    }
}

/// One of the variants leads to a node that is routed to the handler
/// `handler`.
pub open spec fn variants_refer_to(
    variants: Seq<VariantOpts<SubCommand>>,
    handler: u64,
) -> bool {
    exists|i: int|
        0 <= i < variants.len() && (#[trigger] variants[i]).fields.ty.refers_to(handler)
}

/// A handler that one of the variants refers to and that is none of the
/// `known` ones, if there is one.
pub fn variants_unhandled(
    variants: &Vec<VariantOpts<SubCommand>>,
    known: &Vec<u64>,
) -> (r: Option<u64>)
    ensures
        match r {
            Some(handler) => variants_refer_to(variants@, handler) && !known@.contains(handler),
            None => forall|handler: u64|
                variants_refer_to(variants@, handler) ==> known@.contains(handler),
        },
{
    let mut i: usize = 0;
    while i < variants.len()
        invariant
            i <= variants.len(),
            forall|j: int, handler: u64|
                0 <= j < i && (#[trigger] variants@[j]).fields.ty.refers_to(handler)
                    ==> #[trigger] known@.contains(handler),
        decreases variants.len() - i,
    {
            match variants[i].ty().unhandled(known) {
                Some(handler) => {
                    assert(variants@[i as int].fields.ty.refers_to(handler));
                    return Some(handler);
                },
                None => {},
            }
        i += 1;
    }
    None
}

impl Command {
    /// The command, or a node below it, is routed to the handler `handler`.
    pub open spec fn refers_to(self, handler: u64) -> bool {
        match self {
            Command::Enum { variants } => variants_refer_to(variants@, handler),
            Command::Struct { handler: own, .. } => own == handler,
        }
    }

    /// A handler that the command refers to and that is none of the `known`
    /// ones, if there is one.
    pub fn unhandled(&self, known: &Vec<u64>) -> (r: Option<u64>)
        ensures
            match r {
                Some(handler) => self.refers_to(handler) && !known@.contains(handler),
                None => forall|handler: u64|
                    self.refers_to(handler) ==> known@.contains(handler),
            },
    {
        match self {
            Command::Enum { variants } => variants_unhandled(variants, known),
            Command::Struct { handler, .. } => if knows(known, *handler) {
                None
            } else {
                Some(*handler)
            },
        }
    }
}

/// A command routes to no handler but one that it refers to.
pub proof fn lemma_routes_to_a_declared_handler(command: Command, opts: Seq<ResolvedOption>)
    ensures
        command.routed(opts) matches Ok(invocation) ==> command.refers_to(invocation.handler),
{
    match command {
        Command::Enum { variants } => {
            if let Some(i) = selected(variants@, opts) {
                lemma_variant_named_is_a_variant(variants@, opts[0].name@);
                crate::subcommand::lemma_routes_to_a_declared_handler(
                    variants@[i].fields.ty,
                    opts[0].value.below(),
                );
                if let Ok(invocation) = variants@[i].fields.ty.routed(opts[0].value.below()) {
                    assert(variants@[i].fields.ty.refers_to(invocation.handler));
                }
            }
        },
        Command::Struct { .. } => {},
    }
}

/// An enumeration that receives no selected branch, or more than one,
/// routes to exactly `UnrecognizedCommand`; so does one that receives a
/// branch under a name it does not declare, or a branch of another shape
/// than the node of that name.
pub proof fn lemma_enum_rejects(variants: Seq<VariantOpts<SubCommand>>, opts: Seq<ResolvedOption>)
    ensures
        opts.len() != 1 ==> enum_routed(variants, opts) == Err::<InvocationView, Error>(
            Error::UnrecognizedCommand,
        ),
        opts.len() == 1 && variant_named(variants, opts[0].name@) is None ==> enum_routed(
            variants,
            opts,
        ) == Err::<InvocationView, Error>(Error::UnrecognizedCommand),
        opts.len() == 1 && variant_named(variants, opts[0].name@) is Some && !shapes_agree(
            variants[variant_named(variants, opts[0].name@)->0].fields.ty,
            opts[0].value,
        ) ==> enum_routed(variants, opts) == Err::<InvocationView, Error>(
            Error::UnrecognizedCommand,
        ),
{
}

} // verus!
