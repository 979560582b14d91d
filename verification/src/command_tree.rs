//! The root of the hierarchy: the commands of an application.

use vstd::prelude::*;
use crate::builder::{command_views, CreateCommand, CreateCommandView};
use crate::command::Command;
use crate::common::{
    called, distinct_variants, find_variant, first_violation, lemma_variant_named_is_a_variant,
    variant_named, variants_distinct, VariantOpts,
};
use crate::error::{Error, SchemaError};
use crate::interaction::{CommandInteraction, Interaction};
use crate::locale::{localized, normalize_all};

use crate::slash::{Invocation, InvocationView};

verus! {

/// The commands of an application, in the order of declaration.
#[derive(Debug, PartialEq, Eq)]
pub struct CommandTree {
    pub variants: Vec<VariantOpts<Command>>,
}

/// The descriptor of one command: that of the command the variant leads to,
/// with the variant's localized texts under normalized tags.
pub open spec fn variant_descriptor(variant: VariantOpts<Command>) -> CreateCommandView {
    CreateCommandView {
        name_localizations: localized(variant.names@),
        description_localizations: localized(variant.descs@),
        ..variant.fields.ty.created(variant.name@, variant.desc@)
    }
}

/// The registration descriptor: the descriptors of the commands, in the
/// order of declaration.
pub open spec fn tree_descriptor(variants: Seq<VariantOpts<Command>>) -> Seq<CreateCommandView> {
    Seq::new(variants.len(), |i: int| variant_descriptor(variants[i]))
}

/// Where the commands route an interaction: the first command that goes
/// under the invoked name routes the entries of the interaction; without
/// one the command is unrecognized.
pub open spec fn tree_routed(
    variants: Seq<VariantOpts<Command>>,
    interaction: CommandInteraction,
) -> Result<InvocationView, Error> {
    match variant_named(variants, interaction.name@) {
        Some(i) => variants[i].fields.ty.routed(interaction.options@),
        None => Err(Error::UnrecognizedCommand),
    }
}

/// Routes an interaction to the handler of one of the commands.
pub fn generate_dispatch(
    variants: &Vec<VariantOpts<Command>>,
    interaction: &CommandInteraction,
) -> (r: Result<Invocation, Error>)
    ensures
        match r {
            Ok(invocation) => tree_routed(variants@, *interaction) == Ok::<InvocationView, Error>(
                invocation@,
            ),
            Err(e) => tree_routed(variants@, *interaction) == Err::<InvocationView, Error>(e),
        },
{
    match find_variant(variants, &interaction.name) {
        Some(i) => variants[i].ty().dispatch(&interaction.options),
        None => Err(Error::UnrecognizedCommand),
    }
}

/// The descriptor of one command.
pub fn generate_variant_create(variant: &VariantOpts<Command>) -> (r: CreateCommand)
    ensures
        r@ == variant_descriptor(*variant),
        r@.hyphen_only(),
{
    let mut command = variant.ty().create(variant.name(), variant.desc.clone());
    let ghost base = command@;
    command.name_localizations = normalize_all(&variant.names);
    command.description_localizations = normalize_all(&variant.descs);
    proof {
        assert(command@.options =~= base.options);
    }
    command
}

/// The registration descriptor of the commands.
pub fn generate_create(variants: &Vec<VariantOpts<Command>>) -> (r: Vec<CreateCommand>)
    ensures
        command_views(r@) == tree_descriptor(variants@),
        forall|i: int| 0 <= i < r@.len() ==> (#[trigger] r@[i])@.hyphen_only(),
{
    let mut creates: Vec<CreateCommand> = Vec::new();
    let mut i: usize = 0;
    while i < variants.len()
        invariant
            i <= variants.len(),
            creates@.len() == i,
            forall|j: int|
                0 <= j < i ==> (#[trigger] creates@[j])@ == variant_descriptor(variants@[j])
                    && creates@[j]@.hyphen_only(),
        decreases variants.len() - i,
    {
        creates.push(generate_variant_create(&variants[i]));
        i += 1;
    }
    creates
}

impl CommandTree {
    /// The registration descriptor of the tree.
    pub open spec fn created(self) -> Seq<CreateCommandView> {
        tree_descriptor(self.variants@)
    }

    /// Where the tree routes an interaction that invokes a command.
    pub open spec fn routed(
        self,
        interaction: CommandInteraction,
    ) -> Result<InvocationView, Error> {
        tree_routed(self.variants@, interaction)
    }

    /// Where the tree routes whatever the platform delivers: an interaction
    /// that invokes or completes a command as that command interaction,
    /// anything else nowhere.
    pub open spec fn routed_interaction(
        self,
        interaction: Interaction,
    ) -> Result<InvocationView, Error> {
        match interaction {
            Interaction::Command(command) => self.routed(command),
            Interaction::Autocomplete(command) => self.routed(command),
            _ => Err(Error::UnrecognizedCommand),
        }
    }

    /// Routes an interaction that invokes a command to one handler.
    pub fn dispatch(&self, interaction: &CommandInteraction) -> (r: Result<Invocation, Error>)
        ensures
            match r {
                Ok(invocation) => self.routed(*interaction) == Ok::<InvocationView, Error>(invocation@),
                Err(e) => self.routed(*interaction) == Err::<InvocationView, Error>(e),
            },
    {
        generate_dispatch(&self.variants, interaction)
    }

    /// Routes whatever the platform delivers to one handler.
    pub fn dispatch_interaction(&self, interaction: &Interaction) -> (r: Result<Invocation, Error>)
        ensures
            match r {
                Ok(invocation) => self.routed_interaction(*interaction) == Ok::<InvocationView, Error>(
                    invocation@,
                ),
                Err(e) => self.routed_interaction(*interaction) == Err::<InvocationView, Error>(e),
            },
    {
        match interaction {
            Interaction::Command(command) => self.dispatch(command),
            Interaction::Autocomplete(command) => self.dispatch(command),
            _ => Err(Error::UnrecognizedCommand),
        }
    }

    /// The registration descriptor of the tree.
    pub fn create(&self) -> (r: Vec<CreateCommand>)
        ensures
            command_views(r@) == self.created(),
            forall|i: int| 0 <= i < r@.len() ==> (#[trigger] r@[i])@.hyphen_only(),
    {
        generate_create(&self.variants)
    }
}

/// The variant, or the command it leads to, breaks the rule that the error
/// `e` stands for.
pub open spec fn variant_violates(variant: VariantOpts<Command>, e: SchemaError) -> bool {
    variant.violates(e) || variant.fields.ty.violates(e)
}

/// The commands break the rule that the error `e` stands for: one of them
/// does, or two of them go under one name.
pub open spec fn variants_violate(variants: Seq<VariantOpts<Command>>, e: SchemaError) -> bool {
    (exists|i: int| 0 <= i < variants.len() && variant_violates(#[trigger] variants[i], e)) || (e
        == SchemaError::DuplicateName && !distinct_variants(variants))
}

/// Whether the commands break the rule that the error `e` stands for.
pub fn variants_break(variants: &Vec<VariantOpts<Command>>, e: SchemaError) -> (r: bool)
    ensures
        r == variants_violate(variants@, e),
{
    let mut i: usize = 0;
    while i < variants.len()
        invariant
            i <= variants.len(),
            forall|j: int| 0 <= j < i ==> !variant_violates(#[trigger] variants@[j], e),
        decreases variants.len() - i,
    {
        if variants[i].breaks(e) || variants[i].ty().breaks(e) {
            return true;
        }
        i += 1;
    }
    match e {
        SchemaError::DuplicateName => !variants_distinct(variants),
        _ => false,
    }
}

impl CommandTree {
    /// The tree breaks the rule that the error `e` stands for, at any level:
    /// an empty description, a malformed locale tag, two texts of one list
    /// under one locale, two siblings under one name, an empty set of
    /// choices, or a `default` flag on an option whose type has no fallback.
    pub open spec fn violates(self, e: SchemaError) -> bool {
        variants_violate(self.variants@, e)
    }

    /// The first rule the tree breaks, in the order in which violations are
    /// reported.
    pub open spec fn violation(self) -> Option<SchemaError> {
        first_violation(|e: SchemaError| self.violates(e))
    }

    /// The tree breaks no rule.
    pub open spec fn well_formed(self) -> bool {
        self.violation() is None
    }

    /// Whether the tree breaks the rule that the error `e` stands for.
    pub fn breaks(&self, e: SchemaError) -> (r: bool)
        ensures
            r == self.violates(e),
    {
        variants_break(&self.variants, e)
    }

    /// The tree of the declared commands, if they break no rule; else the
    /// first rule they break.
    pub fn new(variants: Vec<VariantOpts<Command>>) -> (r: Result<CommandTree, SchemaError>)
        ensures
            match r {
                Ok(tree) => tree.variants == variants && tree.well_formed(),
                Err(e) => (CommandTree { variants }).violation() == Some(e),
            },
    {
        derive(CommandTree { variants })
    }
}

/// Accepts the declaration of a tree if it breaks no rule, and hands it
/// back; else reports the first rule it breaks.
pub fn derive(input: CommandTree) -> (r: Result<CommandTree, SchemaError>)
    ensures
        match r {
            Ok(tree) => tree == input && input.well_formed(),
            Err(e) => input.violation() == Some(e),
        },
{
    if input.breaks(SchemaError::EmptyDescription) {
        Err(SchemaError::EmptyDescription)
    } else if input.breaks(SchemaError::MalformedLocale) {
        Err(SchemaError::MalformedLocale)
    } else if input.breaks(SchemaError::DuplicateLocale) {
        Err(SchemaError::DuplicateLocale)
    } else if input.breaks(SchemaError::DuplicateName) {
        Err(SchemaError::DuplicateName)
    } else if input.breaks(SchemaError::EmptyChoices) {
        Err(SchemaError::EmptyChoices)
    } else if input.breaks(SchemaError::IllegalDefault) {
        Err(SchemaError::IllegalDefault)
    } else {
        Ok(input)
    }
}

impl CommandTree {
    /// Some leaf of the tree is routed to the handler `handler`.
    pub open spec fn refers_to(self, handler: u64) -> bool {
        exists|i: int|
            0 <= i < self.variants@.len() && (#[trigger] self.variants@[i]).fields.ty.refers_to(
                handler,
            )
    }

    /// A handler that the tree refers to and that is none of the `known`
    /// ones, if there is one.
    pub fn unhandled(&self, known: &Vec<u64>) -> (r: Option<u64>)
        ensures
            match r {
                Some(handler) => self.refers_to(handler) && !known@.contains(handler),
                None => forall|handler: u64|
                    self.refers_to(handler) ==> known@.contains(handler),
            },
    {
        let mut i: usize = 0;
        while i < self.variants.len()
            invariant
                i <= self.variants.len(),
                forall|j: int, handler: u64|
                    0 <= j < i && (#[trigger] self.variants@[j]).fields.ty.refers_to(handler)
                        ==> #[trigger] known@.contains(handler),
            decreases self.variants.len() - i,
        {
            match self.variants[i].ty().unhandled(known) {
                Some(handler) => {
                    assert(self.variants@[i as int].fields.ty.refers_to(handler));
                    return Some(handler);
                },
                None => {},
            }
            i += 1;
        }
        None
    }
}

/// A tree routes to no handler but one that a leaf of it refers to: where
/// every such handler is known, every interaction that is routed finds its
/// handler.
pub proof fn lemma_routes_to_a_declared_handler(tree: CommandTree, interaction: CommandInteraction)
    ensures
        tree.routed(interaction) matches Ok(invocation) ==> tree.refers_to(invocation.handler),
{
    if let Some(i) = variant_named(tree.variants@, interaction.name@) {
        lemma_variant_named_is_a_variant(tree.variants@, interaction.name@);
        crate::command::lemma_routes_to_a_declared_handler(
            tree.variants@[i].fields.ty,
            interaction.options@,
        );
        if let Ok(invocation) = tree.variants@[i].fields.ty.routed(interaction.options@) {
            assert(tree.variants@[i].fields.ty.refers_to(invocation.handler));
        }
    }
}

/// Compiling is repeatable: two descriptors compiled from one tree are the
/// same, command by command.
pub proof fn lemma_create_is_repeatable(
    tree: CommandTree,
    first: Seq<CreateCommand>,
    second: Seq<CreateCommand>,
)
    requires
        command_views(first) == tree.created(),
        command_views(second) == tree.created(),
    ensures
        first.len() == second.len(),
        forall|i: int| 0 <= i < first.len() ==> (#[trigger] first[i])@ == second[i]@,
{
    assert(command_views(second).len() == second.len());
    assert forall|i: int| 0 <= i < first.len() implies (#[trigger] first[i])@ == second[i]@ by {
        assert(command_views(second)[i] == second[i]@);
    }
}

/// A tree routes an interaction under a name that none of its commands goes
/// under to exactly `UnrecognizedCommand`.
pub proof fn lemma_unknown_command(tree: CommandTree, interaction: CommandInteraction)
    requires
        forall|i: int|
            0 <= i < tree.variants@.len() ==> (#[trigger] tree.variants@[i]).name@
                != interaction.name@,
    ensures
        tree.routed(interaction) == Err::<InvocationView, Error>(Error::UnrecognizedCommand),
{
    let p = called(tree.variants@, interaction.name@);
    assert forall|j: int| 0 <= j < tree.variants@.len() implies !#[trigger] p(j) by {}
}

} // verus!
