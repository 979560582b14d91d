//! The registration descriptor: what the platform is told about a command.

use vstd::prelude::*;
use crate::choices::{ChoiceValue, ChoiceValueView};
use crate::common::IntOrFloat;
use crate::locale::{entries_view, hyphen_only};

verus! {

/// The type of a descriptor node, and the kind of a value in an interaction.
#[derive(Clone, Copy, Debug, PartialEq, Eq, Structural)]
pub enum CommandOptionType {
    SubCommand,
    SubCommandGroup,
    String,
    Integer,
    Boolean,
    User,
    Channel,
    Role,
    Mentionable,
    Number,
    Attachment,
    Unknown(u8),
}

/// One allowed value of an option that is restricted to choices.
#[derive(Debug, PartialEq, Eq)]
pub struct CommandOptionChoice {
    pub name: String,
    pub name_localizations: Vec<(String, String)>,
    pub value: ChoiceValue,
}

/// A choice as mathematical values.
pub struct CommandOptionChoiceView {
    pub name: Seq<char>,
    pub name_localizations: Seq<(Seq<char>, Seq<char>)>,
    pub value: ChoiceValueView,
}

impl View for CommandOptionChoice {
    type V = CommandOptionChoiceView;

    open spec fn view(&self) -> CommandOptionChoiceView {
        CommandOptionChoiceView {
            name: self.name@,
            name_localizations: entries_view(self.name_localizations@),
            value: self.value@,
        }
    }
}

/// The choices of a descriptor node, each by its view.
pub open spec fn choice_views(choices: Seq<CommandOptionChoice>) -> Seq<CommandOptionChoiceView> {
    Seq::new(choices.len(), |i: int| choices[i]@)
}

/// A descriptor node below a command: a sub-command group, a sub-command or
/// an option.
#[derive(Debug, PartialEq, Eq)]
pub struct CreateCommandOption {
    pub kind: CommandOptionType,
    pub name: String,
    pub name_localizations: Vec<(String, String)>,
    pub description: String,
    pub description_localizations: Vec<(String, String)>,
    pub required: bool,
    pub autocomplete: bool,
    pub min_value: Option<IntOrFloat>,
    pub max_value: Option<IntOrFloat>,
    pub min_length: Option<u16>,
    pub max_length: Option<u16>,
    pub choices: Vec<CommandOptionChoice>,
    pub options: Vec<CreateCommandOption>,
}

/// A descriptor node, with everything below it, as mathematical values.
pub struct CreateCommandOptionView {
    pub kind: CommandOptionType,
    pub name: Seq<char>,
    pub name_localizations: Seq<(Seq<char>, Seq<char>)>,
    pub description: Seq<char>,
    pub description_localizations: Seq<(Seq<char>, Seq<char>)>,
    pub required: bool,
    pub autocomplete: bool,
    pub min_value: Option<IntOrFloat>,
    pub max_value: Option<IntOrFloat>,
    pub min_length: Option<u16>,
    pub max_length: Option<u16>,
    pub choices: Seq<CommandOptionChoiceView>,
    pub options: Seq<CreateCommandOptionView>,
}

impl CreateCommandOption {
    /// The node and everything below it, as mathematical values.
    pub open spec fn model(self) -> CreateCommandOptionView
        decreases self,
    {
        CreateCommandOptionView {
            kind: self.kind,
            name: self.name@,
            name_localizations: entries_view(self.name_localizations@),
            description: self.description@,
            description_localizations: entries_view(self.description_localizations@),
            required: self.required,
            autocomplete: self.autocomplete,
            min_value: self.min_value,
            max_value: self.max_value,
            min_length: self.min_length,
            max_length: self.max_length,
            choices: choice_views(self.choices@),
            options: Seq::new(
                self.options@.len(),
                |i: int|
                    if 0 <= i < self.options@.len() {
                        self.options@[i].model()
                    } else {
                        arbitrary()
                    },
            ),
        }
    }

    /// A node with the given type, name and description, and nothing else:
    /// not required, no bounds, no choices, no children.
    pub fn new(kind: CommandOptionType, name: String, description: String) -> (r: Self)
        ensures
            r@ == CreateCommandOptionView::plain(kind, name@, description@),
    {
        let r = CreateCommandOption {
            kind,
            name,
            name_localizations: Vec::new(),
            description,
            description_localizations: Vec::new(),
            required: false,
            autocomplete: false,
            min_value: None,
            max_value: None,
            min_length: None,
            max_length: None,
            choices: Vec::new(),
            options: Vec::new(),
        };
        proof {
            assert(r@.description_localizations =~= Seq::empty());
            assert(r@.choices =~= Seq::empty());
            assert(r@.options =~= Seq::empty());
        }
        r
    }
}

impl View for CreateCommandOption {
    type V = CreateCommandOptionView;

    open spec fn view(&self) -> CreateCommandOptionView {
        self.model()
    }
}

/// The nodes of a list, each by its view.
pub open spec fn option_views(options: Seq<CreateCommandOption>) -> Seq<CreateCommandOptionView> {
    Seq::new(options.len(), |i: int| options[i]@)
}

/// The view of a node, field by field.
pub proof fn lemma_model_fields(o: CreateCommandOption)
    ensures
        o@.kind == o.kind,
        o@.name == o.name@,
        o@.name_localizations == entries_view(o.name_localizations@),
        o@.description == o.description@,
        o@.description_localizations == entries_view(o.description_localizations@),
        o@.required == o.required,
        o@.autocomplete == o.autocomplete,
        o@.min_value == o.min_value,
        o@.max_value == o.max_value,
        o@.min_length == o.min_length,
        o@.max_length == o.max_length,
        o@.choices == choice_views(o.choices@),
        o@.options == option_views(o.options@),
{
}

impl CreateCommandOptionView {
    /// A node with the given type, name and description, and nothing else.
    pub open spec fn plain(
        kind: CommandOptionType,
        name: Seq<char>,
        description: Seq<char>,
    ) -> Self {
        CreateCommandOptionView {
            kind,
            name,
            name_localizations: Seq::empty(),
            description,
            description_localizations: Seq::empty(),
            required: false,
            autocomplete: false,
            min_value: None,
            max_value: None,
            min_length: None,
            max_length: None,
            choices: Seq::empty(),
            options: Seq::empty(),
        }
    }

    /// No locale tag of the node, of its choices or of any node below it holds
    /// an underscore.
    pub open spec fn hyphen_only(self) -> bool
        decreases self,
    {
        &&& hyphen_only(self.name_localizations)
        &&& hyphen_only(self.description_localizations)
        &&& forall|i: int|
            0 <= i < self.choices.len() ==> hyphen_only(
                (#[trigger] self.choices[i]).name_localizations,
            )
        &&& forall|i: int|
            0 <= i < self.options.len() ==> (#[trigger] self.options[i]).hyphen_only()
    }
}

/// A descriptor node at the root: a command.
#[derive(Debug, PartialEq, Eq)]
pub struct CreateCommand {
    pub name: String,
    pub name_localizations: Vec<(String, String)>,
    pub description: String,
    pub description_localizations: Vec<(String, String)>,
    pub options: Vec<CreateCommandOption>,
}

/// A command descriptor, with everything below it, as mathematical values.
pub struct CreateCommandView {
    pub name: Seq<char>,
    pub name_localizations: Seq<(Seq<char>, Seq<char>)>,
    pub description: Seq<char>,
    pub description_localizations: Seq<(Seq<char>, Seq<char>)>,
    pub options: Seq<CreateCommandOptionView>,
}

impl View for CreateCommand {
    type V = CreateCommandView;

    open spec fn view(&self) -> CreateCommandView {
        CreateCommandView {
            name: self.name@,
            name_localizations: entries_view(self.name_localizations@),
            description: self.description@,
            description_localizations: entries_view(self.description_localizations@),
            options: option_views(self.options@),
        }
    }
}

impl CreateCommandView {
    /// No locale tag of the command or of any node below it holds an
    /// underscore.
    pub open spec fn hyphen_only(self) -> bool {
        &&& hyphen_only(self.name_localizations)
        &&& hyphen_only(self.description_localizations)
        &&& forall|i: int|
            0 <= i < self.options.len() ==> (#[trigger] self.options[i]).hyphen_only()
    }
}

/// The commands of a list, each by its view.
pub open spec fn command_views(commands: Seq<CreateCommand>) -> Seq<CreateCommandView> {
    Seq::new(commands.len(), |i: int| commands[i]@)
}

} // verus!
