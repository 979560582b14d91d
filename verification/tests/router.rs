use serein::choices::{Choice, ChoiceKind, ChoiceValue, FloatChoice, IntChoice, StringChoice};
use serein::command::Command;
use serein::command_tree::CommandTree;
use serein::common::{FieldOpts, VariantOpts};
use serein::error::{Error, SchemaError};
use serein::interaction::{CommandInteraction, ResolvedOption, ResolvedValue};
use serein::options::{CommandOption, OptionValue};
use serein::router::{run, State};
use serein::slash::{Argument, Invocation};
use serein::subcommand::SubCommand;
use serein::subsubcommand::SubSubCommand;

fn s(text: &str) -> String {
    text.to_string()
}

fn entry(name: &str, value: ResolvedValue) -> ResolvedOption {
    ResolvedOption { name: s(name), value }
}

fn tree() -> CommandTree {
    let count = FieldOpts::new("count", CommandOption::Boolean, None, "whether to count");
    let add = SubSubCommand { fields: vec![count], handler: 2 };
    let items = SubCommand::Enum { variants: vec![VariantOpts::new("Add", None, "adds", add)] };
    let show = SubCommand::Struct { fields: vec![], handler: 4 };
    let inventory = Command::Enum {
        variants: vec![
            VariantOpts::new("Items", None, "manages items", items),
            VariantOpts::new("Show", None, "shows", show),
        ],
    };
    let ping = Command::Struct { fields: vec![], handler: 1 };
    CommandTree {
        variants: vec![
            VariantOpts::new("Ping", None, "pings", ping),
            VariantOpts::new("Inventory", None, "the inventory", inventory),
        ],
    }
}

fn deep(options: Vec<ResolvedOption>) -> CommandInteraction {
    CommandInteraction {
        name: s("inventory"),
        options: vec![entry(
            "items",
            ResolvedValue::SubCommandGroup(vec![entry("add", ResolvedValue::SubCommand(options))]),
        )],
    }
}

/// The names of the states routing passes through, the start included.
fn trace(tree: &CommandTree, interaction: &CommandInteraction) -> Vec<&'static str> {
    let mut state = State::start(tree, interaction);
    let mut names = vec![];
    loop {
        names.push(match &state {
            State::AtTree(_, _) => "tree",
            State::AtCommand(_, _) => "command",
            State::AtSubCommand(_, _) => "subcommand",
            State::AtSubSubCommand(_, _) => "subsubcommand",
            State::HandlerInvoked(_) => "handler",
            State::Error(_) => "error",
        });
        if state.is_terminal() {
            return names;
        }
        state = state.step();
    }
}

#[test]
fn routing_descends_level_by_level() {
    let tree = tree();
    assert_eq!(
        trace(&tree, &deep(vec![entry("count", ResolvedValue::Boolean(true))])),
        vec!["tree", "command", "subcommand", "subsubcommand", "handler"]
    );
    let show = CommandInteraction {
        name: s("inventory"),
        options: vec![entry("show", ResolvedValue::SubCommand(vec![]))],
    };
    assert_eq!(trace(&tree, &show), vec!["tree", "command", "subcommand", "handler"]);
    let ping = CommandInteraction { name: s("ping"), options: vec![] };
    assert_eq!(trace(&tree, &ping), vec!["tree", "command", "handler"]);
}

#[test]
fn an_error_can_end_routing_at_every_level() {
    let tree = tree();
    let unknown = CommandInteraction { name: s("pong"), options: vec![] };
    assert_eq!(trace(&tree, &unknown), vec!["tree", "error"]);
    let none = CommandInteraction { name: s("inventory"), options: vec![] };
    assert_eq!(trace(&tree, &none), vec!["tree", "command", "error"]);
    let empty_group = CommandInteraction {
        name: s("inventory"),
        options: vec![entry("items", ResolvedValue::SubCommandGroup(vec![]))],
    };
    assert_eq!(trace(&tree, &empty_group), vec!["tree", "command", "subcommand", "error"]);
    assert_eq!(
        trace(&tree, &deep(vec![])),
        vec!["tree", "command", "subcommand", "subsubcommand", "error"]
    );
}

#[test]
fn final_states_stay_as_they_are() {
    let stuck = State::Error(Error::BadOptionValue).step().step();
    assert!(stuck.is_terminal());
    assert_eq!(stuck.result(), Some(Err(Error::BadOptionValue)));
    let invocation = || Invocation { handler: 5, arguments: vec![] };
    let done = State::HandlerInvoked(invocation()).step();
    assert_eq!(done.result(), Some(Ok(invocation())));
    assert_eq!(State::ended(Ok(invocation())).result(), Some(Ok(invocation())));
    assert_eq!(State::ended(Err(Error::MissingOption)).result(), Some(Err(Error::MissingOption)));
}

#[test]
fn a_state_on_the_way_has_no_result() {
    let tree = tree();
    let ping = CommandInteraction { name: s("ping"), options: vec![] };
    assert_eq!(State::start(&tree, &ping).result(), None);
    assert!(!State::start(&tree, &ping).is_terminal());
    assert_eq!(State::start(&tree, &ping).step().result(), None);
}

#[test]
fn running_the_steps_gives_what_dispatch_gives() {
    let tree = tree();
    let requests = vec![
        deep(vec![entry("count", ResolvedValue::Boolean(true))]),
        deep(vec![entry("count", ResolvedValue::Integer(1))]),
        deep(vec![]),
        CommandInteraction { name: s("ping"), options: vec![] },
        CommandInteraction { name: s("pong"), options: vec![] },
        CommandInteraction { name: s("inventory"), options: vec![] },
        CommandInteraction {
            name: s("inventory"),
            options: vec![entry("show", ResolvedValue::SubCommand(vec![]))],
        },
        CommandInteraction {
            name: s("inventory"),
            options: vec![entry("show", ResolvedValue::SubCommandGroup(vec![]))],
        },
    ];
    for request in &requests {
        assert_eq!(run(&tree, request), tree.dispatch(request));
    }
    assert_eq!(
        run(&tree, &requests[0]),
        Ok(Invocation {
            handler: 2,
            arguments: vec![Argument { ident: s("count"), value: OptionValue::Boolean(true) }]
        })
    );
    assert_eq!(run(&tree, &requests[1]), Err(Error::BadOptionType));
    assert_eq!(run(&tree, &requests[2]), Err(Error::MissingOption));
    assert_eq!(run(&tree, &requests[4]), Err(Error::UnrecognizedCommand));
}

#[test]
fn selecting_a_branch() {
    let tree = tree();
    let Command::Enum { variants } = &tree.variants[1].fields.ty else { unreachable!() };
    let show = vec![entry("show", ResolvedValue::SubCommand(vec![entry("x", ResolvedValue::Boolean(true))]))];
    let (i, below) = serein::command::select(variants, &show).unwrap();
    assert_eq!(i, 1);
    assert_eq!(below, &vec![entry("x", ResolvedValue::Boolean(true))]);
    let items = vec![entry("items", ResolvedValue::SubCommandGroup(vec![]))];
    assert_eq!(serein::command::select(variants, &items), Ok((0, &vec![])));
    let wrong = vec![entry("items", ResolvedValue::SubCommand(vec![]))];
    assert_eq!(serein::command::select(variants, &wrong), Err(Error::UnrecognizedCommand));
    assert_eq!(serein::command::select(variants, &vec![]), Err(Error::UnrecognizedCommand));

    let SubCommand::Enum { variants } = &variants[0].fields.ty else { unreachable!() };
    let add = vec![entry("add", ResolvedValue::SubCommand(vec![]))];
    assert_eq!(serein::subcommand::select(variants, &add), Ok((0, &vec![])));
    let group = vec![entry("add", ResolvedValue::SubCommandGroup(vec![]))];
    assert_eq!(serein::subcommand::select(variants, &group), Err(Error::UnrecognizedCommand));
    let unknown = vec![entry("drop", ResolvedValue::SubCommand(vec![]))];
    assert_eq!(serein::subcommand::select(variants, &unknown), Err(Error::UnrecognizedCommand));
}

fn choice(ident: &str, value: ChoiceValue) -> Choice {
    Choice { ident: s(ident), name: ident.to_lowercase(), value, names: vec![] }
}

#[test]
fn typed_sets_of_choices() {
    let colors = StringChoice {
        variants: vec![
            choice("Red", ChoiceValue::String(s("r"))),
            choice("Green", ChoiceValue::String(s("g"))),
        ],
    };
    assert_eq!(colors.from_value("g"), Ok(1));
    assert_eq!(colors.from_value("b"), Err(Error::BadOptionValue));
    let levels = IntChoice {
        variants: vec![
            choice("Low", ChoiceValue::Int(1)),
            choice("Medium", ChoiceValue::Int(2)),
            choice("High", ChoiceValue::Int(3)),
        ],
    };
    assert_eq!(levels.from_value(2), Ok(1));
    assert_eq!(levels.from_value(9), Err(Error::BadOptionValue));
    let halves = FloatChoice {
        variants: vec![
            choice("Half", ChoiceValue::Float(0.5f64.to_bits())),
            choice("Whole", ChoiceValue::Float(1.0f64.to_bits())),
        ],
    };
    assert_eq!(halves.from_value(1.0f64.to_bits()), Ok(1));
    assert_eq!(halves.from_value(2.0f64.to_bits()), Err(Error::BadOptionValue));

    let option = levels.create_with_choices(s("level"), s("how much"));
    assert_eq!(option.kind, serein::builder::CommandOptionType::Integer);
    let values: Vec<ChoiceValue> = option.choices.into_iter().map(|c| c.value).collect();
    assert_eq!(values, vec![ChoiceValue::Int(1), ChoiceValue::Int(2), ChoiceValue::Int(3)]);
    assert_eq!(
        colors.create_with_choices(s("c"), s("d")).kind,
        serein::builder::CommandOptionType::String
    );
    assert_eq!(
        halves.create_with_choices(s("c"), s("d")).kind,
        serein::builder::CommandOptionType::Number
    );
}

#[test]
fn entry_points_of_the_crate() {
    let mut low = serein::choices::VariantOpts::new("Low", None);
    low.discriminant = Some(1);
    let set = serein::derive_int_choice(&vec![low]).unwrap();
    assert_eq!(set.kind, ChoiceKind::Int);
    assert_eq!(set.variants[0].value, ChoiceValue::Int(1));
    let mut red = serein::choices::VariantOpts::new("Red", None);
    red.value = Some(ChoiceValue::String(s("r")));
    assert_eq!(serein::derive_string_choice(&vec![red]).unwrap().kind, ChoiceKind::String);
    let mut half = serein::choices::VariantOpts::new("Half", None);
    half.value = Some(ChoiceValue::Float(0.5f64.to_bits()));
    assert_eq!(serein::derive_float_choice(&vec![half]).unwrap().kind, ChoiceKind::Float);
    let bare = serein::choices::VariantOpts::new("Bare", None);
    assert_eq!(serein::derive_float_choice(&vec![bare]), Err(SchemaError::MissingChoiceValue));

    assert_eq!(serein::derive_command_tree(tree()), Ok(tree()));
    let bad = || FieldOpts::new("x", CommandOption::String, None, "");
    assert_eq!(
        serein::derive_command(Command::Struct { fields: vec![bad()], handler: 1 }),
        Err(SchemaError::EmptyDescription)
    );
    assert_eq!(
        serein::derive_subcommand(SubCommand::Struct { fields: vec![bad()], handler: 1 }),
        Err(SchemaError::EmptyDescription)
    );
    assert_eq!(
        serein::derive_subsubcommand(SubSubCommand { fields: vec![bad()], handler: 1 }),
        Err(SchemaError::EmptyDescription)
    );
    assert!(serein::derive_subsubcommand(SubSubCommand { fields: vec![], handler: 1 }).is_ok());
}
