use serein::choices::ChoiceKind;
use serein::command::Command;
use serein::command_tree::CommandTree;
use serein::common::{fields_break, fields_distinct, variants_distinct, FieldOpts, VariantOpts};
use serein::error::SchemaError;
use serein::locale::tags_distinct;
use serein::options::{CommandOption, IntegerType};
use serein::subcommand::SubCommand;
use serein::subsubcommand::SubSubCommand;

fn s(text: &str) -> String {
    text.to_string()
}

fn field(ident: &str) -> FieldOpts {
    FieldOpts::new(ident, CommandOption::String, None, "an option")
}

fn choices(idents: &[&str]) -> CommandOption {
    let mut input = vec![];
    for (i, ident) in idents.iter().enumerate() {
        let mut variant = serein::choices::VariantOpts::new(ident, None);
        variant.discriminant = Some(i as i64);
        input.push(variant);
    }
    CommandOption::Choice(serein::choices::derive(&input, ChoiceKind::Int).unwrap())
}

/// A tree of three levels whose only option is the given one.
fn tree_with(option: FieldOpts) -> CommandTree {
    let leaf = SubSubCommand { fields: vec![field("first"), option], handler: 1 };
    let group = SubCommand::Enum { variants: vec![VariantOpts::new("Leaf", None, "a leaf", leaf)] };
    let command =
        Command::Enum { variants: vec![VariantOpts::new("Group", None, "a group", group)] };
    CommandTree { variants: vec![VariantOpts::new("Command", None, "a command", command)] }
}

const RULES: [SchemaError; 7] = [
    SchemaError::EmptyDescription,
    SchemaError::MalformedLocale,
    SchemaError::DuplicateLocale,
    SchemaError::DuplicateName,
    SchemaError::EmptyChoices,
    SchemaError::IllegalDefault,
    SchemaError::MissingChoiceValue,
];

fn broken(tree: &CommandTree) -> Vec<SchemaError> {
    RULES.iter().copied().filter(|e| tree.breaks(*e)).collect()
}

#[test]
fn a_sound_tree_is_accepted_and_handed_back() {
    let tree = tree_with(field("second"));
    assert_eq!(broken(&tree), vec![]);
    let same = tree_with(field("second"));
    assert_eq!(serein::command_tree::derive(tree), Ok(same));
    let variants = tree_with(field("second")).variants;
    assert_eq!(CommandTree::new(variants), Ok(tree_with(field("second"))));
    assert_eq!(CommandTree::new(vec![]), Ok(CommandTree { variants: vec![] }));
}

#[test]
fn an_empty_description_of_an_option_is_refused() {
    let tree = tree_with(FieldOpts::new("second", CommandOption::String, None, ""));
    assert_eq!(broken(&tree), vec![SchemaError::EmptyDescription]);
    assert_eq!(serein::command_tree::derive(tree), Err(SchemaError::EmptyDescription));
}

#[test]
fn an_empty_description_of_a_variant_is_refused_at_every_level() {
    let mut tree = tree_with(field("second"));
    tree.variants[0].desc = s("");
    assert_eq!(CommandTree::new(tree.variants), Err(SchemaError::EmptyDescription));

    let mut tree = tree_with(field("second"));
    if let Command::Enum { variants } = &mut tree.variants[0].fields.ty {
        variants[0].desc = s("");
    }
    assert_eq!(CommandTree::new(tree.variants), Err(SchemaError::EmptyDescription));

    let mut tree = tree_with(field("second"));
    if let Command::Enum { variants } = &mut tree.variants[0].fields.ty {
        if let SubCommand::Enum { variants } = &mut variants[0].fields.ty {
            variants[0].desc = s("");
        }
    }
    assert_eq!(CommandTree::new(tree.variants), Err(SchemaError::EmptyDescription));
}

#[test]
fn a_malformed_locale_tag_is_refused() {
    let mut option = field("second");
    option.names = vec![(s("en"), s("x")), (s("pl__PL"), s("y"))];
    assert_eq!(CommandTree::new(tree_with(option).variants), Err(SchemaError::MalformedLocale));

    let mut option = field("second");
    option.descs = vec![(s(""), s("x"))];
    assert_eq!(CommandTree::new(tree_with(option).variants), Err(SchemaError::MalformedLocale));

    let mut tree = tree_with(field("second"));
    tree.variants[0].descs = vec![(s("en US"), s("x"))];
    assert_eq!(broken(&tree), vec![SchemaError::MalformedLocale]);

    let mut tree = tree_with(field("second"));
    if let Command::Enum { variants } = &mut tree.variants[0].fields.ty {
        variants[0].names = vec![(s("-en"), s("x"))];
    }
    assert_eq!(broken(&tree), vec![SchemaError::MalformedLocale]);
}

#[test]
fn a_malformed_locale_tag_of_a_choice_is_refused() {
    let mut ty = choices(&["Low", "High"]);
    if let CommandOption::Choice(set) = &mut ty {
        set.variants[1].names = vec![(s("pl_"), s("wysoki"))];
    }
    let option = FieldOpts::new(
        "second",
        CommandOption::Optional(Box::new(ty)),
        None,
        "an option",
    );
    assert_eq!(CommandTree::new(tree_with(option).variants), Err(SchemaError::MalformedLocale));
}

#[test]
fn underscore_tags_are_well_formed_declarations() {
    let mut option = field("second");
    option.names = vec![(s("pl_PL"), s("x")), (s("zh_Hant_TW"), s("y"))];
    assert!(CommandTree::new(tree_with(option).variants).is_ok());
}

#[test]
fn two_options_under_one_name_are_refused() {
    let tree = tree_with(field("first"));
    assert_eq!(broken(&tree), vec![SchemaError::DuplicateName]);
    assert_eq!(serein::command_tree::derive(tree), Err(SchemaError::DuplicateName));
    // names are compared as they are sent
    let tree = tree_with(field("FIRST"));
    assert_eq!(serein::command_tree::derive(tree), Err(SchemaError::DuplicateName));
    let tree = tree_with(FieldOpts::new("second", CommandOption::String, Some(s("first")), "d"));
    assert_eq!(serein::command_tree::derive(tree), Err(SchemaError::DuplicateName));
}

#[test]
fn two_variants_under_one_name_are_refused_at_every_level() {
    let leaf = || SubSubCommand { fields: vec![], handler: 1 };
    let command = || Command::Struct { fields: vec![], handler: 1 };

    let tree = CommandTree {
        variants: vec![
            VariantOpts::new("a", None, "d", command()),
            VariantOpts::new("b", None, "d", command()),
            VariantOpts::new("A", None, "d", command()),
        ],
    };
    assert_eq!(serein::command_tree::derive(tree), Err(SchemaError::DuplicateName));

    let twice = Command::Enum {
        variants: vec![
            VariantOpts::new("x", None, "d", SubCommand::Struct { fields: vec![], handler: 1 }),
            VariantOpts::new("x", None, "d", SubCommand::Enum { variants: vec![] }),
        ],
    };
    assert_eq!(serein::command::derive(twice), Err(SchemaError::DuplicateName));

    let twice = SubCommand::Enum {
        variants: vec![VariantOpts::new("x", None, "d", leaf()), VariantOpts::new("x", None, "d", leaf())],
    };
    assert_eq!(serein::subcommand::derive(twice), Err(SchemaError::DuplicateName));
}

#[test]
fn the_same_name_at_different_levels_is_fine() {
    let leaf = SubSubCommand { fields: vec![field("x")], handler: 1 };
    let group = SubCommand::Enum { variants: vec![VariantOpts::new("x", None, "d", leaf)] };
    let command = Command::Enum { variants: vec![VariantOpts::new("x", None, "d", group)] };
    let tree = CommandTree { variants: vec![VariantOpts::new("x", None, "d", command)] };
    assert!(serein::command_tree::derive(tree).is_ok());
}

#[test]
fn an_empty_set_of_choices_is_refused() {
    let option = FieldOpts::new("second", choices(&[]), None, "an option");
    let tree = tree_with(option);
    assert_eq!(broken(&tree), vec![SchemaError::EmptyChoices]);
    assert_eq!(serein::command_tree::derive(tree), Err(SchemaError::EmptyChoices));
    let wrapped = FieldOpts::new(
        "second",
        CommandOption::Optional(Box::new(choices(&[]))),
        None,
        "an option",
    );
    assert_eq!(
        serein::command_tree::derive(tree_with(wrapped)),
        Err(SchemaError::EmptyChoices)
    );
}

#[test]
fn a_default_flag_needs_a_fallback() {
    let flagged = |ty: CommandOption| {
        let mut option = FieldOpts::new("second", ty, None, "an option");
        option.default = true;
        serein::command_tree::derive(tree_with(option)).map(|_| ())
    };
    assert_eq!(flagged(CommandOption::String), Ok(()));
    assert_eq!(flagged(CommandOption::Integer(IntegerType::U16)), Ok(()));
    assert_eq!(flagged(CommandOption::Boolean), Ok(()));
    assert_eq!(flagged(CommandOption::Number), Ok(()));
    assert_eq!(flagged(CommandOption::User), Ok(()));
    assert_eq!(flagged(CommandOption::Role), Ok(()));
    assert_eq!(flagged(CommandOption::UserId), Ok(()));
    assert_eq!(flagged(CommandOption::Optional(Box::new(CommandOption::Attachment))), Ok(()));
    assert_eq!(flagged(CommandOption::PartialMember), Err(SchemaError::IllegalDefault));
    assert_eq!(flagged(CommandOption::UserWithMember), Err(SchemaError::IllegalDefault));
    assert_eq!(flagged(CommandOption::PartialChannel), Err(SchemaError::IllegalDefault));
    assert_eq!(flagged(CommandOption::Attachment), Err(SchemaError::IllegalDefault));
    assert_eq!(flagged(choices(&["Low"])), Err(SchemaError::IllegalDefault));
    let mut with_default = choices(&["Low"]);
    if let CommandOption::Choice(set) = &mut with_default {
        set.default = Some(0);
    }
    assert_eq!(flagged(with_default), Ok(()));
}

#[test]
fn violations_are_reported_in_a_fixed_order() {
    // breaks every rule at once
    let mut option = FieldOpts::new("first", choices(&[]), None, "");
    option.names = vec![(s("_"), s("x")), (s("pl_PL"), s("y")), (s("pl-PL"), s("z"))];
    option.default = true;
    let mut tree = tree_with(option);
    assert_eq!(
        broken(&tree),
        vec![
            SchemaError::EmptyDescription,
            SchemaError::MalformedLocale,
            SchemaError::DuplicateLocale,
            SchemaError::DuplicateName,
            SchemaError::EmptyChoices,
            SchemaError::IllegalDefault,
        ]
    );
    let leaf = |tree: &mut CommandTree, change: &dyn Fn(&mut FieldOpts)| {
        if let Command::Enum { variants } = &mut tree.variants[0].fields.ty {
            if let SubCommand::Enum { variants } = &mut variants[0].fields.ty {
                change(&mut variants[0].fields.ty.fields[1]);
            }
        }
    };
    let report = |tree: &CommandTree| RULES.iter().copied().find(|e| tree.breaks(*e));
    assert_eq!(report(&tree), Some(SchemaError::EmptyDescription));
    leaf(&mut tree, &|f| f.desc = s("d"));
    assert_eq!(report(&tree), Some(SchemaError::MalformedLocale));
    leaf(&mut tree, &|f| f.names = vec![(s("pl_PL"), s("y")), (s("pl-PL"), s("z"))]);
    assert_eq!(report(&tree), Some(SchemaError::DuplicateLocale));
    leaf(&mut tree, &|f| f.names = vec![(s("pl_PL"), s("y"))]);
    assert_eq!(report(&tree), Some(SchemaError::DuplicateName));
    leaf(&mut tree, &|f| f.name = s("second"));
    assert_eq!(report(&tree), Some(SchemaError::EmptyChoices));
    assert_eq!(serein::command_tree::derive(tree), Err(SchemaError::EmptyChoices));
}

#[test]
fn every_level_can_be_checked_on_its_own() {
    let bad = || {
        let mut option = field("x");
        option.desc = s("");
        option
    };
    let leaf = SubSubCommand { fields: vec![bad()], handler: 1 };
    assert_eq!(serein::subsubcommand::derive(leaf), Err(SchemaError::EmptyDescription));
    let leaf = SubSubCommand { fields: vec![field("x")], handler: 1 };
    assert_eq!(
        serein::subsubcommand::derive(leaf),
        Ok(SubSubCommand { fields: vec![field("x")], handler: 1 })
    );
    let sub = SubCommand::Struct { fields: vec![bad()], handler: 1 };
    assert_eq!(serein::subcommand::derive(sub), Err(SchemaError::EmptyDescription));
    let sub = SubCommand::Struct { fields: vec![field("x")], handler: 1 };
    assert!(serein::subcommand::derive(sub).is_ok());
    let command = Command::Struct { fields: vec![bad()], handler: 1 };
    assert_eq!(serein::command::derive(command), Err(SchemaError::EmptyDescription));
    let command = Command::Struct { fields: vec![field("x"), field("y")], handler: 1 };
    assert!(serein::command::derive(command).is_ok());
}

#[test]
fn distinct_names() {
    assert!(fields_distinct(&vec![]));
    assert!(fields_distinct(&vec![field("a"), field("b"), field("c")]));
    assert!(!fields_distinct(&vec![field("a"), field("b"), field("a")]));
    assert!(!fields_distinct(&vec![field("a"), field("b"), field("b")]));
    let leaf = || SubSubCommand { fields: vec![], handler: 1 };
    assert!(variants_distinct(&vec![
        VariantOpts::new("a", None, "d", leaf()),
        VariantOpts::new("b", None, "d", leaf())
    ]));
    assert!(!variants_distinct(&vec![
        VariantOpts::new("a", None, "d", leaf()),
        VariantOpts::new("a", None, "d", leaf())
    ]));
    assert!(fields_break(&vec![field("a"), field("a")], SchemaError::DuplicateName));
    assert!(!fields_break(&vec![field("a"), field("a")], SchemaError::EmptyChoices));
    assert!(!fields_break(&vec![field("a"), field("a")], SchemaError::MissingChoiceValue));
}

#[test]
fn two_texts_under_one_locale_are_refused() {
    // the same tag twice
    let mut option = field("second");
    option.names = vec![(s("en"), s("x")), (s("de"), s("y")), (s("en"), s("z"))];
    let tree = tree_with(option);
    assert_eq!(broken(&tree), vec![SchemaError::DuplicateLocale]);
    assert_eq!(serein::command_tree::derive(tree), Err(SchemaError::DuplicateLocale));

    // two tags that are sent as one
    let mut option = field("second");
    option.descs = vec![(s("pl_PL"), s("x")), (s("pl-PL"), s("y"))];
    assert_eq!(CommandTree::new(tree_with(option).variants), Err(SchemaError::DuplicateLocale));

    // on a variant, at every level
    let mut tree = tree_with(field("second"));
    tree.variants[0].names = vec![(s("zh_TW"), s("x")), (s("zh-TW"), s("y"))];
    assert_eq!(broken(&tree), vec![SchemaError::DuplicateLocale]);
    let mut tree = tree_with(field("second"));
    if let Command::Enum { variants } = &mut tree.variants[0].fields.ty {
        variants[0].descs = vec![(s("fr"), s("x")), (s("fr"), s("y"))];
    }
    assert_eq!(broken(&tree), vec![SchemaError::DuplicateLocale]);
    let mut tree = tree_with(field("second"));
    if let Command::Enum { variants } = &mut tree.variants[0].fields.ty {
        if let SubCommand::Enum { variants } = &mut variants[0].fields.ty {
            variants[0].names = vec![(s("fr"), s("x")), (s("fr"), s("y"))];
        }
    }
    assert_eq!(broken(&tree), vec![SchemaError::DuplicateLocale]);

    // on a choice
    let mut ty = choices(&["Low", "High"]);
    if let CommandOption::Choice(set) = &mut ty {
        set.variants[1].names = vec![(s("pl_PL"), s("wysoki")), (s("pl-PL"), s("duzy"))];
    }
    let option = FieldOpts::new("second", ty, None, "an option");
    assert_eq!(CommandTree::new(tree_with(option).variants), Err(SchemaError::DuplicateLocale));
}

#[test]
fn the_same_locale_in_different_lists_is_fine() {
    let mut option = field("second");
    option.names = vec![(s("pl_PL"), s("x")), (s("en-US"), s("y"))];
    option.descs = vec![(s("pl-PL"), s("x")), (s("en_US"), s("y"))];
    assert!(CommandTree::new(tree_with(option).variants).is_ok());
}

#[test]
fn tags_are_compared_as_they_are_sent() {
    assert!(tags_distinct(&vec![]));
    assert!(tags_distinct(&vec![(s("pl_PL"), s("x"))]));
    assert!(tags_distinct(&vec![(s("pl_PL"), s("x")), (s("pl"), s("x")), (s("en-US"), s("x"))]));
    assert!(!tags_distinct(&vec![(s("pl_PL"), s("x")), (s("en"), s("y")), (s("pl-PL"), s("z"))]));
    assert!(!tags_distinct(&vec![(s("a_b_c"), s("x")), (s("a-b_c"), s("y"))]));
    assert!(tags_distinct(&vec![(s("en-US"), s("x")), (s("en-us"), s("y"))]));
}

#[test]
fn handlers_without_a_handler_are_found() {
    let tree = CommandTree {
        variants: vec![
            VariantOpts::new("ping", None, "d", Command::Struct { fields: vec![], handler: 1 }),
            VariantOpts::new(
                "inventory",
                None,
                "d",
                Command::Enum {
                    variants: vec![
                        VariantOpts::new(
                            "items",
                            None,
                            "d",
                            SubCommand::Enum {
                                variants: vec![
                                    VariantOpts::new(
                                        "add",
                                        None,
                                        "d",
                                        SubSubCommand { fields: vec![], handler: 2 },
                                    ),
                                    VariantOpts::new(
                                        "remove",
                                        None,
                                        "d",
                                        SubSubCommand { fields: vec![], handler: 3 },
                                    ),
                                ],
                            },
                        ),
                        VariantOpts::new(
                            "show",
                            None,
                            "d",
                            SubCommand::Struct { fields: vec![], handler: 4 },
                        ),
                    ],
                },
            ),
        ],
    };
    assert_eq!(tree.unhandled(&vec![1, 2, 3, 4]), None);
    assert_eq!(tree.unhandled(&vec![4, 9, 3, 2, 1]), None);
    assert_eq!(tree.unhandled(&vec![]), Some(1));
    assert_eq!(tree.unhandled(&vec![1]), Some(2));
    assert_eq!(tree.unhandled(&vec![1, 2]), Some(3));
    assert_eq!(tree.unhandled(&vec![1, 2, 3]), Some(4));
    assert_eq!(tree.unhandled(&vec![2, 3, 4]), Some(1));
    assert_eq!(tree.variants[1].ty().unhandled(&vec![2, 4]), Some(3));
    assert_eq!(tree.variants[0].ty().unhandled(&vec![2, 4]), Some(1));
    assert_eq!(tree.variants[0].ty().unhandled(&vec![1]), None);
    assert_eq!(CommandTree { variants: vec![] }.unhandled(&vec![]), None);
    assert!(serein::common::knows(&vec![3, 5], 5));
    assert!(!serein::common::knows(&vec![3, 5], 4));
}
