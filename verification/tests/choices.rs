use serein::builder::{CommandOptionChoice, CommandOptionType};
use serein::choices::{
    find_value, generate_create, generate_from_resolved_value, Choice, ChoiceKind, ChoiceValue,
    Choices, VariantOpts,
};
use serein::error::{Error, SchemaError};
use serein::interaction::ResolvedValue;
use serein::options::{CommandOption, OptionValue};

fn s(text: &str) -> String {
    text.to_string()
}

fn discriminant(ident: &str, value: i64) -> VariantOpts {
    let mut variant = VariantOpts::new(ident, None);
    variant.discriminant = Some(value);
    variant
}

fn valued(ident: &str, value: ChoiceValue) -> VariantOpts {
    let mut variant = VariantOpts::new(ident, None);
    variant.value = Some(value);
    variant
}

fn levels() -> Choices {
    serein::choices::derive(
        &vec![discriminant("Low", 1), discriminant("Medium", 2), discriminant("High", 3)],
        ChoiceKind::Int,
    )
    .unwrap()
}

#[test]
fn integer_choices_resolve_by_value() {
    let set = levels();
    assert_eq!(set.from_value(&ChoiceValue::Int(2)), Ok(1));
    assert_eq!(set.variants[1].ident, "Medium");
    assert_eq!(set.from_value(&ChoiceValue::Int(1)), Ok(0));
    assert_eq!(set.from_value(&ChoiceValue::Int(3)), Ok(2));
}

#[test]
fn a_value_that_is_no_choice_is_a_bad_value() {
    let set = levels();
    assert_eq!(set.from_value(&ChoiceValue::Int(9)), Err(Error::BadOptionValue));
    assert_eq!(set.from_value(&ChoiceValue::String(s("2"))), Err(Error::BadOptionValue));
}

#[test]
fn the_descriptor_lists_the_choices_in_declaration_order() {
    let set = levels();
    let option = set.create_with_choices(s("level"), s("how much"));
    assert_eq!(option.kind, CommandOptionType::Integer);
    assert_eq!(option.name, "level");
    assert_eq!(option.description, "how much");
    assert!(option.required);
    assert_eq!(
        option.choices,
        vec![
            CommandOptionChoice {
                name: s("low"),
                name_localizations: vec![],
                value: ChoiceValue::Int(1)
            },
            CommandOptionChoice {
                name: s("medium"),
                name_localizations: vec![],
                value: ChoiceValue::Int(2)
            },
            CommandOptionChoice {
                name: s("high"),
                name_localizations: vec![],
                value: ChoiceValue::Int(3)
            },
        ]
    );
    assert!(option.options.is_empty());
    assert!(option.name_localizations.is_empty());
    assert_eq!(option.min_value, None);
    assert_eq!(option.max_length, None);
    assert!(!option.autocomplete);
}

#[test]
fn every_declared_choice_is_found_at_its_own_position() {
    let set = levels();
    let option = set.create_with_choices(s("level"), s("how much"));
    for (i, choice) in set.variants.iter().enumerate() {
        assert_eq!(set.from_value(&choice.value), Ok(i));
        assert_eq!(option.choices[i].value, choice.value);
    }
}

#[test]
fn the_name_of_a_variant_is_its_identifier_in_lower_case() {
    assert_eq!(VariantOpts::new("Medium", None).name(), "medium");
    assert_eq!(VariantOpts::new("VeryHIGH", None).name, "veryhigh");
    assert_eq!(VariantOpts::new("Ärger", None).name(), "ärger");
}

#[test]
fn an_explicit_name_is_kept_as_written() {
    let variant = VariantOpts::new("Medium", Some(s("In Between")));
    assert_eq!(variant.name(), "In Between");
    assert_eq!(variant.ident, "Medium");
}

#[test]
fn a_new_variant_declares_nothing_yet() {
    let variant = VariantOpts::new("Low", None);
    assert_eq!(variant.value, None);
    assert_eq!(variant.discriminant, None);
    assert!(variant.names.is_empty());
}

#[test]
fn a_declared_value_wins_over_the_discriminant() {
    let mut variant = discriminant("Low", 1);
    variant.value = Some(ChoiceValue::Int(10));
    assert_eq!(variant.value(ChoiceKind::Int), Ok(ChoiceValue::Int(10)));
}

#[test]
fn the_discriminant_stands_in_for_integers_only() {
    let variant = discriminant("Low", 1);
    assert_eq!(variant.value(ChoiceKind::Int), Ok(ChoiceValue::Int(1)));
    assert_eq!(variant.value(ChoiceKind::String), Err(SchemaError::MissingChoiceValue));
    assert_eq!(variant.value(ChoiceKind::Float), Err(SchemaError::MissingChoiceValue));
}

#[test]
fn a_variant_without_a_value_is_refused() {
    let variant = VariantOpts::new("Low", None);
    assert_eq!(variant.value(ChoiceKind::Int), Err(SchemaError::MissingChoiceValue));
    assert_eq!(variant.value(ChoiceKind::String), Err(SchemaError::MissingChoiceValue));
    assert_eq!(variant.value(ChoiceKind::Float), Err(SchemaError::MissingChoiceValue));
}

#[test]
fn a_value_of_another_kind_is_refused() {
    let text = valued("Low", ChoiceValue::String(s("low")));
    assert_eq!(text.value(ChoiceKind::String), Ok(ChoiceValue::String(s("low"))));
    assert_eq!(text.value(ChoiceKind::Int), Err(SchemaError::MissingChoiceValue));
    assert_eq!(text.value(ChoiceKind::Float), Err(SchemaError::MissingChoiceValue));
    let number = valued("Half", ChoiceValue::Float(0.5f64.to_bits()));
    assert_eq!(number.value(ChoiceKind::Float), Ok(ChoiceValue::Float(0.5f64.to_bits())));
    assert_eq!(number.value(ChoiceKind::Int), Err(SchemaError::MissingChoiceValue));
    // even with a discriminant at hand
    let mut both = discriminant("Low", 1);
    both.value = Some(ChoiceValue::String(s("low")));
    assert_eq!(both.value(ChoiceKind::Int), Err(SchemaError::MissingChoiceValue));
}

#[test]
fn deriving_fails_when_a_variant_has_no_value() {
    let input = vec![discriminant("Low", 1), VariantOpts::new("Medium", None)];
    assert_eq!(
        serein::choices::derive(&input, ChoiceKind::Int),
        Err(SchemaError::MissingChoiceValue)
    );
    assert_eq!(
        serein::choices::derive(&vec![discriminant("Low", 1)], ChoiceKind::String),
        Err(SchemaError::MissingChoiceValue)
    );
}

#[test]
fn deriving_keeps_what_was_declared() {
    let mut low = valued("Low", ChoiceValue::String(s("l")));
    low.names = vec![(s("pl_PL"), s("niski"))];
    let set = serein::choices::derive(&vec![low], ChoiceKind::String).unwrap();
    assert_eq!(set.kind, ChoiceKind::String);
    assert_eq!(set.default, None);
    assert_eq!(
        set.variants,
        vec![Choice {
            ident: s("Low"),
            name: s("low"),
            value: ChoiceValue::String(s("l")),
            names: vec![(s("pl_PL"), s("niski"))],
        }]
    );
}

#[test]
fn deriving_an_empty_enumeration_gives_an_empty_set() {
    let set = serein::choices::derive(&vec![], ChoiceKind::Float).unwrap();
    assert!(set.variants.is_empty());
    assert_eq!(set.from_value(&ChoiceValue::Float(0)), Err(Error::BadOptionValue));
}

#[test]
fn the_first_of_two_equal_values_wins() {
    let set = serein::choices::derive(
        &vec![discriminant("A", 5), discriminant("B", 7), discriminant("C", 5)],
        ChoiceKind::Int,
    )
    .unwrap();
    assert_eq!(set.from_value(&ChoiceValue::Int(5)), Ok(0));
    assert_eq!(find_value(&set.variants, &ChoiceValue::Int(7)), Some(1));
    assert_eq!(find_value(&set.variants, &ChoiceValue::Int(6)), None);
}

#[test]
fn text_choices_resolve_by_text() {
    let set = serein::choices::derive(
        &vec![
            valued("Red", ChoiceValue::String(s("r"))),
            valued("Green", ChoiceValue::String(s("g"))),
        ],
        ChoiceKind::String,
    )
    .unwrap();
    assert_eq!(set.from_value(&ChoiceValue::String(s("g"))), Ok(1));
    assert_eq!(set.from_value(&ChoiceValue::String(s("G"))), Err(Error::BadOptionValue));
    assert_eq!(
        generate_from_resolved_value(&set.variants, set.kind, &ResolvedValue::String(s("r"))),
        Ok(0)
    );
    assert_eq!(
        generate_from_resolved_value(&set.variants, set.kind, &ResolvedValue::Integer(0)),
        Err(Error::BadOptionType)
    );
}

#[test]
fn number_choices_resolve_as_numbers() {
    let set = serein::choices::derive(
        &vec![
            valued("Zero", ChoiceValue::Float(0.0f64.to_bits())),
            valued("Half", ChoiceValue::Float(0.5f64.to_bits())),
            valued("Endless", ChoiceValue::Float(f64::INFINITY.to_bits())),
        ],
        ChoiceKind::Float,
    )
    .unwrap();
    assert_eq!(set.from_value(&ChoiceValue::Float(0.5f64.to_bits())), Ok(1));
    assert_eq!(set.from_value(&ChoiceValue::Float((-0.0f64).to_bits())), Ok(0));
    assert_eq!(set.from_value(&ChoiceValue::Float(f64::INFINITY.to_bits())), Ok(2));
    assert_eq!(
        set.from_value(&ChoiceValue::Float(f64::NEG_INFINITY.to_bits())),
        Err(Error::BadOptionValue)
    );
    assert_eq!(
        set.from_value(&ChoiceValue::Float(f64::NAN.to_bits())),
        Err(Error::BadOptionValue)
    );
    assert_eq!(
        generate_from_resolved_value(
            &set.variants,
            set.kind,
            &ResolvedValue::Number(0.5f64.to_bits())
        ),
        Ok(1)
    );
    assert_eq!(
        generate_from_resolved_value(&set.variants, set.kind, &ResolvedValue::Integer(0)),
        Err(Error::BadOptionType)
    );
}

#[test]
fn a_choice_option_decodes_to_the_position_of_the_choice() {
    let ty = CommandOption::Choice(levels());
    assert_eq!(ty.try_from_resolved_value(&ResolvedValue::Integer(2)), Ok(OptionValue::Choice(1)));
    assert_eq!(ty.try_from_resolved_value(&ResolvedValue::Integer(9)), Err(Error::BadOptionValue));
    assert_eq!(
        ty.try_from_resolved_value(&ResolvedValue::String(s("2"))),
        Err(Error::BadOptionType)
    );
    assert_eq!(
        ty.try_from_resolved_value(&ResolvedValue::Number(2.0f64.to_bits())),
        Err(Error::BadOptionType)
    );
}

#[test]
fn the_kind_of_a_set_gives_the_type_of_its_option() {
    assert_eq!(ChoiceKind::String.option_type_variant(), CommandOptionType::String);
    assert_eq!(ChoiceKind::Int.option_type_variant(), CommandOptionType::Integer);
    assert_eq!(ChoiceKind::Float.option_type_variant(), CommandOptionType::Number);
    assert_eq!(ChoiceKind::String.resolved_value_variant(), CommandOptionType::String);
    assert_eq!(ChoiceKind::Int.resolved_value_variant(), CommandOptionType::Integer);
    assert_eq!(ChoiceKind::Float.resolved_value_variant(), CommandOptionType::Number);
}

#[test]
fn localized_choice_names_are_sent_under_normalized_tags() {
    let mut low = discriminant("Low", 1);
    low.names = vec![(s("pl_PL"), s("niski")), (s("de"), s("niedrig"))];
    let set = serein::choices::derive(&vec![low], ChoiceKind::Int).unwrap();
    let option = generate_create(&set.variants, set.kind, s("level"), s("how much"));
    assert_eq!(
        option.choices[0].name_localizations,
        vec![(s("pl-PL"), s("niski")), (s("de"), s("niedrig"))]
    );
}

#[test]
fn values_of_different_kinds_are_never_the_same() {
    assert!(ChoiceValue::Int(1).same(&ChoiceValue::Int(1)));
    assert!(!ChoiceValue::Int(1).same(&ChoiceValue::Int(2)));
    assert!(!ChoiceValue::Int(0).same(&ChoiceValue::Float(0)));
    assert!(!ChoiceValue::String(s("1")).same(&ChoiceValue::Int(1)));
    assert!(ChoiceValue::String(s("a")).same(&ChoiceValue::String(s("a"))));
    assert!(ChoiceValue::Float(0).same(&ChoiceValue::Float(1u64 << 63)));
}

#[test]
fn a_locale_tag_of_a_choice_can_be_malformed() {
    let mut low = discriminant("Low", 1);
    low.names = vec![(s("pl PL"), s("niski"))];
    let set = serein::choices::derive(&vec![discriminant("High", 3), low], ChoiceKind::Int).unwrap();
    assert!(set.has_malformed_locale());
    assert!(!levels().has_malformed_locale());
}

#[test]
fn a_nan_is_no_value_of_a_choice() {
    let nothing = valued("Nothing", ChoiceValue::Float(f64::NAN.to_bits()));
    assert_eq!(nothing.value(ChoiceKind::Float), Err(SchemaError::MissingChoiceValue));
    let negative = valued("Nothing", ChoiceValue::Float((-f64::NAN).to_bits()));
    assert_eq!(negative.value(ChoiceKind::Float), Err(SchemaError::MissingChoiceValue));
    let half = valued("Half", ChoiceValue::Float(0.5f64.to_bits()));
    assert_eq!(
        serein::choices::derive(&vec![half, nothing], ChoiceKind::Float),
        Err(SchemaError::MissingChoiceValue)
    );
    let endless = valued("Endless", ChoiceValue::Float(f64::INFINITY.to_bits()));
    assert_eq!(
        endless.value(ChoiceKind::Float),
        Ok(ChoiceValue::Float(f64::INFINITY.to_bits()))
    );
}

#[test]
fn every_choice_of_a_derived_set_of_numbers_is_found() {
    let values = [0.0f64, 0.5, -0.5, 1e300, f64::INFINITY, f64::NEG_INFINITY, 5e-324];
    let input: Vec<VariantOpts> =
        values.iter().map(|v| valued("V", ChoiceValue::Float(v.to_bits()))).collect();
    let set = serein::choices::derive(&input, ChoiceKind::Float).unwrap();
    for (i, v) in values.iter().enumerate() {
        assert_eq!(set.from_value(&ChoiceValue::Float(v.to_bits())), Ok(i));
    }
}

#[test]
fn two_names_of_a_choice_under_one_locale() {
    let mut low = discriminant("Low", 1);
    low.names = vec![(s("pl_PL"), s("niski")), (s("pl-PL"), s("maly"))];
    let set = serein::choices::derive(&vec![discriminant("High", 3), low], ChoiceKind::Int).unwrap();
    assert!(set.has_duplicate_locale());
    assert!(!set.has_malformed_locale());
    assert!(!levels().has_duplicate_locale());
}
