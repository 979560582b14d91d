//! Options restricted to a closed set of values.

use vstd::prelude::*;
use vstd::string::*;
use crate::builder::{
    CommandOptionChoice, CommandOptionChoiceView, CommandOptionType, CreateCommandOption,
    CreateCommandOptionView,
};
use crate::common::{clone_entries, derive_name, derived_name};
use crate::error::{Error, SchemaError};
use crate::interaction::ResolvedValue;
use crate::locale::{
    all_well_formed, are_well_formed, distinct_tags, entries_view, hyphen_only, localized,
    normalize_all, tags_distinct,
};
use crate::number::{equal_numbers, is_nan, numbers_equal};
use crate::search::{first_index, lemma_first_index_is};

verus! {

/// The kind of values a set of choices is made of.
#[derive(Clone, Copy, Debug, PartialEq, Eq, Structural)]
pub enum ChoiceKind {
    String,
    Int,
    Float,
}

/// The value of a choice.  A number is carried by its bit pattern.
#[derive(Debug, PartialEq, Eq)]
pub enum ChoiceValue {
    String(String),
    Int(i64),
    Float(u64),
}

/// The value of a choice as a mathematical value.
pub enum ChoiceValueView {
    String(Seq<char>),
    Int(i64),
    Float(u64),
}

impl View for ChoiceValue {
    type V = ChoiceValueView;

    open spec fn view(&self) -> ChoiceValueView {
        match self {
            ChoiceValue::String(s) => ChoiceValueView::String(s@),
            ChoiceValue::Int(v) => ChoiceValueView::Int(*v),
            ChoiceValue::Float(b) => ChoiceValueView::Float(*b),
        }
    }
}

impl Clone for ChoiceValue {
    fn clone(&self) -> (r: Self)
        ensures
            r@ == self@,
    {
        match self {
            ChoiceValue::String(s) => ChoiceValue::String(s.clone()),
            ChoiceValue::Int(v) => ChoiceValue::Int(*v),
            ChoiceValue::Float(b) => ChoiceValue::Float(*b),
        }
    }
}

/// The two values are of one kind and equal: texts character by character,
/// integers as integers, numbers as numbers (so that the two zeros are equal
/// and a NaN equals nothing).
pub open spec fn same_value(a: ChoiceValueView, b: ChoiceValueView) -> bool {
    match (a, b) {
        (ChoiceValueView::String(x), ChoiceValueView::String(y)) => x == y,
        (ChoiceValueView::Int(x), ChoiceValueView::Int(y)) => x == y,
        (ChoiceValueView::Float(x), ChoiceValueView::Float(y)) => equal_numbers(x, y),
        _ => false,
    }
}

impl ChoiceValue {
    /// Whether the two values are of one kind and equal.
    pub fn same(&self, other: &ChoiceValue) -> (r: bool)
        ensures
            r == same_value(self@, other@),
    {
        match (self, other) {
            (ChoiceValue::String(x), ChoiceValue::String(y)) => *x == *y,
            (ChoiceValue::Int(x), ChoiceValue::Int(y)) => *x == *y,
            (ChoiceValue::Float(x), ChoiceValue::Float(y)) => numbers_equal(*x, *y),
            _ => false,
        }
    }
}

impl ChoiceKind {
    /// The value is of this kind: a text, an integer, or a number.  A NaN
    /// is no number; as it equals nothing, it could never be chosen.
    pub open spec fn holds(self, value: ChoiceValueView) -> bool {
        match (self, value) {
            (ChoiceKind::String, ChoiceValueView::String(_)) => true,
            (ChoiceKind::Int, ChoiceValueView::Int(_)) => true,
            (ChoiceKind::Float, ChoiceValueView::Float(bits)) => !is_nan(bits),
            _ => false,
        }
    }

    /// The descriptor type of an option whose choices are of this kind, which
    /// is also the kind of resolved value that carries one.
    pub open spec fn option_type(&self) -> CommandOptionType {
        match *self {
            ChoiceKind::String => CommandOptionType::String,
            ChoiceKind::Int => CommandOptionType::Integer,
            ChoiceKind::Float => CommandOptionType::Number,
        }
    }

    /// The kind of resolved value that carries a choice of this kind.
    #[verifier::when_used_as_spec(option_type)]
    pub fn resolved_value_variant(&self) -> (r: CommandOptionType)
        ensures
            r == self.option_type(),
    {
        match self {
            ChoiceKind::String => CommandOptionType::String,
            ChoiceKind::Int => CommandOptionType::Integer,
            ChoiceKind::Float => CommandOptionType::Number,
        }
    }

    /// The descriptor type of an option whose choices are of this kind.
    #[verifier::when_used_as_spec(option_type)]
    pub fn option_type_variant(&self) -> (r: CommandOptionType)
        ensures
            r == self.option_type(),
    {
        self.resolved_value_variant()
    }
}

/// The declaration of one variant of a choice enumeration.
#[derive(Debug, PartialEq, Eq)]
pub struct VariantOpts {
    /// The identifier of the variant.
    pub ident: String,
    /// The integer the variant stands for in the enumeration, where it
    /// declares one.
    pub discriminant: Option<i64>,
    /// The name shown for the choice.
    pub name: String,
    /// The value declared for the choice.
    pub value: Option<ChoiceValue>,
    /// Localized names, by locale tag.
    pub names: Vec<(String, String)>,
}

impl VariantOpts {
    /// A variant with the given identifier, shown under `name` or, where
    /// none is given, under the identifier in lower case; with no value and
    /// no localized names yet.
    pub fn new(ident: &str, name: Option<String>) -> (r: Self)
        ensures
            r.ident@ == ident@,
            r.name@ == derived_name(ident@, name),
            r.discriminant is None,
            r.value is None,
            r.names@.len() == 0,
    {
        VariantOpts {
            ident: String::from_str(ident),
            discriminant: None,
            name: derive_name(ident, name),
            value: None,
            names: Vec::new(),
        }
    }

    /// The name shown for the choice.
    pub fn name(&self) -> (r: String)
        ensures
            r@ == self.name@,
    {
        self.name.clone()
    }

    /// The value the variant stands for in a set of the given kind: the
    /// declared value if it is of that kind (a NaN is of none); for
    /// integers, failing a declared value, the discriminant.
    pub open spec fn declared_value(self, kind: ChoiceKind) -> Option<ChoiceValueView> {
        match self.value {
            Some(v) => if kind.holds(v@) {
                Some(v@)
            } else {
                None
            },
            None => match (kind, self.discriminant) {
                (ChoiceKind::Int, Some(d)) => Some(ChoiceValueView::Int(d)),
                _ => None,
            },
        }
    }

    /// The value the variant stands for in a set of the given kind, or
    /// `MissingChoiceValue` where it declares none.
    pub fn value(&self, kind: ChoiceKind) -> (r: Result<ChoiceValue, SchemaError>)
        ensures
            match r {
                Ok(v) => self.declared_value(kind) == Some(v@),
                Err(e) => e == SchemaError::MissingChoiceValue && self.declared_value(kind)
                    is None,
            },
    {
        match &self.value {
            Some(v) => match (kind, v) {
                (ChoiceKind::String, ChoiceValue::String(_)) => Ok(v.clone()),
                (ChoiceKind::Int, ChoiceValue::Int(_)) => Ok(v.clone()),
                (ChoiceKind::Float, ChoiceValue::Float(bits)) => if numbers_equal(*bits, *bits) {
                    Ok(v.clone())
                } else {
                    Err(SchemaError::MissingChoiceValue)
                },
                _ => Err(SchemaError::MissingChoiceValue),
            },
            None => match (kind, self.discriminant) {
                (ChoiceKind::Int, Some(d)) => Ok(ChoiceValue::Int(d)),
                _ => Err(SchemaError::MissingChoiceValue),
            },
        }
    }
}

/// One choice of a set: a variant with its value settled.
#[derive(Debug, PartialEq, Eq)]
pub struct Choice {
    pub ident: String,
    pub name: String,
    pub value: ChoiceValue,
    pub names: Vec<(String, String)>,
}

/// A set of choices, in the order of declaration.
#[derive(Debug, PartialEq, Eq)]
pub struct Choices {
    pub kind: ChoiceKind,
    pub variants: Vec<Choice>,
    /// The variant an option falls back to when it is flagged `default`, if
    /// the set names one.
    pub default: Option<usize>,
}

/// The choice as the descriptor lists it.
pub open spec fn choice_descriptor(choice: Choice) -> CommandOptionChoiceView {
    CommandOptionChoiceView {
        name: choice.name@,
        name_localizations: localized(choice.names@),
        value: choice.value@,
    }
}

/// The choices as the descriptor lists them: the choices in the order of
/// declaration.
pub open spec fn choice_descriptors(variants: Seq<Choice>) -> Seq<CommandOptionChoiceView> {
    Seq::new(variants.len(), |i: int| choice_descriptor(variants[i]))
}

/// The descriptor of an option with these choices: of the type of their
/// kind, required, listing the choices.
pub open spec fn created(
    variants: Seq<Choice>,
    kind: ChoiceKind,
    name: Seq<char>,
    desc: Seq<char>,
) -> CreateCommandOptionView {
    CreateCommandOptionView {
        required: true,
        choices: choice_descriptors(variants),
        ..CreateCommandOptionView::plain(kind.option_type_variant(), name, desc)
    }
}

/// Choice `i` has the value `raw`.
pub open spec fn matching(variants: Seq<Choice>, raw: ChoiceValueView) -> spec_fn(int) -> bool {
    |i: int| same_value(variants[i].value@, raw)
}

/// The first choice with the value `raw`, if there is one.
pub open spec fn position(variants: Seq<Choice>, raw: ChoiceValueView) -> Option<int> {
    first_index(variants.len() as int, matching(variants, raw))
}

/// The raw value that a resolved value carries for a set of the given kind,
/// if its tag is the one of that kind.
pub open spec fn carried(kind: ChoiceKind, value: ResolvedValue) -> Option<ChoiceValueView> {
    match (kind, value) {
        (ChoiceKind::String, ResolvedValue::String(s)) => Some(ChoiceValueView::String(s@)),
        (ChoiceKind::Int, ResolvedValue::Integer(v)) => Some(ChoiceValueView::Int(v)),
        (ChoiceKind::Float, ResolvedValue::Number(b)) => Some(ChoiceValueView::Float(b)),
        _ => None,
    }
}

/// What a resolved value decodes to: the position of the first choice with
/// its value; `BadOptionType` where its tag is not the one of the kind,
/// `BadOptionValue` where no choice has its value.
pub open spec fn resolved(variants: Seq<Choice>, kind: ChoiceKind, value: ResolvedValue) -> Result<
    int,
    Error,
> {
    match carried(kind, value) {
        None => Err(Error::BadOptionType),
        Some(raw) => match position(variants, raw) {
            Some(i) => Ok(i),
            None => Err(Error::BadOptionValue),
        },
    }
}

/// The position of the first choice with the value `raw`.
pub fn find_value(variants: &Vec<Choice>, raw: &ChoiceValue) -> (r: Option<usize>)
    ensures
        match r {
            Some(i) => position(variants@, raw@) == Some(i as int) && i < variants.len(),
            None => position(variants@, raw@) is None,
        },
{
    let ghost p = matching(variants@, raw@);
    let mut i: usize = 0;
    while i < variants.len()
        invariant
            i <= variants.len(),
            p == matching(variants@, raw@),
            forall|j: int| 0 <= j < i ==> !#[trigger] p(j),
        decreases variants.len() - i,
    {
        if variants[i].value.same(raw) {
            proof {
                lemma_first_index_is(variants@.len() as int, p, i as int);
            }
            return Some(i);
        }
        i += 1;
    }
    None
}

/// The declared variants hold a value each for a set of the given kind.
pub open spec fn all_valued(input: Seq<VariantOpts>, kind: ChoiceKind) -> bool {
    forall|i: int| 0 <= i < input.len() ==> (#[trigger] input[i]).declared_value(kind) is Some
}

/// The set holds the declared variants with their values, in the order of
/// declaration.
pub open spec fn holds_declared(set: Choices, input: Seq<VariantOpts>) -> bool {
    &&& set.variants@.len() == input.len()
    &&& forall|i: int|
        0 <= i < input.len() ==> {
            &&& input[i].declared_value(set.kind) == Some((#[trigger] set.variants@[i]).value@)
            &&& set.variants@[i].ident@ == input[i].ident@
            &&& set.variants@[i].name@ == input[i].name@
            &&& entries_view(set.variants@[i].names@) == entries_view(input[i].names@)
        }
}

/// Builds the set of choices of the given kind from the declared variants,
/// in the order of declaration.  Fails with `MissingChoiceValue` if, and
/// only if, some variant declares no value of that kind.
pub fn derive(input: &Vec<VariantOpts>, kind: ChoiceKind) -> (r: Result<Choices, SchemaError>)
    ensures
        r is Ok <==> all_valued(input@, kind),
        match r {
            Ok(set) => set.kind == kind && set.default is None && set.well_typed()
                && holds_declared(set, input@),
            Err(e) => e == SchemaError::MissingChoiceValue,
        },
{
    let mut variants: Vec<Choice> = Vec::new();
    let mut i: usize = 0;
    while i < input.len()
        invariant
            i <= input.len(),
            variants@.len() == i,
            forall|j: int| 0 <= j < i ==> (#[trigger] input@[j]).declared_value(kind) is Some,
            forall|j: int|
                0 <= j < i ==> {
                    &&& input@[j].declared_value(kind) == Some((#[trigger] variants@[j]).value@)
                    &&& variants@[j].ident@ == input@[j].ident@
                    &&& variants@[j].name@ == input@[j].name@
                    &&& entries_view(variants@[j].names@) == entries_view(input@[j].names@)
                },
        decreases input.len() - i,
    {
        let variant = &input[i];
        match variant.value(kind) {
            Ok(value) => {
                variants.push(
                    Choice {
                        ident: variant.ident.clone(),
                        name: variant.name(),
                        value,
                        names: clone_entries(&variant.names),
                    },
                );
            },
            Err(e) => {
                return Err(e);
            },
        }
        i += 1;
    }
    let set = Choices { kind, variants, default: None };
    proof {
        assert forall|j: int| 0 <= j < set.variants@.len() implies kind.holds(
            (#[trigger] set.variants@[j]).value@,
        ) by {}
    }
    Ok(set)
}

/// Decodes a resolved value against the choices: to the position of the
/// first choice with its value.
pub fn generate_from_resolved_value(
    variants: &Vec<Choice>,
    kind: ChoiceKind,
    value: &ResolvedValue,
) -> (r: Result<usize, Error>)
    ensures
        match r {
            Ok(i) => resolved(variants@, kind, *value) == Ok::<int, Error>(i as int) && i
                < variants.len(),
            Err(e) => resolved(variants@, kind, *value) == Err::<int, Error>(e),
        },
        r == Err::<usize, Error>(Error::BadOptionType) <==> carried(kind, *value) is None,
{
    let raw = match (kind, value) {
        (ChoiceKind::String, ResolvedValue::String(s)) => ChoiceValue::String(s.clone()),
        (ChoiceKind::Int, ResolvedValue::Integer(v)) => ChoiceValue::Int(*v),
        (ChoiceKind::Float, ResolvedValue::Number(b)) => ChoiceValue::Float(*b),
        _ => {
            return Err(Error::BadOptionType);
        },
    };
    match find_value(variants, &raw) {
        Some(i) => Ok(i),
        None => Err(Error::BadOptionValue),
    }
}

/// The descriptor of an option with these choices.
pub fn generate_create(variants: &Vec<Choice>, kind: ChoiceKind, name: String, desc: String) -> (r:
    CreateCommandOption)
    ensures
        r@ == created(variants@, kind, name@, desc@),
        r@.hyphen_only(),
{
    let mut choices: Vec<CommandOptionChoice> = Vec::new();
    let mut i: usize = 0;
    while i < variants.len()
        invariant
            i <= variants.len(),
            choices@.len() == i,
            forall|j: int|
                0 <= j < i ==> (#[trigger] choices@[j])@ == choice_descriptor(variants@[j]),
        decreases variants.len() - i,
    {
        let variant = &variants[i];
        choices.push(
            CommandOptionChoice {
                name: variant.name.clone(),
                name_localizations: normalize_all(&variant.names),
                value: variant.value.clone(),
            },
        );
        i += 1;
    }
    let option = CreateCommandOption {
        kind: kind.option_type_variant(),
        name,
        name_localizations: Vec::new(),
        description: desc,
        description_localizations: Vec::new(),
        required: true,
        autocomplete: false,
        min_value: None,
        max_value: None,
        min_length: None,
        max_length: None,
        choices,
        options: Vec::new(),
    };
    proof {
        let want = created(variants@, kind, name@, desc@);
        assert(option@.choices =~= want.choices);
        assert(option@.description_localizations =~= want.description_localizations);
        assert(option@.options =~= want.options);
        assert forall|k: int| 0 <= k < option@.choices.len() implies hyphen_only(
            (#[trigger] option@.choices[k]).name_localizations,
        ) by {}
    }
    option
}

impl Choices {
    /// Every choice is of the kind of the set.
    pub open spec fn well_typed(self) -> bool {
        forall|i: int|
            0 <= i < self.variants@.len() ==> self.kind.holds((#[trigger] self.variants@[i]).value@)
    }

    /// No two choices have the same value.
    pub open spec fn distinct(self) -> bool {
        forall|i: int, j: int|
            0 <= i < j < self.variants@.len() ==> !same_value(
                (#[trigger] self.variants@[i]).value@,
                (#[trigger] self.variants@[j]).value@,
            )
    }

    /// Some choice has a localized name under a malformed locale tag.
    pub open spec fn malformed_locale(self) -> bool {
        exists|i: int|
            0 <= i < self.variants@.len() && !all_well_formed((#[trigger] self.variants@[i]).names@)
    }

    /// Whether some choice has a localized name under a malformed locale
    /// tag.
    pub fn has_malformed_locale(&self) -> (r: bool)
        ensures
            r == self.malformed_locale(),
    {
        let mut i: usize = 0;
        while i < self.variants.len()
            invariant
                i <= self.variants.len(),
                forall|j: int|
                    0 <= j < i ==> all_well_formed((#[trigger] self.variants@[j]).names@),
            decreases self.variants.len() - i,
        {
            if !are_well_formed(&self.variants[i].names) {
                return true;
            }
            i += 1;
        }
        false
    }

    /// Some choice has two localized names under the same locale.
    pub open spec fn duplicate_locale(self) -> bool {
        exists|i: int|
            0 <= i < self.variants@.len() && !distinct_tags((#[trigger] self.variants@[i]).names@)
    }

    /// Whether some choice has two localized names under the same locale.
    pub fn has_duplicate_locale(&self) -> (r: bool)
        ensures
            r == self.duplicate_locale(),
    {
        let mut i: usize = 0;
        while i < self.variants.len()
            invariant
                i <= self.variants.len(),
                forall|j: int| 0 <= j < i ==> distinct_tags((#[trigger] self.variants@[j]).names@),
            decreases self.variants.len() - i,
        {
            if !tags_distinct(&self.variants[i].names) {
                return true;
            }
            i += 1;
        }
        false
    }

    /// The position of the first choice with the value `value`, or
    /// `BadOptionValue` where no choice has it.
    pub fn from_value(&self, value: &ChoiceValue) -> (r: Result<usize, Error>)
        ensures
            match r {
                Ok(i) => position(self.variants@, value@) == Some(i as int) && i
                    < self.variants.len(),
                Err(e) => e == Error::BadOptionValue && position(self.variants@, value@) is None,
            },
    {
        match find_value(&self.variants, value) {
            Some(i) => Ok(i),
            None => Err(Error::BadOptionValue),
        }
    }

    /// The descriptor of an option restricted to these choices.
    pub fn create_with_choices(&self, name: String, desc: String) -> (r: CreateCommandOption)
        ensures
            r@ == created(self.variants@, self.kind, name@, desc@),
            r@.hyphen_only(),
    {
        generate_create(&self.variants, self.kind, name, desc)
    }
}

/// A declared choice is found by its own value, and the descriptor lists it
/// at the position of its declaration: for every choice whose value is of
/// the kind of the set and equals the value of no choice declared before it.
pub proof fn lemma_declared_choice_is_found(
    variants: Seq<Choice>,
    kind: ChoiceKind,
    name: Seq<char>,
    desc: Seq<char>,
    i: int,
)
    requires
        0 <= i < variants.len(),
        kind.holds(variants[i].value@),
        forall|j: int|
            0 <= j < i ==> !same_value((#[trigger] variants[j]).value@, variants[i].value@),
    ensures
        position(variants, variants[i].value@) == Some(i),
        created(variants, kind, name, desc).choices.len() == variants.len(),
        created(variants, kind, name, desc).choices[i].value == variants[i].value@,
        created(variants, kind, name, desc).choices[i].name == variants[i].name@,
{
    let p = matching(variants, variants[i].value@);
    assert forall|j: int| 0 <= j < i implies !#[trigger] p(j) by {}
    lemma_first_index_is(variants.len() as int, p, i);
}

/// In a set whose values are pairwise different, a resolved value that
/// carries the value of a declared choice decodes to that choice.
pub proof fn lemma_distinct_choices_decode(set: Choices, value: ResolvedValue, i: int)
    requires
        set.distinct(),
        0 <= i < set.variants@.len(),
        carried(set.kind, value) is Some,
        same_value(set.variants@[i].value@, carried(set.kind, value)->0),
    ensures
        resolved(set.variants@, set.kind, value) == Ok::<int, Error>(i),
{
    let raw = carried(set.kind, value)->0;
    let p = matching(set.variants@, raw);
    assert forall|j: int| 0 <= j < i implies !#[trigger] p(j) by {}
    lemma_first_index_is(set.variants@.len() as int, p, i);
}

/// A set of choices whose values are texts.
#[derive(Debug, PartialEq, Eq)]
pub struct StringChoice {
    pub variants: Vec<Choice>,
}

/// A set of choices whose values are integers.
#[derive(Debug, PartialEq, Eq)]
pub struct IntChoice {
    pub variants: Vec<Choice>,
}

/// A set of choices whose values are double-precision numbers.
#[derive(Debug, PartialEq, Eq)]
pub struct FloatChoice {
    pub variants: Vec<Choice>,
}

impl StringChoice {
    /// The position of the first choice with the text `value`, or
    /// `BadOptionValue` where no choice has it.
    pub fn from_value(&self, value: &str) -> (r: Result<usize, Error>)
        ensures
            match r {
                Ok(i) => position(self.variants@, ChoiceValueView::String(value@)) == Some(
                    i as int,
                ) && i < self.variants.len(),
                Err(e) => e == Error::BadOptionValue && position(
                    self.variants@,
                    ChoiceValueView::String(value@),
                ) is None,
            },
    {
        match find_value(&self.variants, &ChoiceValue::String(String::from_str(value))) {
            Some(i) => Ok(i),
            None => Err(Error::BadOptionValue),
        }
    }

    /// The descriptor of a text option restricted to these choices.
    pub fn create_with_choices(&self, name: String, desc: String) -> (r: CreateCommandOption)
        ensures
            r@ == created(self.variants@, ChoiceKind::String, name@, desc@),
            r@.hyphen_only(),
    {
        generate_create(&self.variants, ChoiceKind::String, name, desc)
    }
}

impl IntChoice {
    /// The position of the first choice with the integer `value`, or
    /// `BadOptionValue` where no choice has it.
    pub fn from_value(&self, value: i64) -> (r: Result<usize, Error>)
        ensures
            match r {
                Ok(i) => position(self.variants@, ChoiceValueView::Int(value)) == Some(i as int)
                    && i < self.variants.len(),
                Err(e) => e == Error::BadOptionValue && position(
                    self.variants@,
                    ChoiceValueView::Int(value),
                ) is None,
            },
    {
        match find_value(&self.variants, &ChoiceValue::Int(value)) {
            Some(i) => Ok(i),
            None => Err(Error::BadOptionValue),
        }
    }

    /// The descriptor of an integer option restricted to these choices.
    pub fn create_with_choices(&self, name: String, desc: String) -> (r: CreateCommandOption)
        ensures
            r@ == created(self.variants@, ChoiceKind::Int, name@, desc@),
            r@.hyphen_only(),
    {
        generate_create(&self.variants, ChoiceKind::Int, name, desc)
    }
}

impl FloatChoice {
    /// The position of the first choice that equals, as a number, the one
    /// with the bit pattern `value`; or `BadOptionValue` where no choice
    /// does.
    pub fn from_value(&self, value: u64) -> (r: Result<usize, Error>)
        ensures
            match r {
                Ok(i) => position(self.variants@, ChoiceValueView::Float(value)) == Some(i as int)
                    && i < self.variants.len(),
                Err(e) => e == Error::BadOptionValue && position(
                    self.variants@,
                    ChoiceValueView::Float(value),
                ) is None,
            },
    {
        match find_value(&self.variants, &ChoiceValue::Float(value)) {
            Some(i) => Ok(i),
            None => Err(Error::BadOptionValue),
        }
    }

    /// The descriptor of a number option restricted to these choices.
    pub fn create_with_choices(&self, name: String, desc: String) -> (r: CreateCommandOption)
        ensures
            r@ == created(self.variants@, ChoiceKind::Float, name@, desc@),
            r@.hyphen_only(),
    {
        generate_create(&self.variants, ChoiceKind::Float, name, desc)
    }
}

} // verus!
