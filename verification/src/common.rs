//! What the levels of the hierarchy share: the declaration of an option, the
//! declaration of a variant, and the descriptors of a structure's options.

use vstd::prelude::*;
use vstd::string::*;
use crate::builder::{
    lemma_model_fields, option_views, CommandOptionType, CreateCommandOption,
    CreateCommandOptionView,
};
use crate::error::{Error, SchemaError};
use crate::interaction::ResolvedOption;
use crate::locale::{
    all_well_formed, are_well_formed, distinct_sent, distinct_tags, entries_view,
    lemma_localized_distinct, localized, normalize_all, tags_distinct,
};
use crate::options::{
    lemma_accepted_is_not_bad_type, lemma_rejected_is_bad_type, CommandOption, OptionValue,
    OptionValueView,
};
use crate::search::{
    first_index, last_index, lemma_first_index, lemma_first_index_is, lemma_last_index_is,
};
use crate::slash::{argument_views, Argument, Invocation, InvocationView};

verus! {

/// The lowercase equivalent of a text, as `str::to_lowercase` gives it.
pub uninterp spec fn lowercase(text: Seq<char>) -> Seq<char>;

/// `str::to_lowercase`: the lowercase equivalent of the text, as a new
/// string.  What that is, character by character, is left to the standard
/// library; the contract only gives it its name.
#[verifier::external_body]
fn to_lowercase(text: &str) -> (r: String)
    ensures
        r@ == lowercase(text@),
{
    text.to_lowercase()
}

/// The name under which a declared item goes: the explicit name where one is
/// given, else the identifier in lower case.
pub open spec fn derived_name(ident: Seq<char>, name: Option<String>) -> Seq<char> {
    match name {
        Some(explicit) => explicit@,
        None => lowercase(ident),
    }
}

/// The name under which a declared item goes.
pub fn derive_name(ident: &str, name: Option<String>) -> (r: String)
    ensures
        r@ == derived_name(ident@, name),
{
    match name {
        Some(explicit) => explicit,
        None => to_lowercase(ident),
    }
}

/// A copy of a list of localized texts.
pub fn clone_entries(entries: &Vec<(String, String)>) -> (r: Vec<(String, String)>)
    ensures
        entries_view(r@) == entries_view(entries@),
{
    let mut out: Vec<(String, String)> = Vec::new();
    let mut i: usize = 0;
    while i < entries.len()
        invariant
            i <= entries.len(),
            out@.len() == i,
            forall|j: int|
                0 <= j < i ==> (#[trigger] out@[j]).0@ == entries@[j].0@ && out@[j].1@
                    == entries@[j].1@,
        decreases entries.len() - i,
    {
        out.push((entries[i].0.clone(), entries[i].1.clone()));
        i += 1;
    }
    out
}

/// A bound on a numeric option: an integer, or a double-precision number by
/// its bit pattern.
#[derive(Clone, Copy, Debug, PartialEq, Eq, Structural)]
pub enum IntOrFloat {
    Int(i64),
    Float(u64),
}

/// The declaration of an option: a field of a structure.
#[derive(Debug, PartialEq, Eq)]
pub struct FieldOpts {
    /// The identifier of the field; the decoded argument goes under it.
    pub ident: String,
    /// The type of the option.
    pub ty: CommandOption,
    /// The name of the option as the platform knows it.
    pub name: String,
    /// The description of the option.
    pub desc: String,
    /// Localized names, by locale tag.
    pub names: Vec<(String, String)>,
    /// Localized descriptions, by locale tag.
    pub descs: Vec<(String, String)>,
    /// Whether an absent value is replaced with the fallback of the type.
    pub default: bool,
    /// The least value, for a numeric option.
    pub min_value: Option<IntOrFloat>,
    /// The greatest value, for a numeric option.
    pub max_value: Option<IntOrFloat>,
    /// The least length, for a text option.
    pub min_length: Option<u16>,
    /// The greatest length, for a text option.
    pub max_length: Option<u16>,
    /// Whether the platform asks for completions while the option is typed.
    pub autocomplete: bool,
}

/// The single field of a variant: the type the variant wraps.
#[derive(Debug, PartialEq, Eq)]
pub struct VariantFieldOpts<T> {
    pub ty: T,
}

/// The declaration of a variant of an enumeration: a named branch, with the
/// node it leads to.
#[derive(Debug, PartialEq, Eq)]
pub struct VariantOpts<T> {
    /// The identifier of the variant.
    pub ident: String,
    /// The node the variant leads to.
    pub fields: VariantFieldOpts<T>,
    /// The name of the branch as the platform knows it.
    pub name: String,
    /// The description of the branch.
    pub desc: String,
    /// Localized names, by locale tag.
    pub names: Vec<(String, String)>,
    /// Localized descriptions, by locale tag.
    pub descs: Vec<(String, String)>,
}

impl<T> VariantOpts<T> {
    /// A variant with the given identifier, known under `name` or, where
    /// none is given, under the identifier in lower case; without localized
    /// texts.
    pub fn new(ident: &str, name: Option<String>, desc: &str, ty: T) -> (r: Self)
        ensures
            r.ident@ == ident@,
            r.name@ == derived_name(ident@, name),
            r.desc@ == desc@,
            r.fields.ty == ty,
            r.names@.len() == 0,
            r.descs@.len() == 0,
    {
        VariantOpts {
            ident: String::from_str(ident),
            fields: VariantFieldOpts { ty },
            name: derive_name(ident, name),
            desc: String::from_str(desc),
            names: Vec::new(),
            descs: Vec::new(),
        }
    }

    /// The name of the branch as the platform knows it.
    pub fn name(&self) -> (r: String)
        ensures
            r@ == self.name@,
    {
        self.name.clone()
    }

    /// The node the variant leads to.
    pub fn ty(&self) -> (r: &T)
        ensures
            *r == self.fields.ty,
    {
        &self.fields.ty
    }
}

/// Variant `i` goes under the name `name`.
pub open spec fn called<T>(variants: Seq<VariantOpts<T>>, name: Seq<char>) -> spec_fn(int) -> bool {
    |i: int| variants[i].name@ == name
}

/// The first variant that goes under the name `name`, if there is one.
pub open spec fn variant_named<T>(variants: Seq<VariantOpts<T>>, name: Seq<char>) -> Option<int> {
    first_index(variants.len() as int, called(variants, name))
}

/// The position of the first variant that goes under the name `name`.
pub fn find_variant<T>(variants: &Vec<VariantOpts<T>>, name: &String) -> (r: Option<usize>)
    ensures
        match r {
            Some(i) => variant_named(variants@, name@) == Some(i as int) && i < variants.len()
                && variants@[i as int].name@ == name@,
            None => variant_named(variants@, name@) is None,
        },
{
    let ghost p = called(variants@, name@);
    let mut i: usize = 0;
    while i < variants.len()
        invariant
            i <= variants.len(),
            p == called(variants@, name@),
            forall|j: int| 0 <= j < i ==> !#[trigger] p(j),
        decreases variants.len() - i,
    {
        if variants[i].name == *name {
            proof {
                lemma_first_index_is(variants@.len() as int, p, i as int);
            }
            return Some(i);
        }
        i += 1;
    }
    None
}

/// Entry `i` of the interaction goes under the name `name`.
pub open spec fn named(opts: Seq<ResolvedOption>, name: Seq<char>) -> spec_fn(int) -> bool {
    |i: int| opts[i].name@ == name
}

/// The entry that supplies the value of the option `name`: the last one
/// under that name, if there is one.
pub open spec fn supplied(opts: Seq<ResolvedOption>, name: Seq<char>) -> Option<int> {
    last_index(opts.len() as int, named(opts, name))
}

/// The position of the last entry under the name `name`.
pub fn find_option(opts: &Vec<ResolvedOption>, name: &String) -> (r: Option<usize>)
    ensures
        match r {
            Some(i) => supplied(opts@, name@) == Some(i as int) && i < opts.len(),
            None => supplied(opts@, name@) is None,
        },
{
    let ghost p = named(opts@, name@);
    let mut i: usize = opts.len();
    while i > 0
        invariant
            i <= opts.len(),
            p == named(opts@, name@),
            forall|j: int| i <= j < opts.len() ==> !#[trigger] p(j),
        decreases i,
    {
        i -= 1;
        if opts[i].name == *name {
            proof {
                lemma_last_index_is(opts@.len() as int, p, i as int);
            }
            return Some(i);
        }
    }
    None
}

impl FieldOpts {
    /// An option with the given identifier, type and description, known
    /// under `name` or, where none is given, under the identifier in lower
    /// case; not flagged, without bounds and without localized texts.
    pub fn new(ident: &str, ty: CommandOption, name: Option<String>, desc: &str) -> (r: Self)
        ensures
            r.ident@ == ident@,
            r.ty == ty,
            r.name@ == derived_name(ident@, name),
            r.desc@ == desc@,
            r.names@.len() == 0,
            r.descs@.len() == 0,
            !r.default,
            !r.autocomplete,
            r.min_value is None,
            r.max_value is None,
            r.min_length is None,
            r.max_length is None,
    {
        FieldOpts {
            ident: String::from_str(ident),
            ty,
            name: derive_name(ident, name),
            desc: String::from_str(desc),
            names: Vec::new(),
            descs: Vec::new(),
            default: false,
            min_value: None,
            max_value: None,
            min_length: None,
            max_length: None,
            autocomplete: false,
        }
    }

    /// The name of the option as the platform knows it.
    pub fn name(&self) -> (r: String)
        ensures
            r@ == self.name@,
    {
        self.name.clone()
    }

    /// The option takes numeric bounds: its descriptor type is integer or
    /// number.
    pub open spec fn numeric(self) -> bool {
        self.ty.option_type() == CommandOptionType::Integer || self.ty.option_type()
            == CommandOptionType::Number
    }

    /// The option takes length bounds: its descriptor type is text.
    pub open spec fn textual(self) -> bool {
        self.ty.option_type() == CommandOptionType::String
    }

    /// The descriptor of the option: that of its type under the option's
    /// name and description, with the localized texts under normalized tags;
    /// not required where the option is flagged `default`; with the bounds
    /// that fit the type, and no others.
    pub open spec fn descriptor(self) -> CreateCommandOptionView {
        let base = self.ty.created(self.name@, self.desc@);
        CreateCommandOptionView {
            name_localizations: localized(self.names@),
            description_localizations: localized(self.descs@),
            required: base.required && !self.default,
            autocomplete: self.autocomplete,
            min_value: if self.numeric() {
                self.min_value
            } else {
                None
            },
            max_value: if self.numeric() {
                self.max_value
            } else {
                None
            },
            min_length: if self.textual() {
                self.min_length
            } else {
                None
            },
            max_length: if self.textual() {
                self.max_length
            } else {
                None
            },
            ..base
        }
    }

    /// What the option comes to when the interaction holds no value for it:
    /// the fallback of its type where it is flagged `default` and the type
    /// has one; else no value where the type may be left out; else
    /// `MissingOption`.
    pub open spec fn missing(self) -> Result<OptionValueView, Error> {
        if self.default && self.ty.fallback() is Some {
            Ok(self.ty.fallback()->0)
        } else {
            self.ty.absent()
        }
    }

    /// What the option comes to for the entries `opts`: the decoding of the
    /// last entry under its name, or what it comes to without a value.
    pub open spec fn argument(self, opts: Seq<ResolvedOption>) -> Result<OptionValueView, Error> {
        match supplied(opts, self.name@) {
            Some(i) => self.ty.decoded(opts[i].value),
            None => self.missing(),
        }
    }

    /// Decodes the option from the entries `opts`.
    pub fn decode(&self, opts: &Vec<ResolvedOption>) -> (r: Result<OptionValue, Error>)
        ensures
            match r {
                Ok(v) => self.argument(opts@) == Ok::<OptionValueView, Error>(v@),
                Err(e) => self.argument(opts@) == Err::<OptionValueView, Error>(e),
            },
    {
        match find_option(opts, &self.name) {
            Some(i) => self.ty.try_from_resolved_value(&opts[i].value),
            None => {
                if self.default {
                    match self.ty.default_value() {
                        Some(v) => {
                            return Ok(v);
                        },
                        None => {},
                    }
                }
                self.ty.try_from_missing_value()
            },
        }
    }
}

/// The descriptors of the options of a structure, in the order of
/// declaration.
pub open spec fn field_descriptors(fields: Seq<FieldOpts>) -> Seq<CreateCommandOptionView> {
    Seq::new(fields.len(), |i: int| fields[i].descriptor())
}

/// The descriptor of a sub-command that is a structure of options.
pub open spec fn struct_descriptor(
    fields: Seq<FieldOpts>,
    name: Seq<char>,
    desc: Seq<char>,
) -> CreateCommandOptionView {
    CreateCommandOptionView {
        options: field_descriptors(fields),
        ..CreateCommandOptionView::plain(CommandOptionType::SubCommand, name, desc)
    }
}

/// What the descriptor of a type holds besides its type tag, its name, its
/// description, its `required` flag and its choices: nothing.
pub proof fn lemma_created_fields(ty: CommandOption, name: Seq<char>, desc: Seq<char>)
    ensures
        ({
            let base = ty.created(name, desc);
            &&& base.kind == ty.option_type()
            &&& base.name == name
            &&& base.description == desc
            &&& base.name_localizations.len() == 0
            &&& base.description_localizations.len() == 0
            &&& base.required == !ty.optional()
            &&& !base.autocomplete
            &&& base.min_value is None
            &&& base.max_value is None
            &&& base.min_length is None
            &&& base.max_length is None
            &&& base.options.len() == 0
        }),
    decreases ty,
{
    match ty {
        CommandOption::Optional(inner) => {
            lemma_created_fields(*inner, name, desc);
        },
        _ => {},
    }
}

/// The descriptor of one option.
pub fn generate_opt_create(field: &FieldOpts) -> (r: CreateCommandOption)
    ensures
        r@ == field.descriptor(),
        r@.hyphen_only(),
{
    let mut option = field.ty.create(field.name(), field.desc.clone());
    proof {
        lemma_created_fields(field.ty, field.name@, field.desc@);
    }
    option.name_localizations = normalize_all(&field.names);
    option.description_localizations = normalize_all(&field.descs);
    if field.default {
        option.required = false;
    }
    option.autocomplete = field.autocomplete;
    match option.kind {
        CommandOptionType::Integer | CommandOptionType::Number => {
            option.min_value = field.min_value;
            option.max_value = field.max_value;
        },
        CommandOptionType::String => {
            option.min_length = field.min_length;
            option.max_length = field.max_length;
        },
        _ => {},
    }
    option
}

/// The descriptors of the options of a structure, in the order of
/// declaration.
pub fn generate_opt_creates(fields: &Vec<FieldOpts>) -> (r: Vec<CreateCommandOption>)
    ensures
        option_views(r@) == field_descriptors(fields@),
        forall|i: int| 0 <= i < r@.len() ==> (#[trigger] r@[i])@.hyphen_only(),
{
    let mut sub_opt_creates: Vec<CreateCommandOption> = Vec::new();
    let mut i: usize = 0;
    while i < fields.len()
        invariant
            i <= fields.len(),
            sub_opt_creates@.len() == i,
            forall|j: int|
                0 <= j < i ==> (#[trigger] sub_opt_creates@[j])@ == fields@[j].descriptor()
                    && sub_opt_creates@[j]@.hyphen_only(),
        decreases fields.len() - i,
    {
        sub_opt_creates.push(generate_opt_create(&fields[i]));
        i += 1;
    }
    sub_opt_creates
}

/// The descriptor of a sub-command that is a structure of options: of type
/// sub-command, with the descriptors of the options below it.
pub fn generate_sub_or_subsub_create_from_struct(
    fields: &Vec<FieldOpts>,
    name: String,
    desc: String,
) -> (r: CreateCommandOption)
    ensures
        r@ == struct_descriptor(fields@, name@, desc@),
        r@.hyphen_only(),
{
    let sub_opt_creates = generate_opt_creates(fields);
    let mut option = CreateCommandOption::new(CommandOptionType::SubCommand, name, desc);
    option.options = sub_opt_creates;
    proof {
        lemma_model_fields(option);
        assert forall|i: int| 0 <= i < option@.options.len() implies (
        #[trigger] option@.options[i]).hyphen_only() by {}
    }
    option
}

/// Option `i` of the structure fails on the entries `opts`.
pub open spec fn failing(
    fields: Seq<FieldOpts>,
    opts: Seq<ResolvedOption>) -> spec_fn(int,
) -> bool {
    |i: int| fields[i].argument(opts) is Err
}

/// The record of a structure for the entries `opts`: every option decoded,
/// in the order of declaration; or the error of the first option that fails.
pub open spec fn arguments(fields: Seq<FieldOpts>, opts: Seq<ResolvedOption>) -> Result<
    Seq<(Seq<char>, OptionValueView)>,
    Error,
> {
    match first_index(fields.len() as int, failing(fields, opts)) {
        Some(i) => Err(fields[i].argument(opts)->Err_0),
        None => Ok(
            Seq::new(fields.len(), |i: int| (fields[i].ident@, fields[i].argument(opts)->Ok_0)),
        ),
    }
}

/// Decodes the options of a structure from the entries `opts`.
pub fn decode_fields(fields: &Vec<FieldOpts>, opts: &Vec<ResolvedOption>) -> (r: Result<
    Vec<Argument>,
    Error,
>)
    ensures
        match r {
            Ok(record) => arguments(fields@, opts@) == Ok::<
                Seq<(Seq<char>, OptionValueView)>,
                Error,
            >(argument_views(record@)),
            Err(e) => arguments(fields@, opts@) == Err::<Seq<(Seq<char>, OptionValueView)>, Error>(
                e,
            ),
        },
{
    let ghost p = failing(fields@, opts@);
    let mut record: Vec<Argument> = Vec::new();
    let mut i: usize = 0;
    while i < fields.len()
        invariant
            i <= fields.len(),
            p == failing(fields@, opts@),
            record@.len() == i,
            forall|j: int| 0 <= j < i ==> !#[trigger] p(j),
            forall|j: int|
                0 <= j < i ==> (#[trigger] record@[j])@ == (
                    fields@[j].ident@,
                    fields@[j].argument(opts@)->Ok_0,
                ),
        decreases fields.len() - i,
    {
        match fields[i].decode(opts) {
            Ok(value) => {
                record.push(Argument { ident: fields[i].ident.clone(), value });
            },
            Err(e) => {
                proof {
                    lemma_first_index_is(fields@.len() as int, p, i as int);
                }
                return Err(e);
            },
        }
        i += 1;
    }
    proof {
        assert(argument_views(record@) =~= Seq::new(
            fields@.len(),
            |i: int| (fields@[i].ident@, fields@[i].argument(opts@)->Ok_0),
        ));
    }
    Ok(record)
}

/// Where a structure routes the entries `opts`: to its handler, with the
/// record of its options; or to the error of the first option that fails.
pub open spec fn struct_routed(
    fields: Seq<FieldOpts>,
    handler: u64,
    opts: Seq<ResolvedOption>,
) -> Result<InvocationView, Error> {
    match arguments(fields, opts) {
        Ok(record) => Ok(InvocationView { handler, arguments: record }),
        Err(e) => Err(e),
    }
}

/// Routes the entries `opts` to the handler of a structure.
pub fn dispatch_struct(fields: &Vec<FieldOpts>, handler: u64, opts: &Vec<ResolvedOption>) -> (r:
    Result<Invocation, Error>)
    ensures
        match r {
            Ok(invocation) => struct_routed(fields@, handler, opts@) == Ok::<InvocationView, Error>(
                invocation@,
            ),
            Err(e) => struct_routed(fields@, handler, opts@) == Err::<InvocationView, Error>(e),
        },
{
    match decode_fields(fields, opts) {
        Ok(arguments) => Ok(Invocation { handler, arguments }),
        Err(e) => Err(e),
    }
}

/// The first rule broken, in the order in which violations are reported,
/// where `violates` says of each rule whether it is broken.
pub open spec fn first_violation(violates: spec_fn(SchemaError) -> bool) -> Option<SchemaError> {
    if violates(SchemaError::EmptyDescription) {
        Some(SchemaError::EmptyDescription)
    } else if violates(SchemaError::MalformedLocale) {
        Some(SchemaError::MalformedLocale)
    } else if violates(SchemaError::DuplicateLocale) {
        Some(SchemaError::DuplicateLocale)
    } else if violates(SchemaError::DuplicateName) {
        Some(SchemaError::DuplicateName)
    } else if violates(SchemaError::EmptyChoices) {
        Some(SchemaError::EmptyChoices)
    } else if violates(SchemaError::IllegalDefault) {
        Some(SchemaError::IllegalDefault)
    } else {
        None
    }
}

/// No two options of the structure go under the same name.
pub open spec fn distinct_fields(fields: Seq<FieldOpts>) -> bool {
    forall|i: int, j: int|
        0 <= i < j < fields.len() ==> (#[trigger] fields[i]).name@ != (#[trigger] fields[j]).name@
}

/// No two variants of the enumeration go under the same name.
pub open spec fn distinct_variants<T>(variants: Seq<VariantOpts<T>>) -> bool {
    forall|i: int, j: int|
        0 <= i < j < variants.len() ==> (#[trigger] variants[i]).name@ != (
        #[trigger] variants[j]).name@
}

/// Whether no two options of the structure go under the same name.
pub fn fields_distinct(fields: &Vec<FieldOpts>) -> (r: bool)
    ensures
        r == distinct_fields(fields@),
{
    let mut j: usize = 0;
    while j < fields.len()
        invariant
            j <= fields.len(),
            forall|a: int, b: int|
                0 <= a < b < j ==> (#[trigger] fields@[a]).name@ != (#[trigger] fields@[b]).name@,
        decreases fields.len() - j,
    {
        let mut i: usize = 0;
        while i < j
            invariant
                i <= j < fields.len(),
                forall|a: int| 0 <= a < i ==> (#[trigger] fields@[a]).name@ != fields@[j as int].name@,
            decreases j - i,
        {
            if fields[i].name == fields[j].name {
                return false;
            }
            i += 1;
        }
        j += 1;
    }
    true
}

/// Whether no two variants of the enumeration go under the same name.
pub fn variants_distinct<T>(variants: &Vec<VariantOpts<T>>) -> (r: bool)
    ensures
        r == distinct_variants(variants@),
{
    let mut j: usize = 0;
    while j < variants.len()
        invariant
            j <= variants.len(),
            forall|a: int, b: int|
                0 <= a < b < j ==> (#[trigger] variants@[a]).name@ != (
                #[trigger] variants@[b]).name@,
        decreases variants.len() - j,
    {
        let mut i: usize = 0;
        while i < j
            invariant
                i <= j < variants.len(),
                forall|a: int|
                    0 <= a < i ==> (#[trigger] variants@[a]).name@ != variants@[j as int].name@,
            decreases j - i,
        {
            if variants[i].name == variants[j].name {
                return false;
            }
            i += 1;
        }
        j += 1;
    }
    true
}

impl<T> VariantOpts<T> {
    /// The variant itself, the node it leads to left aside, breaks the rule
    /// that the error `e` stands for: its description is empty, one of its
    /// locale tags is malformed, or two of its localized names, or of its
    /// localized descriptions, stand under one locale.
    pub open spec fn violates(self, e: SchemaError) -> bool {
        match e {
            SchemaError::EmptyDescription => self.desc@.len() == 0,
            SchemaError::MalformedLocale => !all_well_formed(self.names@) || !all_well_formed(
                self.descs@,
            ),
            SchemaError::DuplicateLocale => !distinct_tags(self.names@) || !distinct_tags(
                self.descs@,
            ),
            _ => false,
        }
    }

    /// Whether the variant itself breaks the rule that the error `e` stands
    /// for.
    pub fn breaks(&self, e: SchemaError) -> (r: bool)
        ensures
            r == self.violates(e),
    {
        match e {
            SchemaError::EmptyDescription => self.desc.as_str().is_empty(),
            SchemaError::MalformedLocale => !are_well_formed(&self.names) || !are_well_formed(
                &self.descs,
            ),
            SchemaError::DuplicateLocale => !tags_distinct(&self.names) || !tags_distinct(
                &self.descs,
            ),
            _ => false,
        }
    }
}

impl FieldOpts {
    /// The option breaks the rule that the error `e` stands for: its
    /// description is empty; one of its locale tags, or of those of its
    /// choices, is malformed; two texts of one of its lists, or of one of its
    /// choices, stand under one locale; its set of choices is empty; or it is
    /// flagged `default` and its type has no fallback.
    pub open spec fn violates(self, e: SchemaError) -> bool {
        match e {
            SchemaError::EmptyDescription => self.desc@.len() == 0,
            SchemaError::MalformedLocale => !all_well_formed(self.names@) || !all_well_formed(
                self.descs@,
            ) || self.ty.violates(e),
            SchemaError::DuplicateLocale => !distinct_tags(self.names@) || !distinct_tags(
                self.descs@,
            ) || self.ty.violates(e),
            SchemaError::EmptyChoices => self.ty.violates(e),
            SchemaError::IllegalDefault => self.default && self.ty.fallback() is None,
            _ => false,
        }
    }

    /// Whether the option breaks the rule that the error `e` stands for.
    pub fn breaks(&self, e: SchemaError) -> (r: bool)
        ensures
            r == self.violates(e),
    {
        match e {
            SchemaError::EmptyDescription => self.desc.as_str().is_empty(),
            SchemaError::MalformedLocale => !are_well_formed(&self.names) || !are_well_formed(
                &self.descs,
            ) || self.ty.breaks(e),
            SchemaError::DuplicateLocale => !tags_distinct(&self.names) || !tags_distinct(
                &self.descs,
            ) || self.ty.breaks(e),
            SchemaError::EmptyChoices => self.ty.breaks(e),
            SchemaError::IllegalDefault => self.default && self.ty.default_value().is_none(),
            _ => false,
        }
    }
}

/// The structure breaks the rule that the error `e` stands for: one of its
/// options does, or two of them go under one name.
pub open spec fn fields_violate(fields: Seq<FieldOpts>, e: SchemaError) -> bool {
    (exists|i: int| 0 <= i < fields.len() && (#[trigger] fields[i]).violates(e)) || (e
        == SchemaError::DuplicateName && !distinct_fields(fields))
}

/// Whether the structure breaks the rule that the error `e` stands for.
pub fn fields_break(fields: &Vec<FieldOpts>, e: SchemaError) -> (r: bool)
    ensures
        r == fields_violate(fields@, e),
{
    let mut i: usize = 0;
    while i < fields.len()
        invariant
            i <= fields.len(),
            forall|j: int| 0 <= j < i ==> !(#[trigger] fields@[j]).violates(e),
        decreases fields.len() - i,
    {
        if fields[i].breaks(e) {
            return true;
        }
        i += 1;
    }
    match e {
        SchemaError::DuplicateName => !fields_distinct(fields),
        _ => false,
    }
}

/// Whether `handler` is one of the `known` handlers.
pub fn knows(known: &Vec<u64>, handler: u64) -> (r: bool)
    ensures
        r == known@.contains(handler),
{
    let mut i: usize = 0;
    while i < known.len()
        invariant
            i <= known.len(),
            forall|j: int| 0 <= j < i ==> known@[j] != handler,
        decreases known.len() - i,
    {
        if known[i] == handler {
            return true;
        }
        i += 1;
    }
    false
}

/// The first variant under a name is one of the variants.
pub proof fn lemma_variant_named_is_a_variant<T>(variants: Seq<VariantOpts<T>>, name: Seq<char>)
    ensures
        variant_named(variants, name) matches Some(i) ==> 0 <= i < variants.len()
            && variants[i].name@ == name,
{
    lemma_first_index(variants.len() as int, called(variants, name));
}

/// The choices that the descriptor of a type lists have one name for each
/// locale, where no set of choices inside the type has a choice with two
/// names under one locale.
pub proof fn lemma_choices_have_one_name_per_locale(
    ty: CommandOption,
    name: Seq<char>,
    desc: Seq<char>,
)
    requires
        !ty.violates(SchemaError::DuplicateLocale),
    ensures
        forall|k: int|
            0 <= k < ty.created(name, desc).choices.len() ==> distinct_sent(
                (#[trigger] ty.created(name, desc).choices[k]).name_localizations,
            ),
    decreases ty,
{
    match ty {
        CommandOption::Optional(inner) => {
            lemma_choices_have_one_name_per_locale(*inner, name, desc);
        },
        CommandOption::Choice(set) => {
            assert forall|k: int| 0 <= k < ty.created(name, desc).choices.len() implies distinct_sent(
                (#[trigger] ty.created(name, desc).choices[k]).name_localizations,
            ) by {
                assert(distinct_tags(set.variants@[k].names@));
                lemma_localized_distinct(set.variants@[k].names@);
            }
        },
        _ => {},
    }
}

/// The descriptor of an option that keeps the rule of one text for each
/// locale has one name and one description for each locale, and so has each
/// of its choices: its lists are maps from locale to text.
pub proof fn lemma_option_has_one_text_per_locale(field: FieldOpts)
    requires
        !field.violates(SchemaError::DuplicateLocale),
    ensures
        distinct_sent(field.descriptor().name_localizations),
        distinct_sent(field.descriptor().description_localizations),
        forall|k: int|
            0 <= k < field.descriptor().choices.len() ==> distinct_sent(
                (#[trigger] field.descriptor().choices[k]).name_localizations,
            ),
{
    lemma_localized_distinct(field.names@);
    lemma_localized_distinct(field.descs@);
    lemma_choices_have_one_name_per_locale(field.ty, field.name@, field.desc@);
}

/// A structure routes to no handler but its own.
pub proof fn lemma_struct_routes_to_its_handler(
    fields: Seq<FieldOpts>,
    handler: u64,
    opts: Seq<ResolvedOption>,
)
    ensures
        struct_routed(fields, handler, opts) matches Ok(invocation) ==> invocation.handler
            == handler,
{
}

/// A required option for which the interaction holds no entry comes to
/// exactly `MissingOption`.
pub proof fn lemma_required_absent_is_missing(field: FieldOpts, opts: Seq<ResolvedOption>)
    requires
        field.descriptor().required,
        forall|i: int| 0 <= i < opts.len() ==> (#[trigger] opts[i]).name@ != field.name@,
    ensures
        field.argument(opts) == Err::<OptionValueView, Error>(Error::MissingOption),
{
    let p = named(opts, field.name@);
    assert forall|j: int| 0 <= j < opts.len() implies !#[trigger] p(j) by {}
}

/// An option whose entry carries a value of a tag that the option's type
/// does not accept comes to exactly `BadOptionType`; one whose entry carries
/// a value of an accepted tag never does.
pub proof fn lemma_supplied_tag_decides(field: FieldOpts, opts: Seq<ResolvedOption>, i: int)
    requires
        supplied(opts, field.name@) == Some(i),
    ensures
        !field.ty.accepts(opts[i].value) ==> field.argument(opts) == Err::<OptionValueView, Error>(
            Error::BadOptionType,
        ),
        field.ty.accepts(opts[i].value) ==> field.argument(opts) != Err::<OptionValueView, Error>(
            Error::BadOptionType,
        ),
{
    if field.ty.accepts(opts[i].value) {
        lemma_accepted_is_not_bad_type(field.ty, opts[i].value);
    } else {
        lemma_rejected_is_bad_type(field.ty, opts[i].value);
    }
}

/// A structure comes to the error of the option that fails, where every
/// option declared before that one decodes.
pub proof fn lemma_first_failure_decides(
    fields: Seq<FieldOpts>,
    handler: u64,
    opts: Seq<ResolvedOption>,
    i: int,
    e: Error,
)
    requires
        0 <= i < fields.len(),
        fields[i].argument(opts) == Err::<OptionValueView, Error>(e),
        forall|j: int| 0 <= j < i ==> (#[trigger] fields[j]).argument(opts) is Ok,
    ensures
        struct_routed(fields, handler, opts) == Err::<InvocationView, Error>(e),
{
    let p = failing(fields, opts);
    assert forall|j: int| 0 <= j < i implies !#[trigger] p(j) by {}
    lemma_first_index_is(fields.len() as int, p, i);
}

/// A structure routes to its handler if, and only if, every one of its
/// options decodes; the record then holds one argument per option, in the
/// order of declaration.
pub proof fn lemma_struct_routes(fields: Seq<FieldOpts>, handler: u64, opts: Seq<ResolvedOption>)
    ensures
        struct_routed(fields, handler, opts) is Ok <==> forall|j: int|
            0 <= j < fields.len() ==> (#[trigger] fields[j]).argument(opts) is Ok,
        struct_routed(fields, handler, opts) matches Ok(invocation) ==> {
            &&& invocation.handler == handler
            &&& invocation.arguments.len() == fields.len()
            &&& forall|j: int|
                0 <= j < fields.len() ==> (#[trigger] invocation.arguments[j]) == (
                    fields[j].ident@,
                    fields[j].argument(opts)->Ok_0,
                )
        },
{
    let p = failing(fields, opts);
    lemma_first_index(fields.len() as int, p);
    match first_index(fields.len() as int, p) {
        Some(i) => {
        },
        None => {
            assert forall|j: int| 0 <= j < fields.len() implies (#[trigger] fields[j]).argument(
                opts,
            ) is Ok by {
                assert(!p(j));
            }
        },
    }
}

} // verus!
