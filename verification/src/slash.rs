//! What routing hands to the caller: the handler to invoke, and the decoded
//! arguments to invoke it with.

use vstd::prelude::*;
use crate::options::{OptionValue, OptionValueView};

verus! {

/// One decoded argument, under the identifier of the option it belongs to.
#[derive(Debug, PartialEq, Eq)]
pub struct Argument {
    pub ident: String,
    pub value: OptionValue,
}

impl View for Argument {
    type V = (Seq<char>, OptionValueView);

    open spec fn view(&self) -> (Seq<char>, OptionValueView) {
        (self.ident@, self.value@)
    }
}

/// The arguments of a list, each by its view.
pub open spec fn argument_views(arguments: Seq<Argument>) -> Seq<(Seq<char>, OptionValueView)> {
    Seq::new(arguments.len(), |i: int| arguments[i]@)
}

/// The one handler an interaction was routed to, with the record of its
/// arguments: one per declared option, in the order of declaration.
#[derive(Debug, PartialEq, Eq)]
pub struct Invocation {
    pub handler: u64,
    pub arguments: Vec<Argument>,
}

/// An invocation as mathematical values.
pub struct InvocationView {
    pub handler: u64,
    pub arguments: Seq<(Seq<char>, OptionValueView)>,
}

impl View for Invocation {
    type V = InvocationView;

    open spec fn view(&self) -> InvocationView {
        InvocationView { handler: self.handler, arguments: argument_views(self.arguments@) }
    }
}

} // verus!
