//! Routing, one level at a time.
//!
//! An interaction enters at the tree and descends: to a command, to the node
//! below it, to a sub-command of a group.  At a structure the descent ends
//! with the handler to invoke; anywhere it may end with an error.  Both ends
//! are final.

use vstd::prelude::*;
use crate::command::Command;
use crate::command_tree::CommandTree;
use crate::common::{find_variant, variant_named};
use crate::error::Error;
use crate::interaction::{CommandInteraction, ResolvedOption};
use crate::slash::{Invocation, InvocationView};
use crate::subcommand::SubCommand;
use crate::subsubcommand::SubSubCommand;

verus! {

/// Where routing stands.
pub enum State<'a> {
    /// At the tree, with the interaction to route.
    AtTree(&'a CommandTree, &'a CommandInteraction),
    /// At a command, with the entries below it.
    AtCommand(&'a Command, &'a Vec<ResolvedOption>),
    /// At a node below a command, with the entries below it.
    AtSubCommand(&'a SubCommand, &'a Vec<ResolvedOption>),
    /// At a sub-command of a group, with the entries below it.
    AtSubSubCommand(&'a SubSubCommand, &'a Vec<ResolvedOption>),
    /// At the end: the one handler to invoke, with its arguments.
    HandlerInvoked(Invocation),
    /// At the end: the one error.
    Error(Error),
}

impl<'a> State<'a> {
    /// Routing has ended.
    pub open spec fn terminal(self) -> bool {
        self is HandlerInvoked || self is Error
    }

    /// The greatest number of steps routing may still take.
    pub open spec fn remaining(self) -> nat {
        match self {
            State::AtTree(_, _) => 4,
            State::AtCommand(_, _) => 3,
            State::AtSubCommand(_, _) => 2,
            State::AtSubSubCommand(_, _) => 1,
            State::HandlerInvoked(_) => 0,
            State::Error(_) => 0,
        }
    }

    /// Where routing ends when it goes on from here.
    pub open spec fn outcome(self) -> Result<InvocationView, Error> {
        match self {
            State::AtTree(tree, interaction) => tree.routed(*interaction),
            State::AtCommand(command, opts) => command.routed(opts@),
            State::AtSubCommand(node, opts) => node.routed(opts@),
            State::AtSubSubCommand(node, opts) => node.routed(opts@),
            State::HandlerInvoked(invocation) => Ok(invocation@),
            State::Error(e) => Err(e),
        }
    }

    /// `next` is the state that comes after this one.
    ///
    /// At the tree, the first command under the invoked name is entered with
    /// the entries of the interaction.  At an enumeration, the node that the
    /// entries address is entered with the entries below it.  Where no
    /// command goes under the name, or the entries address no node, the
    /// error is an unrecognized command.  At a structure routing ends: with
    /// its handler and the record of its options, or with the error of the
    /// first option that fails.  A final state is followed by itself.
    pub open spec fn follows(self, next: Self) -> bool {
        match self {
            State::AtTree(tree, interaction) => match variant_named(
                tree.variants@,
                interaction.name@,
            ) {
                Some(i) => next matches State::AtCommand(command, opts) && *command
                    == tree.variants@[i].fields.ty && opts@ == interaction.options@,
                None => next matches State::Error(e) && e == Error::UnrecognizedCommand,
            },
            State::AtCommand(command, opts) => match *command {
                Command::Enum { variants } => match crate::command::selected(variants@, opts@) {
                    Some(i) => next matches State::AtSubCommand(node, sub_opts) && *node
                        == variants@[i].fields.ty && sub_opts@ == opts@[0].value.below(),
                    None => next matches State::Error(e) && e == Error::UnrecognizedCommand,
                },
                Command::Struct { .. } => next.terminal() && next.outcome() == self.outcome(),
            },
            State::AtSubCommand(node, opts) => match *node {
                SubCommand::Enum { variants } => match crate::subcommand::selected(
                    variants@,
                    opts@,
                ) {
                    Some(i) => next matches State::AtSubSubCommand(leaf, sub_opts) && *leaf
                        == variants@[i].fields.ty && sub_opts@ == opts@[0].value.below(),
                    None => next matches State::Error(e) && e == Error::UnrecognizedCommand,
                },
                SubCommand::Struct { .. } => next.terminal() && next.outcome() == self.outcome(),
            },
            State::AtSubSubCommand(_, _) => next.terminal() && next.outcome() == self.outcome(),
            State::HandlerInvoked(_) => next is HandlerInvoked && next.outcome() == self.outcome(),
            State::Error(e) => next matches State::Error(same) && same == e,
        }
    }

    /// Routing at its start.
    pub fn start(tree: &'a CommandTree, interaction: &'a CommandInteraction) -> (r: Self)
        ensures
            r == State::AtTree(tree, interaction),
            r.outcome() == tree.routed(*interaction),
    {
        State::AtTree(tree, interaction)
    }

    /// Whether routing has ended.
    pub fn is_terminal(&self) -> (r: bool)
        ensures
            r == self.terminal(),
    {
        match self {
            State::HandlerInvoked(_) => true,
            State::Error(_) => true,
            _ => false,
        }
    }

    /// One step of routing: to the state that comes next.  A step never
    /// changes where routing ends, and from a state that is not final it
    /// leads one level down or to an end.
    pub fn step(self) -> (next: Self)
        ensures
            self.follows(next),
            next.outcome() == self.outcome(),
            !self.terminal() ==> next.remaining() < self.remaining(),
    {
        match self {
            State::AtTree(tree, interaction) => match find_variant(
                &tree.variants,
                &interaction.name,
            ) {
                Some(i) => State::AtCommand(tree.variants[i].ty(), &interaction.options),
                None => State::Error(Error::UnrecognizedCommand),
            },
            State::AtCommand(command, opts) => match command {
                Command::Enum { variants } => match crate::command::select(variants, opts) {
                    Ok((i, sub_opts)) => State::AtSubCommand(variants[i].ty(), sub_opts),
                    Err(e) => State::Error(e),
                },
                Command::Struct { fields, handler } => State::ended(
                    crate::command::generate_dispatch_from_struct(fields, *handler, opts),
                ),
            },
            State::AtSubCommand(node, opts) => match node {
                SubCommand::Enum { variants } => match crate::subcommand::select(variants, opts) {
                    Ok((i, sub_opts)) => State::AtSubSubCommand(variants[i].ty(), sub_opts),
                    Err(e) => State::Error(e),
                },
                SubCommand::Struct { fields, handler } => State::ended(
                    crate::subcommand::generate_dispatch_from_struct(fields, *handler, opts),
                ),
            },
            State::AtSubSubCommand(node, opts) => State::ended(node.dispatch(opts)),
            State::HandlerInvoked(invocation) => State::HandlerInvoked(invocation),
            State::Error(e) => State::Error(e),
        }
    }

    /// The final state that stands for a result.
    pub fn ended(result: Result<Invocation, Error>) -> (r: Self)
        ensures
            r.terminal(),
            match result {
                Ok(invocation) => r == State::<'a>::HandlerInvoked(invocation),
                Err(e) => r == State::<'a>::Error(e),
            },
    {
        match result {
            Ok(invocation) => State::HandlerInvoked(invocation),
            Err(e) => State::Error(e),
        }
    }

    /// The result a final state stands for; none while routing goes on.
    pub fn result(self) -> (r: Option<Result<Invocation, Error>>)
        ensures
            r is Some <==> self.terminal(),
            match r {
                Some(Ok(invocation)) => self == State::<'a>::HandlerInvoked(invocation),
                Some(Err(e)) => self == State::<'a>::Error(e),
                None => true,
            },
    {
        match self {
            State::HandlerInvoked(invocation) => Some(Ok(invocation)),
            State::Error(e) => Some(Err(e)),
            _ => None,
        }
    }
}

/// The state that comes next never changes where routing ends; after a
/// state that is not final it stands one level down or at an end, and after
/// a final state it is final.  So routing ends after four steps at most,
/// with one handler or one error, and stays there.
pub proof fn lemma_steps_descend(state: State<'_>, next: State<'_>)
    requires
        state.follows(next),
    ensures
        next.outcome() == state.outcome(),
        !state.terminal() ==> next.remaining() < state.remaining(),
        state.terminal() ==> next.terminal(),
{
}

/// Routes an interaction step by step, from the tree to an end.
pub fn run(tree: &CommandTree, interaction: &CommandInteraction) -> (r: Result<Invocation, Error>)
    ensures
        match r {
            Ok(invocation) => tree.routed(*interaction) == Ok::<InvocationView, Error>(
                invocation@,
            ),
            Err(e) => tree.routed(*interaction) == Err::<InvocationView, Error>(e),
        },
{
    let mut state = State::start(tree, interaction);
    while !state.is_terminal()
        invariant
            state.outcome() == tree.routed(*interaction),
        decreases state.remaining(),
    {
        state = state.step();
    }
    match state {
        State::HandlerInvoked(invocation) => Ok(invocation),
        State::Error(e) => Err(e),
        // not reached: the loop ends in a final state
        _ => Err(Error::UnrecognizedCommand),
    }
}

} // verus!
