//! The command registry: the host's table from command names to handlers.

use vstd::prelude::*;
use crate::command::{spec_settle, Command, CommandResult, CommandResultView, HandlerOutcome};
use crate::error::ErrorKind;
use crate::record::Record;
use crate::text::{same_text, Text};

verus! {

/// One handler and the name under which it is registered.
#[derive(Debug, PartialEq, Eq)]
pub struct Registration<H> {
    pub name: String,
    pub handler: H,
}

impl<H> View for Registration<H> {
    type V = (Text, H);

    open spec fn view(&self) -> (Text, H) {
        (self.name@, self.handler)
    }
}

/// The handler that a list of registrations holds under a name: that of the last
/// registration so named, if there is one.
pub open spec fn spec_lookup<H>(entries: Seq<(Text, H)>, name: Text) -> Option<H>
    decreases entries.len(),
{
    if entries.len() == 0 {
        None
    } else if entries.last().0 == name {
        Some(entries.last().1)
    } else {
        spec_lookup(entries.drop_last(), name)
    }
}

/// The table that a list of registrations stands for.
pub open spec fn spec_table<H>(entries: Seq<(Text, H)>) -> Map<Text, H> {
    Map::new(
        |name: Text| spec_lookup(entries, name) is Some,
        |name: Text| spec_lookup(entries, name).unwrap(),
    )
}

/// The command registry. It is filled when the host starts, one handler to a name, and
/// read from then on.
#[derive(Debug, PartialEq, Eq)]
pub struct CommandRegistry<H> {
    entries: Vec<Registration<H>>,
}

impl<H> View for CommandRegistry<H> {
    type V = Map<Text, H>;

    closed spec fn view(&self) -> Map<Text, H> {
        spec_table(self.entries@.map_values(|r: Registration<H>| r@))
    }
}

impl<H> CommandRegistry<H> {
    /// A registry without handlers.
    pub fn new() -> (registry: CommandRegistry<H>)
        ensures
            registry@ == Map::<Text, H>::empty(),
    {
        CommandRegistry { entries: Vec::new() }
    }

    /// Whether a handler is registered under a name.
    pub fn is_registered(&self, name: &str) -> (registered: bool)
        ensures
            registered == self@.contains_key(name@),
    {
        self.resolve(name).is_some()
    }

    /// Registers a handler under a name that is still free. To register a second handler
    /// under a name is an error of the program, made when the host starts; a caller that
    /// cannot rule it out asks `is_registered` first.
    pub fn register(&mut self, name: &str, handler: H)
        requires
            !old(self)@.contains_key(name@),
        ensures
            final(self)@ == old(self)@.insert(name@, handler),
    {
        self.entries.push(Registration { name: name.to_owned(), handler });
        proof {
            let before = old(self).entries@.map_values(|r: Registration<H>| r@);
            let after = self.entries@.map_values(|r: Registration<H>| r@);
            assert(after.drop_last() =~= before);
            assert(after.last() == (name@, handler));
        }
    }

    /// The handler registered under a name.
    pub fn resolve(&self, name: &str) -> (handler: Option<&H>)
        ensures
            match handler {
                Some(handler) => self@.contains_key(name@) && *handler == self@[name@],
                None => !self@.contains_key(name@),
            },
    {
        let ghost entries = self.entries@.map_values(|r: Registration<H>| r@);
        let mut i: usize = self.entries.len();
        assert(entries.take(i as int) =~= entries);
        while i > 0
            invariant
                i <= self.entries.len(),
                entries == self.entries@.map_values(|r: Registration<H>| r@),
                spec_lookup(entries, name@) == spec_lookup(entries.take(i as int), name@),
            decreases i,
        {
            i -= 1;
            assert(entries.take(i + 1).drop_last() =~= entries.take(i as int));
            assert(entries.take(i + 1).last() == self.entries@[i as int]@);
            if same_text(self.entries[i].name.as_str(), name) {
                return Some(&self.entries[i].handler);
            }
        }
        None
    }

    /// Looks the command's handler up and has it run. An unknown name is answered with
    /// `NotFound`, and a handler's failure with `HandlerFailure`: neither goes further than
    /// the result. `run` is how the host runs a handler on the arguments; it is called once,
    /// or not at all where the name is unknown.
    pub fn dispatch<F: FnOnce(&H, &Record) -> HandlerOutcome>(
        &self,
        command: &Command,
        run: F,
    ) -> (result: CommandResult)
        requires
            self@.contains_key(command@.name) ==> call_requires(
                run,
                (&self@[command@.name], &command.args),
            ),
        ensures
            !self@.contains_key(command@.name) ==> result@ == CommandResultView::Error(
                ErrorKind::NotFound,
            ),
            self@.contains_key(command@.name) ==> exists|outcome: HandlerOutcome|
                call_ensures(run, (&self@[command@.name], &command.args), outcome) && result@
                    == spec_settle(outcome@),
    {
        match self.resolve(command.name.as_str()) {
            Some(handler) => {
                let outcome = run(handler, &command.args);
                outcome.settle()
            },
            None => CommandResult::Error(ErrorKind::NotFound),
        }
    }
}

} // verus!
