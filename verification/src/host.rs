//! The commands that the host serves, and where each sends the interface.

use vstd::prelude::*;
use crate::app::{spec_update, AppView, MsgView};
use crate::event::Event;
use crate::navigation::{lemma_goto_arrives, spec_goto, Navigation, Screen};
use crate::registry::CommandRegistry;
use crate::text::Text;

verus! {

/// A command of the host.
#[derive(Clone, Copy, Debug, PartialEq, Eq, Structural)]
pub enum Handler {
    Login,
    Logout,
}

impl Handler {
    /// The name under which the handler is registered.
    pub open spec fn spec_name(self) -> Text {
        match self {
            Handler::Login => "login"@,
            Handler::Logout => "logout"@,
        }
    }

    /// The screen to which the handler sends the interface.
    pub open spec fn spec_destination(self) -> Screen {
        match self {
            Handler::Login => Screen::Hello,
            Handler::Logout => Screen::Home,
        }
    }

    /// The name under which the handler is registered.
    pub fn name(self) -> (name: &'static str)
        ensures
            name@ == self.spec_name(),
    {
        match self {
            Handler::Login => "login",
            Handler::Logout => "logout",
        }
    }

    /// The screen to which the handler sends the interface.
    pub fn destination(self) -> (screen: Screen)
        ensures
            screen == self.spec_destination(),
    {
        match self {
            Handler::Login => Screen::Hello,
            Handler::Logout => Screen::Home,
        }
    }

    /// The event that the handler has the host push when it runs.
    pub fn event(self) -> (event: Event)
        ensures
            event@ == spec_goto(self.spec_destination()),
    {
        Event::goto(self.destination())
    }
}

/// The host's table of commands: each handler under its name.
pub open spec fn spec_commands() -> Map<Text, Handler> {
    Map::<Text, Handler>::empty().insert("login"@, Handler::Login).insert(
        "logout"@,
        Handler::Logout,
    )
}

/// The registry of the host as it is when the host has started.
pub fn commands() -> (registry: CommandRegistry<Handler>)
    ensures
        registry@ == spec_commands(),
{
    let mut registry = CommandRegistry::new();
    registry.register(Handler::Login.name(), Handler::Login);
    proof {
        reveal_strlit("login");
        reveal_strlit("logout");
        assert("login"@.len() != "logout"@.len());
    }
    registry.register(Handler::Logout.name(), Handler::Logout);
    registry
}

/// Every handler is in the host's table under its own name, and the table holds nothing else.
pub proof fn lemma_commands_hold_the_handlers(handler: Handler)
    ensures
        spec_commands().contains_key(handler.spec_name()),
        spec_commands()[handler.spec_name()] == handler,
        forall|name: Text|
            spec_commands().contains_key(name) ==> name == spec_commands()[name].spec_name(),
{
    reveal_strlit("login");
    reveal_strlit("logout");
    assert("login"@.len() != "logout"@.len());
}

/// What a handler has the host push takes the interface to the handler's destination,
/// whatever the interface was showing, and asks the interface for nothing.
pub proof fn lemma_handler_sends_to_destination(app: AppView, handler: Handler)
    ensures
        ({
            let pushed = MsgView::Pushed(spec_goto(handler.spec_destination()));
            let (after, update) = spec_update(app, pushed);
            &&& after.screen == handler.spec_destination()
            &&& update.navigation == Some(Navigation::Arrived(handler.spec_destination()))
            &&& update.invoke is None
        }),
{
    lemma_goto_arrives(app.screen, handler.spec_destination());
}

} // verus!
