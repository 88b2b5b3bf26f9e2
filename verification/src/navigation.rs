//! The screens of the interface and the controller that moves between them.

use vstd::prelude::*;
use crate::event::{Event, EventView};
use crate::text::{same_text, Text};

verus! {

/// A view of the interface. Exactly one is current at any time.
#[derive(Clone, Copy, Debug, PartialEq, Eq, Structural)]
pub enum Screen {
    Login,
    Home,
    Hello,
}

/// What an event did to the controller.
#[derive(Clone, Copy, Debug, PartialEq, Eq, Structural)]
pub enum Navigation {
    /// The event asked for a screen that the routing table knows; it is current now.
    Arrived(Screen),
    /// The event asked for a target that the routing table does not know, or named none.
    /// Nothing changed. The caller should log the event.
    UnknownTarget,
    /// The event is no navigation event. Nothing changed.
    Ignored,
}

impl Screen {
    /// The text by which navigation events name the screen.
    pub open spec fn spec_target(self) -> Text {
        match self {
            Screen::Login => "login"@,
            Screen::Home => "home"@,
            Screen::Hello => "hello"@,
        }
    }

    /// The routing table: the screen that a target names, if any.
    pub open spec fn spec_route(target: Text) -> Option<Screen> {
        if target == "login"@ {
            Some(Screen::Login)
        } else if target == "home"@ {
            Some(Screen::Home)
        } else if target == "hello"@ {
            Some(Screen::Hello)
        } else {
            None
        }
    }

    /// The text by which navigation events name the screen.
    pub fn target(self) -> (target: &'static str)
        ensures
            target@ == self.spec_target(),
    {
        match self {
            Screen::Login => "login",
            Screen::Home => "home",
            Screen::Hello => "hello",
        }
    }

    /// Looks a target up in the routing table.
    pub fn route(target: &str) -> (screen: Option<Screen>)
        ensures
            screen == Screen::spec_route(target@),
    {
        if same_text(target, "login") {
            Some(Screen::Login)
        } else if same_text(target, "home") {
            Some(Screen::Home)
        } else if same_text(target, "hello") {
            Some(Screen::Hello)
        } else {
            None
        }
    }
}

/// The navigation event that asks for a screen.
pub open spec fn spec_goto(screen: Screen) -> EventView {
    EventView { name: "goto"@, payload: seq![screen.spec_target()] }
}

/// What an event does to the controller on a screen: the screen afterwards, and what is
/// reported. Only a `goto` whose first payload text is in the routing table moves it.
pub open spec fn spec_navigate(screen: Screen, event: EventView) -> (Screen, Navigation) {
    if event.name != "goto"@ {
        (screen, Navigation::Ignored)
    } else if event.payload.len() == 0 {
        (screen, Navigation::UnknownTarget)
    } else {
        match Screen::spec_route(event.payload[0]) {
            Some(target) => (target, Navigation::Arrived(target)),
            None => (screen, Navigation::UnknownTarget),
        }
    }
}

/// The screen on which the interface starts.
pub open spec fn spec_start() -> Screen {
    Screen::Login
}

impl Event {
    /// The navigation event that asks for a screen.
    pub fn goto(screen: Screen) -> (event: Event)
        ensures
            event@ == spec_goto(screen),
    {
        let mut payload: Vec<String> = Vec::new();
        payload.push(screen.target().to_owned());
        let event = Event { name: "goto".to_owned(), payload };
        assert(event@.payload =~= seq![screen.spec_target()]);
        event
    }
}

/// Follows navigation events from screen to screen. It starts on the login screen and never
/// ends.
#[derive(Debug, PartialEq, Eq)]
pub struct NavigationController {
    screen: Screen,
}

impl View for NavigationController {
    type V = Screen;

    closed spec fn view(&self) -> Screen {
        self.screen
    }
}

impl NavigationController {
    /// A controller on the login screen.
    pub fn new() -> (controller: NavigationController)
        ensures
            controller@ == spec_start(),
    {
        NavigationController { screen: Screen::Login }
    }

    /// The current screen.
    pub fn current(&self) -> (screen: Screen)
        ensures
            screen == self@,
    {
        self.screen
    }

    /// Takes an event from the host. A `goto` to a known target makes that screen current;
    /// anything else leaves the screen as it is and is reported, never raised.
    pub fn handle(&mut self, event: &Event) -> (report: Navigation)
        ensures
            (final(self)@, report) == spec_navigate(old(self)@, event@),
    {
        if !same_text(event.name.as_str(), "goto") {
            return Navigation::Ignored;
        }
        if event.payload.len() == 0 {
            return Navigation::UnknownTarget;
        }
        match Screen::route(event.payload[0].as_str()) {
            Some(target) => {
                self.screen = target;
                Navigation::Arrived(target)
            },
            None => Navigation::UnknownTarget,
        }
    }
}

/// The routing table and the targets agree: a screen's target routes to the screen, and a
/// text that routes to a screen is that screen's target.
pub proof fn lemma_route_round_trip(screen: Screen)
    ensures
        Screen::spec_route(screen.spec_target()) == Some(screen),
        forall|target: Text|
            Screen::spec_route(target) == Some(screen) ==> target == screen.spec_target(),
{
    reveal_strlit("login");
    reveal_strlit("home");
    reveal_strlit("hello");
    assert("login"@.len() == 5);
    assert("home"@.len() == 4);
    assert("hello"@.len() == 5);
    assert("login"@[0] != "hello"@[0]);
}

/// The event that asks for a screen takes the controller there, from any screen.
pub proof fn lemma_goto_arrives(from: Screen, to: Screen)
    ensures
        spec_navigate(from, spec_goto(to)) == (to, Navigation::Arrived(to)),
{
    lemma_route_round_trip(to);
}

/// The screen changes through the routing table only: where an event leaves the controller
/// on another screen, the event is a `goto` and the table gives that screen for its first
/// payload text. Every other event leaves the screen unchanged.
pub proof fn lemma_moves_by_table_only(screen: Screen, event: EventView)
    ensures
        spec_navigate(screen, event).0 != screen ==> event.name == "goto"@ && event.payload.len()
            > 0 && Screen::spec_route(event.payload[0]) == Some(spec_navigate(screen, event).0),
        spec_navigate(screen, event).1 != Navigation::Arrived(spec_navigate(screen, event).0)
            ==> spec_navigate(screen, event).0 == screen,
{
}

} // verus!
