use ui_bridge::event::Event;
use ui_bridge::navigation::{Navigation, NavigationController, Screen};

const SCREENS: [Screen; 3] = [Screen::Login, Screen::Home, Screen::Hello];

fn event(name: &str, payload: &[&str]) -> Event {
    Event::new(name, payload.iter().map(|s| String::from(*s)).collect())
}

fn on(screen: Screen) -> NavigationController {
    let mut controller = NavigationController::new();
    assert_eq!(controller.handle(&Event::goto(screen)), Navigation::Arrived(screen));
    controller
}

#[test]
fn the_controller_starts_on_the_login_screen() {
    assert_eq!(NavigationController::new().current(), Screen::Login);
}

#[test]
fn targets_are_the_lower_case_names() {
    assert_eq!(Screen::Login.target(), "login");
    assert_eq!(Screen::Home.target(), "home");
    assert_eq!(Screen::Hello.target(), "hello");
}

#[test]
fn the_routing_table_reads_the_three_targets() {
    assert_eq!(Screen::route("login"), Some(Screen::Login));
    assert_eq!(Screen::route("home"), Some(Screen::Home));
    assert_eq!(Screen::route("hello"), Some(Screen::Hello));
}

#[test]
fn the_routing_table_reads_nothing_else() {
    assert_eq!(Screen::route(""), None);
    assert_eq!(Screen::route("Home"), None);
    assert_eq!(Screen::route("home "), None);
    assert_eq!(Screen::route("unknown"), None);
}

#[test]
fn every_target_routes_to_its_screen() {
    for screen in SCREENS {
        assert_eq!(Screen::route(screen.target()), Some(screen));
    }
}

#[test]
fn goto_event_names_the_target_first() {
    let e = Event::goto(Screen::Hello);
    assert_eq!(e.name, "goto");
    assert_eq!(e.payload, vec!["hello"]);
}

#[test]
fn goto_arrives_from_every_screen() {
    for from in SCREENS {
        for to in SCREENS {
            let mut controller = on(from);
            assert_eq!(controller.handle(&Event::goto(to)), Navigation::Arrived(to));
            assert_eq!(controller.current(), to);
        }
    }
}

#[test]
fn unknown_target_is_reported_and_changes_nothing() {
    for from in SCREENS {
        let mut controller = on(from);
        assert_eq!(controller.handle(&event("goto", &["unknown"])), Navigation::UnknownTarget);
        assert_eq!(controller.current(), from);
    }
}

#[test]
fn goto_without_payload_is_an_unknown_target() {
    let mut controller = on(Screen::Home);
    assert_eq!(controller.handle(&event("goto", &[])), Navigation::UnknownTarget);
    assert_eq!(controller.current(), Screen::Home);
}

#[test]
fn only_the_first_payload_text_counts() {
    let mut controller = NavigationController::new();
    assert_eq!(
        controller.handle(&event("goto", &["hello", "home"])),
        Navigation::Arrived(Screen::Hello)
    );
    assert_eq!(controller.handle(&event("goto", &["unknown", "home"])), Navigation::UnknownTarget);
    assert_eq!(controller.current(), Screen::Hello);
}

#[test]
fn other_events_are_ignored() {
    let mut controller = NavigationController::new();
    assert_eq!(controller.handle(&event("Goto", &["home"])), Navigation::Ignored);
    assert_eq!(controller.handle(&event("", &["home"])), Navigation::Ignored);
    assert_eq!(controller.handle(&event("home", &["goto"])), Navigation::Ignored);
    assert_eq!(controller.current(), Screen::Login);
}

#[test]
fn the_hosts_two_commands_lead_to_hello_and_home() {
    let mut controller = NavigationController::new();
    controller.handle(&event("goto", &["hello"]));
    assert_eq!(controller.current(), Screen::Hello);
    controller.handle(&event("goto", &["home"]));
    assert_eq!(controller.current(), Screen::Home);
}
