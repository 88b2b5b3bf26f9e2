use ui_bridge::command::{Command, CommandResult, HandlerOutcome};
use ui_bridge::error::ErrorKind;
use ui_bridge::event::Event;
use ui_bridge::host::{commands, Handler};
use ui_bridge::login::LoginFlow;
use ui_bridge::navigation::{NavigationController, Screen};
use ui_bridge::record::Record;

#[test]
fn handlers_are_registered_under_their_names() {
    assert_eq!(Handler::Login.name(), "login");
    assert_eq!(Handler::Logout.name(), "logout");
    let registry = commands();
    assert_eq!(registry.resolve("login"), Some(&Handler::Login));
    assert_eq!(registry.resolve("logout"), Some(&Handler::Logout));
    assert_eq!(registry.resolve("show_ui"), None);
}

#[test]
fn login_sends_to_hello_and_logout_to_home() {
    assert_eq!(Handler::Login.destination(), Screen::Hello);
    assert_eq!(Handler::Logout.destination(), Screen::Home);
    assert_eq!(
        Handler::Login.event(),
        Event { name: String::from("goto"), payload: vec![String::from("hello")] }
    );
    assert_eq!(
        Handler::Logout.event(),
        Event { name: String::from("goto"), payload: vec![String::from("home")] }
    );
}

#[test]
fn a_handlers_event_takes_the_controller_to_its_destination() {
    for handler in [Handler::Login, Handler::Logout] {
        let mut controller = NavigationController::new();
        controller.handle(&handler.event());
        assert_eq!(controller.current(), handler.destination());
    }
}

#[test]
fn the_hosts_registry_answers_other_names_with_not_found() {
    let command = Command { name: String::from("does_not_exist"), args: Record::new() };
    let result = commands().dispatch(&command, |_, _| HandlerOutcome::Completed(Record::new()));
    assert_eq!(result, CommandResult::Error(ErrorKind::NotFound));
}

#[test]
fn admits_tells_when_a_submission_is_taken_up() {
    let mut flow = LoginFlow::new();
    assert!(flow.admits());
    flow.set_mail(String::from("a@b.c"));
    flow.set_pass(String::from("secret"));
    flow.submit();
    assert!(!flow.admits());
    flow.validate();
    assert!(!flow.admits());
    flow.resolve(CommandResult::Error(ErrorKind::HandlerFailure));
    assert!(flow.admits());
}
