use ui_bridge::bus::{Delivery, EventBus, SubscriptionHandle};
use ui_bridge::event::Event;
use ui_bridge::navigation::{Navigation, NavigationController, Screen};

fn event(name: &str, payload: &[&str]) -> Event {
    Event::new(name, payload.iter().map(|s| String::from(*s)).collect())
}

#[test]
fn event_new_keeps_name_and_payload_order() {
    let e = event("goto", &["b", "a", "c"]);
    assert_eq!(e.name, "goto");
    assert_eq!(e.payload, vec!["b", "a", "c"]);
    assert_eq!(e.clone(), e);
}

#[test]
fn handles_are_numbered_from_zero() {
    let mut bus = EventBus::new();
    assert_eq!(bus.subscribe("goto", 'a'), Some(SubscriptionHandle { id: 0 }));
    assert_eq!(bus.subscribe("goto", 'b'), Some(SubscriptionHandle { id: 1 }));
    assert_eq!(bus.subscribe("other", 'c'), Some(SubscriptionHandle { id: 2 }));
    assert_eq!(bus.len(), 3);
}

#[test]
fn emit_without_listener_is_dropped() {
    let mut bus = EventBus::new();
    assert_eq!(bus.emit(&event("goto", &["home"])), Vec::<Delivery<char>>::new());
    bus.subscribe("other", 'x').unwrap();
    assert_eq!(bus.emit(&event("goto", &["home"])), vec![]);
}

#[test]
fn listeners_are_served_in_registration_order() {
    let mut bus = EventBus::new();
    let a = bus.subscribe("goto", 'a').unwrap();
    let _ = bus.subscribe("other", 'x').unwrap();
    let b = bus.subscribe("goto", 'b').unwrap();
    let c = bus.subscribe("goto", 'c').unwrap();
    assert_eq!(
        bus.emit(&event("goto", &[])),
        vec![
            Delivery { handle: a, listener: 'a' },
            Delivery { handle: b, listener: 'b' },
            Delivery { handle: c, listener: 'c' },
        ]
    );
}

#[test]
fn only_listeners_of_the_name_are_served() {
    let mut bus = EventBus::new();
    let _ = bus.subscribe("goto", 'a').unwrap();
    let x = bus.subscribe("Goto", 'x').unwrap();
    assert_eq!(bus.emit(&event("Goto", &[])), vec![Delivery { handle: x, listener: 'x' }]);
}

#[test]
fn unsubscribe_removes_the_listener() {
    let mut bus = EventBus::new();
    let a = bus.subscribe("goto", 'a').unwrap();
    let b = bus.subscribe("goto", 'b').unwrap();
    assert!(bus.unsubscribe(a));
    assert_eq!(bus.len(), 1);
    assert_eq!(bus.emit(&event("goto", &[])), vec![Delivery { handle: b, listener: 'b' }]);
}

#[test]
fn unsubscribe_of_an_unknown_handle_changes_nothing() {
    let mut bus = EventBus::new();
    let a = bus.subscribe("goto", 'a').unwrap();
    assert!(!bus.unsubscribe(SubscriptionHandle { id: 9 }));
    assert!(bus.unsubscribe(a));
    assert!(!bus.unsubscribe(a));
    assert_eq!(bus.len(), 0);
}

#[test]
fn a_handle_is_not_handed_out_again() {
    let mut bus = EventBus::new();
    let a = bus.subscribe("goto", 'a').unwrap();
    assert!(bus.unsubscribe(a));
    let b = bus.subscribe("goto", 'b').unwrap();
    assert_ne!(a, b);
    assert_eq!(b, SubscriptionHandle { id: 1 });
}

#[test]
fn deliveries_are_a_snapshot() {
    let mut bus = EventBus::new();
    let a = bus.subscribe("goto", 'a').unwrap();
    let b = bus.subscribe("goto", 'b').unwrap();
    let deliveries = bus.emit(&event("goto", &["home"]));
    let mut served = Vec::new();
    for delivery in &deliveries {
        if delivery.listener == 'a' {
            assert!(bus.unsubscribe(b));
            bus.subscribe("goto", 'c').unwrap();
        }
        served.push(delivery.listener);
    }
    assert_eq!(served, vec!['a', 'b']);
    let c = SubscriptionHandle { id: 2 };
    assert_eq!(
        bus.emit(&event("goto", &["home"])),
        vec![Delivery { handle: a, listener: 'a' }, Delivery { handle: c, listener: 'c' }]
    );
}

#[test]
fn events_of_one_name_arrive_in_emission_order() {
    let mut bus = EventBus::new();
    bus.subscribe("goto", 0u8).unwrap();
    let mut seen = Vec::new();
    for target in ["home", "hello", "home"] {
        let e = event("goto", &[target]);
        for _ in bus.emit(&e) {
            seen.push(e.payload[0].clone());
        }
    }
    assert_eq!(seen, vec!["home", "hello", "home"]);
}

#[test]
fn goto_home_drives_the_controller_from_login_to_home_once() {
    let mut bus = EventBus::new();
    let mut controller = NavigationController::new();
    let h = bus.subscribe("goto", "navigation").unwrap();
    let e = event("goto", &["home"]);
    let deliveries = bus.emit(&e);
    assert_eq!(deliveries, vec![Delivery { handle: h, listener: "navigation" }]);
    let mut reports = Vec::new();
    for _ in &deliveries {
        reports.push(controller.handle(&e));
    }
    assert_eq!(reports, vec![Navigation::Arrived(Screen::Home)]);
    assert_eq!(controller.current(), Screen::Home);
}

#[test]
fn goto_unknown_leaves_the_screen_unchanged() {
    let mut bus = EventBus::new();
    let mut controller = NavigationController::new();
    bus.subscribe("goto", ()).unwrap();
    let e = event("goto", &["unknown"]);
    for _ in bus.emit(&e) {
        assert_eq!(controller.handle(&e), Navigation::UnknownTarget);
    }
    assert_eq!(controller.current(), Screen::Login);
}
