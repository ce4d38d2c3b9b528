use hades::application::{Application, DispatchReport, Notification};
use hades::events::{Event, EventType};
use hades::layers::{Layer, LayerBehavior, LayerParam};

fn layer(name: &str, id: u64, behavior: LayerBehavior) -> Layer {
    Layer::new(String::from(name), id, behavior)
}

/// An application as constructed at startup, with its mandatory base layer.
fn fresh_app() -> Application {
    Application::new(layer("Base", 0, LayerBehavior::Observer), LayerParam::NoConfig)
}

/// An application whose base layer has been removed again, for the
/// zero-layer and hand-built-stack scenarios.
fn empty_app() -> Application {
    let mut app = fresh_app();
    app.pop_layer(&layer("Base probe", 0, LayerBehavior::Observer))
        .expect("the base layer is present after construction");
    app
}

#[test]
fn construction_attaches_base_layer() {
    let app = fresh_app();
    assert!(app.is_running());
    let layers = app.get_layer_stack().get_layers();
    assert_eq!(layers.len(), 1);
    assert_eq!(layers[0].get_name(), "Base");
    assert_eq!(layers[0].id, 0);
    assert!(layers[0].attached);
    assert_eq!(layers[0].events_seen, 0);
    assert_eq!(layers[0].updates, 0);
}

fn events_seen(app: &Application) -> Vec<u64> {
    app.get_layer_stack().get_layers().iter().map(|l| l.events_seen).collect()
}

fn updates(app: &Application) -> Vec<u64> {
    app.get_layer_stack().get_layers().iter().map(|l| l.updates).collect()
}

#[test]
fn push_layer_attaches() {
    let mut app = empty_app();
    app.push_layer(layer("A", 1, LayerBehavior::Observer), LayerParam::NoConfig);
    app.push_overlay(layer("C", 3, LayerBehavior::Observer), LayerParam::Window(8));
    for l in app.get_layer_stack().get_layers() {
        assert!(l.attached);
    }
}

#[test]
fn dispatch_short_circuits_at_first_consumer() {
    // Stack [A, B, C]: dispatch order is C, B, A.  B consumes, so C and B
    // see the event, A never does, and the flag ends up set.
    let mut app = empty_app();
    app.push_layer(layer("A", 1, LayerBehavior::Observer), LayerParam::NoConfig);
    app.push_layer(layer("B", 2, LayerBehavior::ConsumeAll), LayerParam::NoConfig);
    app.push_overlay(layer("C", 3, LayerBehavior::Observer), LayerParam::NoConfig);
    let out = app.on_event(Event::new(EventType::AppTick));
    assert!(out.is_handled());
    assert_eq!(events_seen(&app), vec![0, 1, 1]);
}

#[test]
fn dispatch_stops_at_topmost_consumer() {
    // Both B and C would consume; only C, the topmost, ever sees the event.
    let mut app = empty_app();
    app.push_layer(layer("B", 2, LayerBehavior::ConsumeAll), LayerParam::NoConfig);
    app.push_overlay(layer("C", 3, LayerBehavior::ConsumeAll), LayerParam::NoConfig);
    let out = app.on_event(Event::new(EventType::AppTick));
    assert!(out.is_handled());
    assert_eq!(events_seen(&app), vec![0, 1]);
}

#[test]
fn dispatch_without_consumer_keeps_flag_and_visits_all() {
    let mut app = empty_app();
    app.push_layer(layer("A", 1, LayerBehavior::Observer), LayerParam::NoConfig);
    app.push_layer(layer("B", 2, LayerBehavior::Observer), LayerParam::NoConfig);
    let out = app.on_event(Event::new(EventType::AppTick));
    assert!(!out.is_handled());
    assert_eq!(events_seen(&app), vec![1, 1]);

    // A pre-set flag (the privileged close) survives a consumer-less pass.
    let mut close = Event::new(EventType::WindowClose);
    close.set_handled(true);
    let out = app.on_event(close);
    assert!(out.is_handled());
    assert_eq!(events_seen(&app), vec![2, 2]);
}

#[test]
fn category_consumer_picks_its_events() {
    // B consumes keyboard input only (keyboard category bit is 4).
    let mut app = empty_app();
    app.push_layer(layer("A", 1, LayerBehavior::Observer), LayerParam::NoConfig);
    app.push_layer(layer("B", 2, LayerBehavior::ConsumeCategory { mask: 4 }), LayerParam::NoConfig);
    let out = app.on_event(Event::new(EventType::KeyPressed { keycode: 65, repeat_count: 0 }));
    assert!(out.is_handled());
    assert_eq!(events_seen(&app), vec![0, 1]);
    let out = app.on_event(Event::new(EventType::MouseMoved { x: 1, y: 2 }));
    assert!(!out.is_handled());
    assert_eq!(events_seen(&app), vec![1, 2]);
}

#[test]
fn close_scenario_with_zero_layers() {
    let mut app = empty_app();
    assert!(app.is_running());
    let r = app.handle_notification(Notification::CloseRequested);
    assert!(r.dispatched);
    assert!(r.handled);
    assert!(r.exit_requested);
    assert!(!app.is_running());
    assert_eq!(r.log_line.as_deref(), Some("WindowClose"));
    // The transition happens exactly once: a second close notification does
    // not request the exit signal again.
    let r2 = app.handle_notification(Notification::CloseRequested);
    assert!(r2.handled);
    assert!(!r2.exit_requested);
    assert!(!app.is_running());
}

#[test]
fn close_is_privileged_over_layers() {
    // Even a stack of pure observers leaves the close event handled, and the
    // close still reaches every layer.
    let mut app = empty_app();
    app.push_layer(layer("A", 1, LayerBehavior::Observer), LayerParam::NoConfig);
    let r = app.handle_notification(Notification::CloseRequested);
    assert!(r.handled);
    assert!(r.exit_requested);
    assert!(!app.is_running());
    assert_eq!(events_seen(&app), vec![1]);
}

#[test]
fn resize_scenario() {
    let mut app = empty_app();
    let r = app.handle_notification(Notification::Resized { width: 800, height: 600 });
    assert!(r.dispatched);
    assert!(!r.handled);
    assert!(!r.exit_requested);
    assert!(app.is_running());
    let line = r.log_line.expect("dispatched events are logged");
    assert_eq!(line, "WindowsResize 800, 600");
    assert!(line.contains("800") && line.contains("600"));
}

#[test]
fn unrecognized_notification_is_dropped() {
    let mut app = empty_app();
    app.push_layer(layer("A", 1, LayerBehavior::ConsumeAll), LayerParam::NoConfig);
    let r = app.handle_notification(Notification::Unknown);
    assert!(!r.dispatched);
    assert!(!r.handled);
    assert!(!r.exit_requested);
    assert!(r.log_line.is_none());
    assert_eq!(events_seen(&app), vec![0]);
}

#[test]
fn translation_of_input_notifications() {
    let mut app = empty_app();

    let r = app.handle_notification(Notification::Key { keycode: 65, pressed: true, repeat: false });
    assert_eq!(r.log_line.as_deref(), Some("KeyPressedEvent: 65 (0 repeats)"));
    let r = app.handle_notification(Notification::Key { keycode: 65, pressed: true, repeat: true });
    assert_eq!(r.log_line.as_deref(), Some("KeyPressedEvent: 65 (1 repeats)"));
    let r = app.handle_notification(Notification::Key { keycode: 65, pressed: false, repeat: false });
    assert_eq!(r.log_line.as_deref(), Some("KeyReleasedEvent 65"));
    let r = app.handle_notification(Notification::MouseButton { button: 0, pressed: true });
    assert_eq!(r.log_line.as_deref(), Some("MouseButtonPressed 0"));
    let r = app.handle_notification(Notification::MouseButton { button: -1, pressed: false });
    assert_eq!(r.log_line.as_deref(), Some("MouseButtonReleased -1"));
    let r = app.handle_notification(Notification::MouseScroll { x_offset: 0, y_offset: -1 });
    assert_eq!(r.log_line.as_deref(), Some("MouseScrolledEvent 0,-1"));
    let r = app.handle_notification(Notification::CursorMoved { x: 12, y: 34 });
    assert_eq!(r.log_line.as_deref(), Some("MouseMovedEvent (12,34)"));
    let r = app.handle_notification(Notification::Redraw);
    assert_eq!(r.log_line.as_deref(), Some("AppRender"));
}

#[test]
fn frame_tick_updates_every_layer_front_to_back() {
    let mut app = empty_app();
    app.push_layer(layer("A", 1, LayerBehavior::Observer), LayerParam::NoConfig);
    app.push_overlay(layer("C", 3, LayerBehavior::Observer), LayerParam::NoConfig);
    let r: DispatchReport = app.handle_notification(Notification::BeginFrame);
    assert!(r.dispatched);
    assert_eq!(r.log_line.as_deref(), Some("AppTick"));
    assert_eq!(updates(&app), vec![1, 1]);
    // The tick event itself was dispatched too.
    assert_eq!(events_seen(&app), vec![1, 1]);
    app.on_update();
    assert_eq!(updates(&app), vec![2, 2]);
}

#[test]
fn application_pop_layers() {
    let mut app = empty_app();
    app.push_layer(layer("A", 1, LayerBehavior::Observer), LayerParam::NoConfig);
    app.push_overlay(layer("C", 3, LayerBehavior::Observer), LayerParam::NoConfig);
    let removed = app.pop_layer(&layer("A probe", 1, LayerBehavior::Observer)).expect("present");
    assert_eq!(removed.id, 1);
    assert!(app.pop_layer(&layer("C probe", 3, LayerBehavior::Observer)).is_err());
    let removed = app.pop_overlay(&layer("C probe", 3, LayerBehavior::Observer)).expect("present");
    assert_eq!(removed.id, 3);
    assert_eq!(app.get_layer_stack().len(), 0);
}
