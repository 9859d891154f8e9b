//! The trampoline and the handle registry: recovery, detach windows, and
//! event redispatch.

use std::cell::Cell;
use std::rc::Rc;

use webview_bridge::{
    deliver, CommandResponse, DeliverOutcome, DispatchOutcome, HandleRegistry, NativeEvent,
    WebviewBindContext, WebviewCallback, WebviewEngine, WebviewExt,
};

struct SharedCount {
    hits: Rc<Cell<usize>>,
}

impl WebviewBindContext for SharedCount {}

struct CountingCallback;

impl WebviewCallback<SharedCount> for CountingCallback {
    fn invoke(
        &mut self,
        _request_id: &str,
        _payload: &str,
        context: &mut SharedCount,
    ) -> Option<CommandResponse> {
        context.hits.set(context.hits.get() + 1);
        None
    }
}

#[test]
fn registry_recovers_only_between_attach_and_detach() {
    let mut registry = HandleRegistry::new();
    assert_eq!(registry.recover(0xbeef), None);
    registry.attach(0xbeef, 0);
    assert_eq!(registry.recover(0xbeef), Some(0));
    registry.attach(0xbeef, 3);
    assert_eq!(registry.recover(0xbeef), Some(3));
    registry.detach(0xbeef);
    assert_eq!(registry.recover(0xbeef), None);
    // detaching an unknown handle is harmless
    registry.detach(0xbeef);
    assert_eq!(registry.recover(0xbeef), None);
}

#[test]
fn events_after_detach_are_noops_until_reattach() {
    let mut registry = HandleRegistry::new();
    let hits = Rc::new(Cell::new(0));
    let mut wrappers: Vec<WebviewEngine<SharedCount, CountingCallback>> =
        vec![WebviewEngine::new()];
    wrappers[0]
        .bind("poke", SharedCount { hits: hits.clone() }, CountingCallback)
        .unwrap();
    let slot = wrappers[0].bound_slot("poke").unwrap();

    registry.attach(7, 0);
    registry.detach(7);

    let command = NativeEvent::Command {
        slot,
        request_id: String::from("1"),
        payload: String::from("{}"),
    };
    let outcome = deliver(&registry, &mut wrappers, 7, &command);
    assert!(matches!(outcome, DeliverOutcome::Ignored));
    assert_eq!(hits.get(), 0);
    assert_eq!(wrappers[0].pending_count(), 0);

    let resize = NativeEvent::Resize {
        width: 300,
        height: 200,
    };
    let outcome = deliver(&registry, &mut wrappers, 7, &resize);
    assert!(matches!(outcome, DeliverOutcome::Ignored));
    assert_eq!(wrappers[0].measured(), (0, 0));

    // a later attach makes the same handle live again
    registry.attach(7, 0);
    let outcome = deliver(&registry, &mut wrappers, 7, &command);
    assert!(matches!(
        outcome,
        DeliverOutcome::Dispatched(DispatchOutcome::NoResponse)
    ));
    assert_eq!(hits.get(), 1);
    assert!(wrappers[0].is_pending("1"));
}

#[test]
fn resize_events_update_the_recovered_wrapper() {
    let mut registry = HandleRegistry::new();
    let mut wrappers: Vec<WebviewEngine<SharedCount, CountingCallback>> =
        vec![WebviewEngine::new(), WebviewEngine::new()];
    registry.attach(10, 0);
    registry.attach(11, 1);

    let resize = NativeEvent::Resize {
        width: 640,
        height: 480,
    };
    let outcome = deliver(&registry, &mut wrappers, 11, &resize);
    match outcome {
        DeliverOutcome::Resized {
            width,
            height,
            changed,
        } => {
            assert_eq!((width, height), (640, 480));
            assert!(changed);
        }
        other => panic!("expected a resize, got {:?}", other),
    }
    assert_eq!(wrappers[1].measured(), (640, 480));
    assert_eq!(wrappers[0].measured(), (0, 0));

    // the same extent again is recorded but reported unchanged
    let outcome = deliver(&registry, &mut wrappers, 11, &resize);
    assert!(matches!(
        outcome,
        DeliverOutcome::Resized { changed: false, .. }
    ));
}

#[test]
fn unknown_event_kinds_pass_through_to_default_processing() {
    let mut registry = HandleRegistry::new();
    let mut wrappers: Vec<WebviewEngine<SharedCount, CountingCallback>> =
        vec![WebviewEngine::new()];
    registry.attach(4, 0);
    let outcome = deliver(&registry, &mut wrappers, 4, &NativeEvent::Other);
    assert!(matches!(outcome, DeliverOutcome::PassThrough));
    assert_eq!(wrappers[0].call_count(), 0);
}

#[test]
fn a_registry_entry_pointing_nowhere_is_ignored() {
    let mut registry = HandleRegistry::new();
    let mut wrappers: Vec<WebviewEngine<SharedCount, CountingCallback>> =
        vec![WebviewEngine::new()];
    registry.attach(9, 5);
    let outcome = deliver(
        &registry,
        &mut wrappers,
        9,
        &NativeEvent::Resize {
            width: 1,
            height: 1,
        },
    );
    assert!(matches!(outcome, DeliverOutcome::Ignored));
    assert_eq!(wrappers[0].measured(), (0, 0));
}
