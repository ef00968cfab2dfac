use ws_client::emitter::{Emitter, Payload};

#[test]
fn emit_invokes_registered_callback_with_payload() {
    let mut router: Emitter<u64> = Emitter::new();
    router.on("trades".to_string(), 7);
    let payload = Payload::Data("tick".to_string());
    let decision = router.emit("trades".to_string(), &payload);
    match decision {
        Some((handler, delivered)) => {
            assert_eq!(*handler, 7);
            assert_eq!(delivered, &payload);
        }
        None => panic!("registered topic must dispatch"),
    }
}

#[test]
fn emit_unregistered_topic_invokes_nothing() {
    let router: Emitter<u64> = Emitter::new();
    let payload = Payload::Data("tick".to_string());
    assert!(router.emit("orders".to_string(), &payload).is_none());
}

#[test]
fn on_replaces_existing_callback() {
    let mut router: Emitter<u64> = Emitter::new();
    router.on("trades".to_string(), 1);
    router.on("trades".to_string(), 2);
    let payload = Payload::Data("tick".to_string());
    let decision = router.emit("trades".to_string(), &payload);
    assert_eq!(*decision.unwrap().0, 2);
    assert_eq!(router.get_handlers_names(), vec!["trades".to_string()]);
}

#[test]
fn off_removes_callback() {
    let mut router: Emitter<u64> = Emitter::new();
    router.on("trades".to_string(), 1);
    router.off("trades".to_string());
    let payload = Payload::Data("tick".to_string());
    assert!(router.emit("trades".to_string(), &payload).is_none());
    assert!(router.get_handlers_names().is_empty());
}

#[test]
fn off_unregistered_topic_is_harmless() {
    let mut router: Emitter<u64> = Emitter::new();
    router.on("trades".to_string(), 1);
    router.off("orders".to_string());
    assert_eq!(router.get_handlers_names(), vec!["trades".to_string()]);
}

#[test]
fn handler_names_keep_registration_order() {
    let mut router: Emitter<u64> = Emitter::new();
    router.on("trades".to_string(), 1);
    router.on("orders".to_string(), 2);
    router.on("book".to_string(), 3);
    // Re-registering an existing topic must not move it.
    router.on("orders".to_string(), 4);
    assert_eq!(
        router.get_handlers_names(),
        vec!["trades".to_string(), "orders".to_string(), "book".to_string()]
    );
}

#[test]
fn off_keeps_relative_order_of_the_rest() {
    let mut router: Emitter<u64> = Emitter::new();
    router.on("trades".to_string(), 1);
    router.on("orders".to_string(), 2);
    router.on("book".to_string(), 3);
    router.off("orders".to_string());
    assert_eq!(
        router.get_handlers_names(),
        vec!["trades".to_string(), "book".to_string()]
    );
}
