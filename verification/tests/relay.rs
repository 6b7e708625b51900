//! The event relay: fan-out order and clean termination.

use safe_ffi::client::NetworkEvent;
use safe_ffi::create_unregistered_client;
use safe_ffi::deliver_network_event;
use safe_ffi::drop_client;
use safe_ffi::register_network_event_observer;
use safe_ffi::FfiRegistry;

#[test]
fn all_callbacks_invoked_in_registration_order() {
    let mut registry = FfiRegistry::new();
    let mut handle: u64 = 0;
    assert_eq!(create_unregistered_client(&mut registry, &mut handle), 0);

    assert_eq!(register_network_event_observer(&mut registry, handle, 7), 0);
    assert_eq!(register_network_event_observer(&mut registry, handle, 8), 0);
    assert_eq!(register_network_event_observer(&mut registry, handle, 9), 0);

    let connected = deliver_network_event(&mut registry, handle, &NetworkEvent::Connected);
    assert_eq!(connected, vec![(7, 0), (8, 0), (9, 0)]);

    let disconnected = deliver_network_event(&mut registry, handle, &NetworkEvent::Disconnected);
    assert_eq!(disconnected, vec![(7, 1), (8, 1), (9, 1)]);

    // a callback registered after delivery started still joins the list
    assert_eq!(register_network_event_observer(&mut registry, handle, 10), 0);
    let again = deliver_network_event(&mut registry, handle, &NetworkEvent::Connected);
    assert_eq!(again, vec![(7, 0), (8, 0), (9, 0), (10, 0)]);

    assert!(drop_client(&mut registry, handle).is_ok());
}

#[test]
fn destroy_before_any_event_invokes_nothing() {
    let mut registry = FfiRegistry::new();
    let mut handle: u64 = 0;
    assert_eq!(create_unregistered_client(&mut registry, &mut handle), 0);

    assert_eq!(register_network_event_observer(&mut registry, handle, 3), 0);
    assert_eq!(register_network_event_observer(&mut registry, handle, 4), 0);

    // destroying the handle stops the relay before any event arrived
    assert!(drop_client(&mut registry, handle).is_ok());

    // nothing is ever invoked on the destroyed session
    let after = deliver_network_event(&mut registry, handle, &NetworkEvent::Connected);
    assert!(after.is_empty());
}

#[test]
fn no_invocation_before_first_registration() {
    let mut registry = FfiRegistry::new();
    let mut handle: u64 = 0;
    assert_eq!(create_unregistered_client(&mut registry, &mut handle), 0);

    let none = deliver_network_event(&mut registry, handle, &NetworkEvent::Connected);
    assert!(none.is_empty());

    assert!(drop_client(&mut registry, handle).is_ok());
}
