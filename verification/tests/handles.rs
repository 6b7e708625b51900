//! Session handle life cycle: issue, look up, destroy exactly once.

use safe_ffi::cast_from_ffi_handle;
use safe_ffi::create_account;
use safe_ffi::create_unregistered_client;
use safe_ffi::drop_client;
use safe_ffi::log_in;
use safe_ffi::register_network_event_observer;
use safe_ffi::FfiRegistry;

#[test]
fn account_creation_and_login() {
    let mut registry = FfiRegistry::new();

    {
        let mut client_handle: u64 = 0;
        assert_eq!(client_handle, 0);

        {
            let ptr_to_client_handle = &mut client_handle;

            assert_eq!(
                create_account(
                    "0123456789",
                    "0123456789",
                    "0123456789",
                    &mut registry,
                    ptr_to_client_handle
                ),
                0
            );
        }

        assert!(client_handle != 0);
        assert!(drop_client(&mut registry, client_handle).is_ok());
    }

    {
        let mut client_handle: u64 = 0;
        assert_eq!(client_handle, 0);

        {
            let ptr_to_client_handle = &mut client_handle;

            assert_eq!(
                log_in(
                    "0123456789",
                    "0123456789",
                    "0123456789",
                    &mut registry,
                    ptr_to_client_handle
                ),
                0
            );
        }

        assert!(client_handle != 0);
        assert!(drop_client(&mut registry, client_handle).is_ok());
    }
}

#[test]
fn destroy_exactly_once() {
    let mut registry = FfiRegistry::new();
    let mut handle: u64 = 0;
    assert_eq!(create_unregistered_client(&mut registry, &mut handle), 0);
    assert!(cast_from_ffi_handle(&registry, handle).is_ok());

    assert!(drop_client(&mut registry, handle).is_ok());
    // the second destroy of the same handle is refused, not undefined
    assert!(drop_client(&mut registry, handle).is_err());
    assert!(cast_from_ffi_handle(&registry, handle).is_err());
}

#[test]
fn lookup_of_unissued_handle_fails() {
    let registry = FfiRegistry::new();
    assert!(cast_from_ffi_handle(&registry, 0).is_err());
    assert!(cast_from_ffi_handle(&registry, 1).is_err());
    assert!(cast_from_ffi_handle(&registry, 42).is_err());
}

#[test]
fn register_on_dead_handle_fails() {
    let mut registry = FfiRegistry::new();
    let mut handle: u64 = 0;
    assert_eq!(create_unregistered_client(&mut registry, &mut handle), 0);
    assert!(drop_client(&mut registry, handle).is_ok());
    assert!(register_network_event_observer(&mut registry, handle, 1) < 0);
}
