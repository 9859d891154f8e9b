//! Shared-resource registration bookkeeping: register on the first
//! instance, release on the last.

use webview_bridge::ClassRegistration;

#[test]
fn first_acquire_registers_and_last_release_unregisters() {
    let mut reg = ClassRegistration::new();
    assert!(reg.acquire());
    assert!(!reg.acquire());
    assert!(!reg.acquire());
    assert!(!reg.release());
    assert!(!reg.release());
    assert!(reg.release());
    // a fresh first instance registers again
    assert!(reg.acquire());
}
