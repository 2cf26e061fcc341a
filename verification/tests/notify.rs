use wgnt::notify::ip_interface_entry_exists;
use wgnt::notify::notify_registration_result;
use wgnt::notify::set_ip_interface_entry_result;
use wgnt::notify::InterfaceEvent;
use wgnt::notify::PendingInterfaceWait;
use wgnt::notify::MIB_ADD_INSTANCE;
use wgnt::sockaddr::AF_INET;
use wgnt::sockaddr::AF_INET6;
use wgnt::status::OsError;

fn added(luid: u64, family: u16) -> InterfaceEvent {
    InterfaceEvent { luid, family, notification_type: MIB_ADD_INSTANCE }
}

#[test]
fn returns_immediately_when_ipv4_row_exists() {
    // A wait for IPv4 only, and a matching IPv4 row already exists: the
    // check concludes success at once, so the wait never suspends.
    let w = PendingInterfaceWait::new(10, true, false);
    assert_eq!(w.initial_check(Ok(true), Ok(false)), Ok(true));
    assert_eq!(w.initial_check(Ok(true), Err(OsError { code: 31 })), Ok(true));
}

#[test]
fn initial_check_aborts_on_query_failure() {
    let w = PendingInterfaceWait::new(10, true, true);
    assert_eq!(
        w.initial_check(Err(OsError { code: 31 }), Ok(true)),
        Err(OsError { code: 31 })
    );
    assert_eq!(
        w.initial_check(Ok(true), Err(OsError { code: 87 })),
        Err(OsError { code: 87 })
    );
}

#[test]
fn initial_check_pends_when_a_requested_row_is_absent() {
    let w = PendingInterfaceWait::new(10, true, true);
    assert_eq!(w.initial_check(Ok(true), Ok(false)), Ok(false));
    assert_eq!(w.initial_check(Ok(false), Ok(true)), Ok(false));
}

#[test]
fn one_matching_event_completes_the_wait() {
    let mut w = PendingInterfaceWait::new(10, true, false);
    assert!(!w.is_satisfied());

    // Events for another interface, of another notification type, or of an
    // unrequested family leave the wait untouched.
    assert!(!w.handle_event(added(11, AF_INET)));
    assert!(!w.handle_event(InterfaceEvent { luid: 10, family: AF_INET, notification_type: 2 }));
    assert!(!w.handle_event(InterfaceEvent { luid: 10, family: AF_INET, notification_type: 0 }));
    assert!(!w.is_satisfied());

    // Exactly one matching "instance added" event resolves it.
    assert!(w.handle_event(added(10, AF_INET)));
    assert!(w.is_satisfied());

    // Completion is idempotent: later events are no-ops and never fire again.
    assert!(!w.handle_event(added(10, AF_INET)));
    assert!(!w.handle_event(added(10, AF_INET6)));
    assert!(w.is_satisfied());
}

#[test]
fn both_families_must_be_observed() {
    let mut w = PendingInterfaceWait::new(7, true, true);
    assert!(!w.handle_event(added(7, AF_INET)));
    assert!(!w.is_satisfied());
    assert!(w.handle_event(added(7, AF_INET6)));
    assert!(w.is_satisfied());
}

#[test]
fn unrequested_families_count_as_satisfied() {
    let w = PendingInterfaceWait::new(7, false, false);
    assert!(w.is_satisfied());
    assert_eq!(w.initial_check(Ok(false), Ok(false)), Ok(true));
}

#[test]
fn event_of_unknown_family_is_ignored() {
    let mut w = PendingInterfaceWait::new(7, true, false);
    assert!(!w.handle_event(added(7, 99)));
    assert!(!w.is_satisfied());
}

#[test]
fn interface_query_status_classification() {
    assert_eq!(ip_interface_entry_exists(0), Ok(true));
    assert_eq!(ip_interface_entry_exists(1168), Ok(false));
    assert_eq!(ip_interface_entry_exists(5), Err(OsError { code: 5 }));
}

#[test]
fn registration_status_classification() {
    assert_eq!(notify_registration_result(0), Ok(()));
    assert_eq!(notify_registration_result(1450), Err(OsError { code: 1450 }));
}

#[test]
fn row_update_status_classification() {
    assert_eq!(set_ip_interface_entry_result(0), Ok(()));
    assert_eq!(set_ip_interface_entry_result(87), Err(OsError { code: 87 }));
}
