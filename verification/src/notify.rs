//! Waiting until the OS has attached the requested IP protocol stacks to a
//! given adapter.
//!
//! The OS pushes interface-change events from a thread of its own; the
//! wait is a two-state machine — waiting or satisfied — fed one event at a
//! time, with one completion signal that fires when the last requested
//! family has been observed.  Subscribing happens strictly before the
//! direct existence check, so an attach that races with the check is seen
//! by one of the two; the machine here accepts events in any order and at
//! any time, which is what makes that hand-off safe.

use crate::sockaddr::AF_INET;
use crate::sockaddr::AF_INET6;
use crate::status::ERROR_NOT_FOUND;
use crate::status::NO_ERROR;
use crate::status::OsError;
use vstd::prelude::*;

verus! {

/// Notification type of an interface-change event that reports a newly
/// added instance; other transition kinds carry other values.
pub const MIB_ADD_INSTANCE: u32 = 1;

/// One interface-change event as the OS delivers it: the identifier of the
/// interface the event is about, the address family of the row, and the
/// kind of transition.
#[derive(Clone, Copy, Debug, PartialEq, Eq, Structural)]
pub struct InterfaceEvent {
    pub luid: u64,
    pub family: u16,
    pub notification_type: u32,
}

/// The wait for one adapter's protocol stacks: which adapter, which
/// families were requested, and which of them have been observed attached.
/// A family that was not requested counts as satisfied from the start.
#[derive(Clone, Copy, Debug, PartialEq, Eq, Structural)]
pub struct PendingInterfaceWait {
    pub luid: u64,
    pub want_ipv4: bool,
    pub want_ipv6: bool,
    pub found_ipv4: bool,
    pub found_ipv6: bool,
}

impl PendingInterfaceWait {
    /// Both requested families have been observed: the wait is over.
    pub open spec fn satisfied(self) -> bool {
        self.found_ipv4 && self.found_ipv6
    }

    /// Both requested families have been observed: the wait is over.
    pub fn is_satisfied(&self) -> (r: bool)
        ensures
            r == self.satisfied(),
    {
        self.found_ipv4 && self.found_ipv6
    }

    /// A fresh wait for the given adapter: families not requested are
    /// already satisfied, so a wait that requests nothing is satisfied at
    /// once.
    pub fn new(luid: u64, want_ipv4: bool, want_ipv6: bool) -> (w: PendingInterfaceWait)
        ensures
            w.luid == luid,
            w.want_ipv4 == want_ipv4,
            w.want_ipv6 == want_ipv6,
            w.found_ipv4 == !want_ipv4,
            w.found_ipv6 == !want_ipv6,
            w.satisfied() <==> (!want_ipv4 && !want_ipv6),
    {
        PendingInterfaceWait {
            luid,
            want_ipv4,
            want_ipv6,
            found_ipv4: !want_ipv4,
            found_ipv6: !want_ipv6,
        }
    }

    /// What one event does to the wait: nothing once satisfied, nothing
    /// for a transition other than "instance added", nothing for another
    /// interface's event, and otherwise it marks the event's family as
    /// observed.
    pub open spec fn step(self, e: InterfaceEvent) -> PendingInterfaceWait {
        if self.satisfied() {
            self
        } else if e.notification_type != MIB_ADD_INSTANCE {
            self
        } else if e.luid != self.luid {
            self
        } else if e.family == AF_INET {
            PendingInterfaceWait { found_ipv4: true, ..self }
        } else if e.family == AF_INET6 {
            PendingInterfaceWait { found_ipv6: true, ..self }
        } else {
            self
        }
    }

    /// Feeds one event into the wait and says whether the completion
    /// signal fires now.  It fires at most once: exactly on the event that
    /// turns the wait satisfied, and never again afterwards.
    pub fn handle_event(&mut self, e: InterfaceEvent) -> (fire: bool)
        ensures
            *final(self) == old(self).step(e),
            fire == (!old(self).satisfied() && old(self).step(e).satisfied()),
    {
        if self.found_ipv4 && self.found_ipv6 {
            return false;
        }
        if e.notification_type != MIB_ADD_INSTANCE {
            return false;
        }
        if e.luid != self.luid {
            return false;
        }
        if e.family == AF_INET {
            self.found_ipv4 = true;
        } else if e.family == AF_INET6 {
            self.found_ipv6 = true;
        }
        self.found_ipv4 && self.found_ipv6
    }
}

/// The wait after a whole sequence of events, fed in order.
pub open spec fn step_all(
    w: PendingInterfaceWait,
    events: Seq<InterfaceEvent>,
) -> PendingInterfaceWait
    decreases events.len(),
{
    if events.len() == 0 {
        w
    } else {
        step_all(w.step(events.first()), events.drop_first())
    }
}

/// Events that are not "instance added" transitions, or that concern
/// another interface, leave the wait unchanged.
pub proof fn lemma_unrelated_event_ignored(w: PendingInterfaceWait, e: InterfaceEvent)
    requires
        e.notification_type != MIB_ADD_INSTANCE || e.luid != w.luid,
    ensures
        w.step(e) == w,
{
}

/// A whole stream of such events leaves the wait unchanged: the wait is
/// unaffected by events for a different identifier or of a different
/// notification type.
pub proof fn lemma_unrelated_events_ignored(w: PendingInterfaceWait, events: Seq<InterfaceEvent>)
    requires
        forall|i: int|
            0 <= i < events.len() ==> events[i].notification_type != MIB_ADD_INSTANCE
                || events[i].luid != w.luid,
    ensures
        step_all(w, events) == w,
    decreases events.len(),
{
    if events.len() > 0 {
        lemma_unrelated_event_ignored(w, events.first());
        assert(forall|i: int|
            0 <= i < events.drop_first().len() ==> events.drop_first()[i] == events[i + 1]);
        lemma_unrelated_events_ignored(w, events.drop_first());
    }
}

/// Exactly one "instance added" event for the requested identifier and the
/// one still-awaited family completes the wait and fires the signal.
pub proof fn lemma_matching_event_completes(w: PendingInterfaceWait, e: InterfaceEvent)
    requires
        !w.satisfied(),
        e.notification_type == MIB_ADD_INSTANCE,
        e.luid == w.luid,
        e.family == AF_INET ==> w.found_ipv6,
        e.family == AF_INET6 ==> w.found_ipv4,
        e.family == AF_INET || e.family == AF_INET6,
    ensures
        w.step(e).satisfied(),
{
}

/// Once satisfied, the wait is inert: every further event changes nothing,
/// so completion is idempotent and late events are no-ops.
pub proof fn lemma_satisfied_is_terminal(w: PendingInterfaceWait, e: InterfaceEvent)
    requires
        w.satisfied(),
    ensures
        w.step(e) == w,
        w.step(e).satisfied(),
{
}

/// Once satisfied, the wait stays satisfied and unchanged through any
/// stream of further events.
pub proof fn lemma_satisfied_stays(w: PendingInterfaceWait, events: Seq<InterfaceEvent>)
    requires
        w.satisfied(),
    ensures
        step_all(w, events) == w,
    decreases events.len(),
{
    if events.len() > 0 {
        lemma_satisfied_is_terminal(w, events.first());
        lemma_satisfied_stays(w, events.drop_first());
    }
}

/// The wait resolves on exactly the one matching "instance added" event:
/// a stream of events for other interfaces or of other notification types,
/// then the matching event, then anything at all, leaves the wait
/// satisfied — and nothing before the matching event satisfied it.
pub proof fn lemma_one_matching_event_resolves(
    w: PendingInterfaceWait,
    before: Seq<InterfaceEvent>,
    e: InterfaceEvent,
    after: Seq<InterfaceEvent>,
)
    requires
        !w.satisfied(),
        forall|i: int|
            0 <= i < before.len() ==> before[i].notification_type != MIB_ADD_INSTANCE
                || before[i].luid != w.luid,
        e.notification_type == MIB_ADD_INSTANCE,
        e.luid == w.luid,
        e.family == AF_INET ==> w.found_ipv6,
        e.family == AF_INET6 ==> w.found_ipv4,
        e.family == AF_INET || e.family == AF_INET6,
    ensures
        !step_all(w, before).satisfied(),
        step_all(step_all(w, before).step(e), after).satisfied(),
        step_all(step_all(w, before).step(e), after) == w.step(e),
{
    lemma_unrelated_events_ignored(w, before);
    lemma_matching_event_completes(w, e);
    lemma_satisfied_stays(w.step(e), after);
}

/// What registering the interface-change callback came to: registered, or
/// the native error code surfaced verbatim.
pub fn notify_registration_result(status: u32) -> (r: Result<(), OsError>)
    ensures
        status == NO_ERROR ==> r == Ok::<(), OsError>(()),
        status != NO_ERROR ==> r == Err::<(), OsError>(OsError { code: status }),
{
    if status == NO_ERROR {
        Ok(())
    } else {
        Err(OsError { code: status })
    }
}

/// What writing an interface row's properties back to the OS came to:
/// applied, or the native error code surfaced verbatim.
pub fn set_ip_interface_entry_result(status: u32) -> (r: Result<(), OsError>)
    ensures
        status == NO_ERROR ==> r == Ok::<(), OsError>(()),
        status != NO_ERROR ==> r == Err::<(), OsError>(OsError { code: status }),
{
    if status == NO_ERROR {
        Ok(())
    } else {
        Err(OsError { code: status })
    }
}

/// What querying the OS for an interface row came to: the row exists, the
/// row does not exist, or a failure with its native code surfaced
/// verbatim.
pub fn ip_interface_entry_exists(status: u32) -> (r: Result<bool, OsError>)
    ensures
        status == NO_ERROR ==> r == Ok::<bool, OsError>(true),
        status == ERROR_NOT_FOUND ==> r == Ok::<bool, OsError>(false),
        status != NO_ERROR && status != ERROR_NOT_FOUND ==> r == Err::<bool, OsError>(
            OsError { code: status },
        ),
{
    if status == NO_ERROR {
        Ok(true)
    } else if status == ERROR_NOT_FOUND {
        Ok(false)
    } else {
        Err(OsError { code: status })
    }
}

/// What the direct existence check right after subscribing concludes from
/// the per-family queries: `Ok(true)` exactly when every requested family
/// already has a row — the wait then returns without suspending — and the
/// first failed query for a requested family aborts the wait with that
/// error.  The families are examined in the order IPv4, IPv6, and a
/// query's answer is only consulted when its family is requested and every
/// family before it was found present.
pub open spec fn initial_check_model(
    want_ipv4: bool,
    want_ipv6: bool,
    ipv4_row: Result<bool, OsError>,
    ipv6_row: Result<bool, OsError>,
) -> Result<bool, OsError> {
    if want_ipv4 && ipv4_row is Err {
        Err(ipv4_row->Err_0)
    } else if !want_ipv4 || ipv4_row == Ok::<bool, OsError>(true) {
        if want_ipv6 && ipv6_row is Err {
            Err(ipv6_row->Err_0)
        } else {
            Ok(!want_ipv6 || ipv6_row == Ok::<bool, OsError>(true))
        }
    } else {
        Ok(false)
    }
}

impl PendingInterfaceWait {
    /// The direct existence check of the wait, performed right after
    /// subscribing; see `initial_check_model` for what it concludes.
    pub fn initial_check(
        &self,
        ipv4_row: Result<bool, OsError>,
        ipv6_row: Result<bool, OsError>,
    ) -> (r: Result<bool, OsError>)
        ensures
            r == initial_check_model(self.want_ipv4, self.want_ipv6, ipv4_row, ipv6_row),
    {
        if self.want_ipv4 {
            match ipv4_row {
                Err(e) => {
                    return Err(e);
                },
                Ok(false) => {
                    return Ok(false);
                },
                Ok(true) => {},
            }
        }
        if self.want_ipv6 {
            match ipv6_row {
                Err(e) => Err(e),
                Ok(present) => Ok(present),
            }
        } else {
            Ok(true)
        }
    }
}

/// A wait that requests IPv4 only returns immediately — it never suspends —
/// when a matching IPv4 row already exists at call time, whatever the IPv6
/// query would have said.
pub proof fn lemma_ipv4_row_present_returns_immediately(ipv6_row: Result<bool, OsError>)
    ensures
        initial_check_model(true, false, Ok::<bool, OsError>(true), ipv6_row) == Ok::<
            bool,
            OsError,
        >(true),
{
}

} // verus!
