//! Bring-up path for a tunnel's virtual network adapter on Windows:
//! loading the vendor driver library, creating and releasing the adapter
//! instance it exposes, waiting until the requested IP protocol stacks have
//! attached to the adapter, and converting between generic socket addresses
//! and the OS's tagged address-family structure.
//!
//! The operating-system calls themselves (mapping the library image,
//! resolving exports, invoking the driver entry points, registering for
//! interface-change notifications) happen outside this crate; the logic that
//! decides what to call, classifies every raw outcome, and tracks the
//! resulting state is verified here.

pub mod adapter;
pub mod driver;
pub mod notify;
pub mod sockaddr;
pub mod status;
pub mod tunnel;
pub mod wide;
