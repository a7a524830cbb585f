//! How a device is reached from the guest.

use vstd::prelude::*;

verus! {

/// A transport of virtio devices.
pub trait VirtioTransport {
    /// The event descriptors, each with the guest address that signals it.
    type EventFds;

    /// The event descriptors for a device at a guest address.
    fn ioeventfds(&self, base_addr: u64) -> Self::EventFds;
}

} // verus!
