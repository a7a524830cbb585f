//! Device-side logic of vhost-user backends for virtual machines.

pub mod byte_order;
pub mod error;
pub mod event_loop;
pub mod frontend_request;
pub mod host;
pub mod incoming;
pub mod mapping_plan;
pub mod message;
pub mod no_overlap_mapping;
pub mod outgoing;
pub mod pair_handler;
pub mod queue_pair;
pub mod raw_async;
pub mod transport;
pub mod vhost_guest;
pub mod virtio_vhost_user;
