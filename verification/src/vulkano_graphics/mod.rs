//! Other ways of choosing a device and its queue families: by the number of
//! queues of a family, and with a family that computes without drawing.

pub mod initialization;
pub mod physical_device;
pub mod queue_families;
