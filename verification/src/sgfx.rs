//! The simple graphics library's bookkeeping: resource numbers and the command list it builds.

pub mod resource_tracker;
pub mod command_list_internal;
pub mod transfer_queue;
