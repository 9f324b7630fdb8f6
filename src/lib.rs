//! Session engine of a remote menu service: the menu's selection model, the
//! decoder that turns terminal input into menu actions, the output bridge that
//! queues rendered bytes for the network, and the per-connection state machine.
pub mod bridge;
pub mod input;
pub mod layout;
pub mod menu;
pub mod selection;
pub mod session;
