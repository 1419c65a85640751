//! Readiness notification: registrations of descriptors under tokens and
//! interests, the kernel's readiness records and the events made of them,
//! and a selector that emulates level-triggered readiness over a completion
//! port by driving one readiness probe per registered socket.

pub mod error;
pub mod event;
pub mod interest;
pub mod invariants;
pub mod io_source;
pub mod selector;
pub mod sock_state;
pub mod sys_event;
pub mod timeout;
pub mod token;
pub mod uds;
