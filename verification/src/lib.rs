//! An interactive confirmation modal for a terminal application driven by an
//! autonomous agent: when the agent proposes an action that can mutate the
//! user's environment — running a shell command or applying a file patch — the
//! modal blocks that action until the human operator approves it, approves it
//! for the session, denies it, or aborts it.
//!
//! The crate covers the modal's state machine, its decision-emission protocol
//! and its layout contract. The host event loop that dispatches key events,
//! paints the screen and consumes the emitted notifications lives outside.

pub mod catalog;
pub mod feedback;
pub mod keys;
pub mod layout;
pub mod protocol;
pub mod request;
pub mod widget;
pub mod wrap;
