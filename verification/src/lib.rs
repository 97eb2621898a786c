//! Decision logic for a chat-bot that offers a numbered selection menu.
//!
//! The crate models the control flow of a small event-driven bot: a slash
//! command shows an ephemeral menu of the numbers 1 through 10, waits a
//! bounded time for the user's choice, relays the choice in a direct
//! message, and falls back to in-place status updates when delivery fails.
//! A dispatcher routes incoming events, and an ancillary relay formats a
//! message's attachment list.  Everything here is pure computation on plain
//! values; the network-facing event loop lives outside and consults these
//! functions for every decision.

pub mod dispatch;
pub mod messages;
pub mod relay;
pub mod selection;
