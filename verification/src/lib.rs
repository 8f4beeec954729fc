//! Core primitives of a hardware-abstraction layer for a microcontroller's
//! peripheral set.
//!
//! The crate models the two ownership problems at the heart of such a layer:
//!
//! * [`reg_proxy`] turns "a shared reference into a single static register
//!   block" into an ownable, movable, zero-storage handle per register: a
//!   [`reg_proxy::RegProxy`] carries no data and resolves to a fixed bus
//!   address determined entirely by its type-level binding.
//! * [`periph`] encodes the peripheral lifecycle in the type system: a
//!   peripheral handle is parameterized by a marker state (`Disabled` or
//!   `Enabled`), and only the enable transition — which needs the clock
//!   controller as a witness — yields a handle whose registers a driver may
//!   touch.
//!
//! [`mmio`] supplies the word-addressed register bus that proxies read and
//! write through, [`clock`] the clock/power controller whose gating register
//! the lifecycle transitions manipulate, and [`device`] a concrete device
//! model with a take-once peripheral set.

pub mod bits;
pub mod clock;
pub mod device;
pub mod mmio;
pub mod periph;
pub mod reg_proxy;
