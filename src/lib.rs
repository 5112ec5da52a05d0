//! Partitioning of one microcontroller's flash and RAM into independently
//! built firmware images ("cells") that call each other through fixed-address
//! headers checked at run time.
//!
//! - [`meta`]: the device configuration and the registry of cells, with the
//!   absolute address of each window and the checks a registry must pass.
//! - [`partition`]: the split of a cell's flash window into body and header slot.
//! - [`layout`]: the placement each cell's build hands to the linker.
//! - [`hash`]: the structural hash of a header's declared field layout.
//! - [`wrapper`]: headers, their validation, and the wrapper that memoizes it.
//! - [`device`]: the plan for bringing a cell's memory up.
//! - [`critical_section`]: nesting-safe interrupt masking and the mutex built on it.

pub mod critical_section;
pub mod device;
pub mod hash;
pub mod layout;
pub mod meta;
pub mod partition;
pub mod wrapper;
