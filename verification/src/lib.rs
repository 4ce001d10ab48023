//! Expansion logic for the `#[main]` and `#[handler(IRQ)]` attributes of a
//! single-core microcontroller runtime.
//!
//! A function declaration arrives here as a structural description: its name,
//! parameters, return type and qualifiers. For a task entry point and for an
//! interrupt handler the crate checks the signature, resolves the interrupt
//! name against the vector table of the selected chip, and writes the
//! trampolines that adapt the function to the runtime's calling convention.
//!
//! - [`declaration`]: the description of a function and of the attribute's
//!   arguments.
//! - [`signature`]: the signature contract of each kind of declaration.
//! - [`targets`] and [`registry`]: the interrupt vectors of the supported
//!   chips, and the names that the selected one knows.
//! - [`resolver`]: from the attribute's arguments to the interrupt name.
//! - [`emitter`]: the text of the generated functions.
//! - [`transform`]: the two transformations from end to end.
//! - [`error`]: the errors and their messages.
//!
//! Every function is verified against a contract over the views of its
//! arguments.

pub mod declaration;
pub mod emitter;
pub mod error;
pub mod registry;
pub mod resolver;
pub mod signature;
pub mod targets;
pub mod transform;
