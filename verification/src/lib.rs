//! Hardware abstraction core for a single-core RISC-V microcontroller.
//!
//! The peripherals are modelled as explicit register files: plain structs
//! whose fields stand for the memory-mapped registers, one value per
//! register field. Every driver operation is a verified function from the
//! register state (and the driver's own bookkeeping) to the next state,
//! so the register-programming rules of the datasheet become contracts.
//! Suspended computations are identified by plain continuation ids; an
//! operation that would resume one reports its id to the caller, and the
//! cooperative scheduler that embeds this core re-polls it.

pub mod critical;
pub mod pfic;
pub mod sys;
pub mod sysclk;
pub mod usb;
pub mod waker;
