//! In-process recovery of library entry points by machine-code pattern
//! scanning, plus the lifetime-coercion helpers that support treating
//! recovered addresses as typed values.
//!
//! The address-recovery pipeline works over an explicit byte view of a
//! code region: a scanner locates a fixed byte anchor, a decoder reads a
//! 4-byte little-endian relative displacement and turns it into an
//! absolute target address, and a slot reader follows one level of
//! loader-filled table indirection. A bootstrap type drives the pipeline
//! to recover the foundational symbol-resolution routines and plans the
//! calls through them. A zero address is the "not resolved" sentinel and
//! is never handed out as a callable target.

pub mod bootstrap;
pub mod decoder;
pub mod reinterpret;
pub mod scanner;
pub mod slot;
pub mod widen;
