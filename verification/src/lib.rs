//! A bridge between a host application and an embedded Python interpreter.
//!
//! The bridge owns the interpreter, loads modules into it, evaluates source
//! text, calls functions, routes what scripts print to the host, and turns
//! values of the one side into values of the other.
//!
//! - [`script`] holds everything that is taken on trust about the
//!   interpreter.
//! - [`host_value`] holds the values of the host's side, [`convert`] the
//!   conversions in both directions and the arguments of calls, and
//!   [`decimal`] the reading of integers from decimal text.
//! - [`python_vm_common`] holds the interpreter with its operations, the
//!   output bridge, and the wording of exceptions; [`registry`] the table of
//!   loaded modules; [`errors`] the failures and their wording.
//! - [`host_vm`] holds the same operations on host values, for a host that
//!   wants nothing else.

pub mod convert;
pub mod decimal;
pub mod errors;
pub mod host_value;
pub mod host_vm;
pub mod python_vm_common;
pub mod registry;
pub mod script;
