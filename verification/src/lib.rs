//! Call traces of an EVM transaction: the frames, the logs and the steps that were executed.
//!
//! A [`trace::CallTrace`] describes one frame. Its steps live in a [`store::StepStore`], which
//! keeps the program counter and the opcode of every step in a dense *base track* and a
//! [`detail::StepDetail`] for the steps that were recorded in full in a sparse *detail overlay*.
//! A [`node::CallTraceNode`] places a frame in the tree of calls and turns it into the frames and
//! actions that the parity and geth tracing interfaces report.
//!
//! Values of `alloy_primitives` are carried through as they are; what the library relies on of
//! them is stated in [`primitives`]. The specification of the step store is
//! [`store::StepTracks`], and [`laws`] holds the properties that relate several operations.

pub mod decoded;
pub mod detail;
pub mod geth;
pub mod kind;
pub mod laws;
pub mod log;
pub mod node;
pub mod opcode;
pub mod parity;
pub mod primitives;
pub mod status;
pub mod store;
pub mod trace;
