//! Verified core of a type-safe front end for the Boolector SMT solver.
//!
//! The library decides; it never touches the engine. Every operation that
//! needs the engine returns a `NativeCall`: which engine function to call,
//! on which session, with which raw handles. The caller makes the call and
//! hands the engine's answer to the matching `from_ffi` constructor, which
//! wraps it in a typed handle bound to its solver.
//!
//! Raw handles are kept as addresses (`usize`); a handle of this library
//! always holds a non-null address.

pub use self::bit_vec_assignment::{bytes_as_text, is_assignment_text, is_bit, BitVecAssignment};
pub use self::builder::Builder;
pub use self::generate_model::GenerateModel;
pub use self::model::{is_assignment_of, Model};
pub use self::native::{
    BtorOption, CallView, NativeCall, NodeFn1, NodeFn2, NodeFn3, BTOR_RESULT_SAT, BTOR_RESULT_UNSAT,
};
pub use self::node::{check_shift_operands, shift_operands_ok, Node, NodeError, NodeOp};
pub use self::node_ref::NodeRef;
pub use self::shift::{check_shift_widths, lemma_shift_widths_match, shift_widths_match};
pub use self::solve_result::SolveResult;
pub use self::solver::Solver;
pub use self::sort::{Sort, SortError};
pub use self::sort_ref::{engine_symbol, has_nul, SortKind, SortRef};
pub use self::unsigned::Unsigned;

mod bit_vec_assignment;
mod builder;
mod generate_model;
mod model;
mod native;
mod node;
mod node_ref;
mod shift;
mod solve_result;
mod solver;
mod sort;
mod sort_ref;
mod unsigned;
