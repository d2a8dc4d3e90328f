use crate::bit_vec_assignment::{bytes_as_text, is_assignment_text, BitVecAssignment};
use crate::native::{CallView, NativeCall};
use crate::node_ref::NodeRef;
use crate::solver::Solver;
use crate::sort_ref::SortKind;
use vstd::prelude::*;

verus! {

/// Model generated for a satisfiable formula.
///
/// It holds no values: each is asked of the engine when it is wanted.
pub struct Model<'a> {
    solver: &'a Solver,
}

/// Whether `bytes` is what the engine may answer for the value of `expr`:
/// `expr` is a bit vector, and the bytes are an assignment of its width.
pub open spec fn is_assignment_of(bytes: Seq<u8>, expr: &NodeRef) -> bool {
    expr.spec_kind() matches SortKind::BitVec(width) && is_assignment_text(
        bytes_as_text(bytes),
        width,
    )
}

impl<'a> Model<'a> {
    /// The model of `solver`.
    pub closed spec fn spec_new(solver: &'a Solver) -> Model<'a> {
        Model { solver }
    }

    /// The parent solver instance.
    pub closed spec fn spec_solver(&self) -> Solver {
        *self.solver
    }

    /// A model is its solver's, and nothing more.
    pub broadcast proof fn lemma_model_of_solver(solver: &'a Solver)
        ensures
            (#[trigger] Self::spec_new(solver)).spec_solver() == *solver,
    {
    }

    pub(crate) fn new(solver: &'a Solver) -> (model: Self)
        ensures
            model == Self::spec_new(solver),
            model.spec_solver() == *solver,
    {
        Model { solver }
    }

    /// Return parent solver instance.
    pub fn solver(&self) -> (solver: &'a Solver)
        ensures
            *solver == self.spec_solver(),
    {
        self.solver
    }

    /// Return assignment for a bit vector expression: the call that asks the
    /// engine for it. The answer goes to `bit_vec_from_ffi`.
    ///
    /// A node of another solver must not get here.
    pub fn bit_vec(&self, expr: &NodeRef) -> (call: NativeCall)
        requires
            expr.belongs_to(&self.spec_solver()),
        ensures
            call@ == (CallView::BvAssignment {
                btor: self.spec_solver().spec_btor_ptr(),
                node: expr.spec_node_ptr(),
            }),
    {
        NativeCall::BvAssignment { btor: self.solver.btor_ptr(), node: expr.node_ptr() }
    }

    /// Wrap what the engine returned for `bit_vec` on `expr`: the address of
    /// its text, and the bytes of the text up to the NUL that ends it.
    ///
    /// `Ok` where the text has one character for each bit of `expr`, each of
    /// them `0`, `1` or `x`. Anything else is not an assignment: the result
    /// is then the call that frees the text, so that it is not lost.
    pub fn bit_vec_from_ffi(&self, expr: &NodeRef, value_ptr: usize, bytes: &[u8]) -> (r: Result<
        BitVecAssignment<'a>,
        NativeCall,
    >)
        requires
            expr.belongs_to(&self.spec_solver()),
            value_ptr != 0,
        ensures
            r is Ok <==> is_assignment_of(bytes@, expr),
            r matches Ok(a) ==> {
                &&& expr.spec_kind() matches SortKind::BitVec(width)
                &&& is_assignment_text(a.spec_text(), width)
                &&& a.spec_solver() == self.spec_solver()
                &&& a.spec_value_ptr() == value_ptr
                &&& a.spec_text() == bytes_as_text(bytes@)
            },
            r matches Err(call) ==> call@ == (CallView::FreeBvAssignment {
                btor: self.spec_solver().spec_btor_ptr(),
                assignment: value_ptr,
            }),
    {
        let read = match expr.kind() {
            SortKind::BitVec(width) => BitVecAssignment::read(self.solver, value_ptr, bytes, width),
            _ => None,
        };
        match read {
            Some(a) => Ok(a),
            None => Err(
                NativeCall::FreeBvAssignment { btor: self.solver.btor_ptr(), assignment: value_ptr },
            ),
        }
    }
}

} // verus!
