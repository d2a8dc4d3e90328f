use crate::native::{CallView, NativeCall};
use crate::node::Node;
use crate::node_ref::NodeRef;
use crate::sort::Sort;
use vstd::prelude::*;

verus! {

/// Solver instance: one engine session, and the model generation option
/// that the session was built with.
pub struct Solver {
    btor_ptr: usize,
    model_gen: u32,
}

impl Solver {
    #[verifier::type_invariant]
    spec fn well_formed(&self) -> bool {
        self.btor_ptr != 0
    }

    /// The address of the engine session.
    pub closed spec fn spec_btor_ptr(&self) -> usize {
        self.btor_ptr
    }

    /// The value of the session's model generation option; zero is off.
    pub closed spec fn spec_model_gen(&self) -> u32 {
        self.model_gen
    }

    /// The solver of the session at `btor_ptr`, built with `model_gen` as
    /// the value of its model generation option.
    pub closed spec fn spec_from_ffi(btor_ptr: usize, model_gen: u32) -> Solver {
        Solver { btor_ptr, model_gen }
    }

    /// A solver is its session and its model generation option, and nothing
    /// more.
    pub broadcast proof fn lemma_from_ffi(btor_ptr: usize, model_gen: u32)
        ensures
            (#[trigger] Self::spec_from_ffi(btor_ptr, model_gen)).spec_btor_ptr() == btor_ptr,
            Self::spec_from_ffi(btor_ptr, model_gen).spec_model_gen() == model_gen,
    {
    }

    /// Construct a solver instance from raw `Btor` pointer and the value that the
    /// session's model generation option was set to (zero where it was never set).
    pub fn from_ffi(btor_ptr: usize, model_gen: u32) -> (solver: Solver)
        requires
            btor_ptr != 0,
        ensures
            solver == Self::spec_from_ffi(btor_ptr, model_gen),
            solver.spec_btor_ptr() == btor_ptr,
            solver.spec_model_gen() == model_gen,
    {
        Solver { btor_ptr, model_gen }
    }

    /// Consume the solver instance and return the underlying raw `Btor`
    /// pointer. The session is the caller's from now on.
    pub fn into_ffi(self) -> (p: usize)
        ensures
            p == self.spec_btor_ptr(),
            p != 0,
    {
        proof {
            use_type_invariant(&self);
        }
        self.btor_ptr
    }

    /// Return raw `Btor` pointer.
    #[verifier::when_used_as_spec(spec_btor_ptr)]
    pub fn btor_ptr(&self) -> (p: usize)
        ensures
            p == self.spec_btor_ptr(),
            p != 0,
    {
        proof {
            use_type_invariant(self);
        }
        self.btor_ptr
    }

    /// Return the value of the session's model generation option; zero is off.
    #[verifier::when_used_as_spec(spec_model_gen)]
    pub fn model_gen(&self) -> (v: u32)
        ensures
            v == self.spec_model_gen(),
    {
        self.model_gen
    }
}

impl Solver {
    /// Create a node instance: the call that builds the node in this
    /// session. The answer goes to `NodeRef::from_ffi`.
    ///
    /// It is `Node::into_ref`, and asks the same of the node.
    pub fn node<'a>(&'a self, node: Node<'a>) -> (call: NativeCall)
        requires
            node.bound_to(self),
            node.widths_ok(),
        ensures
            call@ == node.spec_into_ref(self),
    {
        node.into_ref(self)
    }

    /// Create a sort instance: the call that makes the sort in this
    /// session. The answer goes to `SortRef::from_ffi`.
    ///
    /// It is `Sort::into_ref`, and asks the same of the description.
    pub fn sort<'a>(&'a self, sort: Sort<'a>) -> (call: NativeCall)
        requires
            sort.bound_to(self),
            sort.valid(),
        ensures
            call@ == sort.spec_into_ref(self),
    {
        sort.into_ref(self)
    }

    /// Assert an expression: the call that adds it to the session's
    /// constraints. The engine gives no answer.
    ///
    /// A node of another solver must not get here.
    pub fn assert_expr<'a>(&'a self, expr: &'a NodeRef<'a>) -> (call: NativeCall)
        requires
            expr.belongs_to(self),
        ensures
            call@ == (CallView::Assert { btor: self.spec_btor_ptr(), node: expr.spec_node_ptr() }),
    {
        NativeCall::Assert { btor: self.btor_ptr, node: expr.node_ptr() }
    }

    /// Solve the formula: the call that runs the engine's solve step, once.
    /// The answer goes to `SolveResult::from_ffi`.
    pub fn solve(&self) -> (call: NativeCall)
        ensures
            call@ == (CallView::Sat { btor: self.spec_btor_ptr() }),
    {
        NativeCall::Sat { btor: self.btor_ptr }
    }

    /// Give the session up: the call that destroys it. The solver is gone,
    /// and no handle can outlive it: each borrows it.
    pub fn delete(self) -> (call: NativeCall)
        ensures
            call@ == (CallView::Delete { btor: self.spec_btor_ptr() }),
    {
        NativeCall::Delete { btor: self.btor_ptr }
    }
}

} // verus!
