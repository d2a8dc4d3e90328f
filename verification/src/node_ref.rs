use crate::native::{CallView, NativeCall, NodeFn1, NodeFn2};
use crate::node::{shift_operands_ok, Node};
use crate::solver::Solver;
use crate::sort_ref::SortKind;
use vstd::prelude::*;

verus! {

/// Expression node reference: one reference to a node of the engine's
/// expression graph, bound to the solver that made it.
pub struct NodeRef<'a> {
    solver: &'a Solver,
    node_ptr: usize,
    kind: SortKind,
}

impl<'a> NodeRef<'a> {
    #[verifier::type_invariant]
    spec fn well_formed(&self) -> bool {
        self.node_ptr != 0 && self.kind.valid()
    }

    /// The parent solver instance.
    pub closed spec fn spec_solver(&self) -> Solver {
        *self.solver
    }

    /// The raw `BoolectorNode` pointer.
    pub closed spec fn spec_node_ptr(&self) -> usize {
        self.node_ptr
    }

    /// The kind of the node's sort.
    pub closed spec fn spec_kind(&self) -> SortKind {
        self.kind
    }

    /// Whether the node is of the session of `solver`. Two solver values
    /// stand for one session where their `Btor` pointers are equal.
    pub open spec fn belongs_to(&self, solver: &Solver) -> bool {
        self.spec_solver().spec_btor_ptr() == solver.spec_btor_ptr()
    }

    /// Return parent solver instance.
    pub fn solver(&self) -> (solver: &'a Solver)
        ensures
            *solver == self.spec_solver(),
    {
        self.solver
    }

    /// Return whether the node is of the session of `solver`.
    pub fn is_of(&self, solver: &Solver) -> (r: bool)
        ensures
            r == self.belongs_to(solver),
    {
        self.solver.btor_ptr() == solver.btor_ptr()
    }

    /// Return the kind of the node's sort.
    #[verifier::when_used_as_spec(spec_kind)]
    pub fn kind(&self) -> (kind: SortKind)
        ensures
            kind == self.spec_kind(),
            kind.valid(),
    {
        proof {
            use_type_invariant(self);
        }
        self.kind
    }

    /// Construct a node reference from raw `BoolectorNode` pointer, its
    /// parent solver and the kind of its sort. The reference that the raw
    /// pointer stands for is the new handle's from now on.
    pub fn from_ffi(solver: &'a Solver, node_ptr: usize, kind: SortKind) -> (node: Self)
        requires
            node_ptr != 0,
            kind.valid(),
        ensures
            node.spec_solver() == *solver,
            node.spec_node_ptr() == node_ptr,
            node.spec_kind() == kind,
    {
        NodeRef { solver, node_ptr, kind }
    }

    /// Consume the node reference and return the underlying raw `BoolectorNode`
    /// pointer. The reference is the caller's to release from now on.
    pub fn into_ffi(self) -> (p: usize)
        ensures
            p == self.spec_node_ptr(),
            p != 0,
    {
        proof {
            use_type_invariant(&self);
        }
        self.node_ptr
    }

    /// Return the underlying raw `BoolectorNode` pointer.
    #[verifier::when_used_as_spec(spec_node_ptr)]
    pub fn node_ptr(&self) -> (p: usize)
        ensures
            p == self.spec_node_ptr(),
            p != 0,
    {
        proof {
            use_type_invariant(self);
        }
        self.node_ptr
    }

    /// The call that takes one more reference to this node. Its answer goes
    /// to `copy_from_ffi`.
    pub fn copy(&self) -> (call: NativeCall)
        ensures
            call@ == (CallView::Copy {
                btor: self.spec_solver().spec_btor_ptr(),
                node: self.spec_node_ptr(),
            }),
    {
        NativeCall::Copy { btor: self.solver.btor_ptr(), node: self.node_ptr }
    }

    /// Wrap the reference that the engine returned for `copy`: a second
    /// handle on the same node of the graph, of the same solver.
    pub fn copy_from_ffi(&self, node_ptr: usize) -> (node: Self)
        requires
            node_ptr != 0,
        ensures
            node.spec_solver() == self.spec_solver(),
            node.spec_node_ptr() == node_ptr,
            node.spec_kind() == self.spec_kind(),
    {
        proof {
            use_type_invariant(self);
        }
        NodeRef { solver: self.solver, node_ptr, kind: self.kind }
    }

    /// Give the reference up: the call that releases it. The handle is gone,
    /// so no reference is released twice.
    pub fn release(self) -> (call: NativeCall)
        ensures
            call@ == (CallView::Release {
                btor: self.spec_solver().spec_btor_ptr(),
                node: self.spec_node_ptr(),
            }),
    {
        NativeCall::Release { btor: self.solver.btor_ptr(), node: self.node_ptr }
    }
}

/// Operators on nodes. Each builds the `Node` of its operator and hands it to
/// `Node::into_ref` with the left operand's solver, so the operands are held
/// to the same rules as there.
impl<'a> NodeRef<'a> {
    /// Integer addition, `self + other`: it is `Node::Add`, built in this
    /// node's solver.
    pub fn add(&'a self, other: &'a Self) -> (call: NativeCall)
        requires
            other.belongs_to(&self.spec_solver()),
        ensures
            call@ == Node::Add(self, other).spec_into_ref(&self.spec_solver()),
            call@ == (CallView::Node2 {
                f: NodeFn2::Add,
                btor: self.spec_solver().spec_btor_ptr(),
                a: self.spec_node_ptr(),
                b: other.spec_node_ptr(),
            }),
    {
        Node::Add(self, other).into_ref(self.solver)
    }

    /// Bitwise AND, `self & other`: it is `Node::And`, built in this
    /// node's solver.
    pub fn bitand(&'a self, other: &'a Self) -> (call: NativeCall)
        requires
            other.belongs_to(&self.spec_solver()),
        ensures
            call@ == Node::And(self, other).spec_into_ref(&self.spec_solver()),
            call@ == (CallView::Node2 {
                f: NodeFn2::And,
                btor: self.spec_solver().spec_btor_ptr(),
                a: self.spec_node_ptr(),
                b: other.spec_node_ptr(),
            }),
    {
        Node::And(self, other).into_ref(self.solver)
    }

    /// Bitwise OR, `self | other`: it is `Node::Or`, built in this
    /// node's solver.
    pub fn bitor(&'a self, other: &'a Self) -> (call: NativeCall)
        requires
            other.belongs_to(&self.spec_solver()),
        ensures
            call@ == Node::Or(self, other).spec_into_ref(&self.spec_solver()),
            call@ == (CallView::Node2 {
                f: NodeFn2::Or,
                btor: self.spec_solver().spec_btor_ptr(),
                a: self.spec_node_ptr(),
                b: other.spec_node_ptr(),
            }),
    {
        Node::Or(self, other).into_ref(self.solver)
    }

    /// Bitwise XOR, `self ^ other`: it is `Node::Xor`, built in this
    /// node's solver.
    pub fn bitxor(&'a self, other: &'a Self) -> (call: NativeCall)
        requires
            other.belongs_to(&self.spec_solver()),
        ensures
            call@ == Node::Xor(self, other).spec_into_ref(&self.spec_solver()),
            call@ == (CallView::Node2 {
                f: NodeFn2::Xor,
                btor: self.spec_solver().spec_btor_ptr(),
                a: self.spec_node_ptr(),
                b: other.spec_node_ptr(),
            }),
    {
        Node::Xor(self, other).into_ref(self.solver)
    }

    /// Integer truncating multiplication, `self * other`: it is `Node::Mul`, built in this
    /// node's solver.
    pub fn mul(&'a self, other: &'a Self) -> (call: NativeCall)
        requires
            other.belongs_to(&self.spec_solver()),
        ensures
            call@ == Node::Mul(self, other).spec_into_ref(&self.spec_solver()),
            call@ == (CallView::Node2 {
                f: NodeFn2::Mul,
                btor: self.spec_solver().spec_btor_ptr(),
                a: self.spec_node_ptr(),
                b: other.spec_node_ptr(),
            }),
    {
        Node::Mul(self, other).into_ref(self.solver)
    }

    /// One's complement negation, `!self`: it is `Node::Not`, built in this
    /// node's solver.
    pub fn not(&'a self) -> (call: NativeCall)
        ensures
            call@ == Node::Not(self).spec_into_ref(&self.spec_solver()),
            call@ == (CallView::Node1 {
                f: NodeFn1::Not,
                btor: self.spec_solver().spec_btor_ptr(),
                a: self.spec_node_ptr(),
            }),
    {
        Node::Not(self).into_ref(self.solver)
    }

    /// Shift left, `self << other`: it is `Node::Sll`, built in this
    /// node's solver.
    pub fn shl(&'a self, other: &'a Self) -> (call: NativeCall)
        requires
            other.belongs_to(&self.spec_solver()),
            shift_operands_ok(self, other),
        ensures
            call@ == Node::Sll(self, other).spec_into_ref(&self.spec_solver()),
            call@ == (CallView::Node2 {
                f: NodeFn2::Sll,
                btor: self.spec_solver().spec_btor_ptr(),
                a: self.spec_node_ptr(),
                b: other.spec_node_ptr(),
            }),
    {
        Node::Sll(self, other).into_ref(self.solver)
    }

    /// Integer subtraction, `self - other`: it is `Node::Sub`, built in this
    /// node's solver.
    pub fn sub(&'a self, other: &'a Self) -> (call: NativeCall)
        requires
            other.belongs_to(&self.spec_solver()),
        ensures
            call@ == Node::Sub(self, other).spec_into_ref(&self.spec_solver()),
            call@ == (CallView::Node2 {
                f: NodeFn2::Sub,
                btor: self.spec_solver().spec_btor_ptr(),
                a: self.spec_node_ptr(),
                b: other.spec_node_ptr(),
            }),
    {
        Node::Sub(self, other).into_ref(self.solver)
    }
}

} // verus!
