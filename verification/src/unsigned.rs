use crate::native::{CallView, NativeCall, NodeFn1, NodeFn2};
use crate::node::{shift_operands_ok, Node};
use crate::node_ref::NodeRef;
use vstd::prelude::*;

verus! {

/// Unsigned marker for `NodeRef`.
///
/// It holds the node and nothing else. It only chooses what an operator
/// means: where the engine has a signed and an unsigned function, the
/// unsigned one (`ULt`, `UDiv`, `URem`, and the logical shift to the right).
pub struct Unsigned<'a>(pub NodeRef<'a>);

impl<'a> core::ops::Deref for Unsigned<'a> {
    type Target = NodeRef<'a>;

    fn deref(&self) -> (node: &NodeRef<'a>)
        ensures
            *node == self.0,
    {
        &self.0
    }
}

impl<'a> Unsigned<'a> {
    /// Unsigned integer less-than comparison, `self < other`: it is `Node::ULt`, built in this
    /// node's solver.
    pub fn lt(&'a self, other: &'a Self) -> (call: NativeCall)
        requires
            other.0.belongs_to(&self.0.spec_solver()),
        ensures
            call@ == Node::ULt(&self.0, &other.0).spec_into_ref(&self.0.spec_solver()),
            call@ == (CallView::Node2 {
                f: NodeFn2::ULt,
                btor: self.0.spec_solver().spec_btor_ptr(),
                a: self.0.spec_node_ptr(),
                b: other.0.spec_node_ptr(),
            }),
    {
        Node::ULt(&self.0, &other.0).into_ref(self.0.solver())
    }

    /// Integer addition, `self + other`: it is `Node::Add`, built in this
    /// node's solver.
    pub fn add(&'a self, other: &'a Self) -> (call: NativeCall)
        requires
            other.0.belongs_to(&self.0.spec_solver()),
        ensures
            call@ == Node::Add(&self.0, &other.0).spec_into_ref(&self.0.spec_solver()),
            call@ == (CallView::Node2 {
                f: NodeFn2::Add,
                btor: self.0.spec_solver().spec_btor_ptr(),
                a: self.0.spec_node_ptr(),
                b: other.0.spec_node_ptr(),
            }),
    {
        Node::Add(&self.0, &other.0).into_ref(self.0.solver())
    }

    /// Bitwise AND, `self & other`: it is `Node::And`, built in this
    /// node's solver.
    pub fn bitand(&'a self, other: &'a Self) -> (call: NativeCall)
        requires
            other.0.belongs_to(&self.0.spec_solver()),
        ensures
            call@ == Node::And(&self.0, &other.0).spec_into_ref(&self.0.spec_solver()),
            call@ == (CallView::Node2 {
                f: NodeFn2::And,
                btor: self.0.spec_solver().spec_btor_ptr(),
                a: self.0.spec_node_ptr(),
                b: other.0.spec_node_ptr(),
            }),
    {
        Node::And(&self.0, &other.0).into_ref(self.0.solver())
    }

    /// Bitwise OR, `self | other`: it is `Node::Or`, built in this
    /// node's solver.
    pub fn bitor(&'a self, other: &'a Self) -> (call: NativeCall)
        requires
            other.0.belongs_to(&self.0.spec_solver()),
        ensures
            call@ == Node::Or(&self.0, &other.0).spec_into_ref(&self.0.spec_solver()),
            call@ == (CallView::Node2 {
                f: NodeFn2::Or,
                btor: self.0.spec_solver().spec_btor_ptr(),
                a: self.0.spec_node_ptr(),
                b: other.0.spec_node_ptr(),
            }),
    {
        Node::Or(&self.0, &other.0).into_ref(self.0.solver())
    }

    /// Bitwise XOR, `self ^ other`: it is `Node::Xor`, built in this
    /// node's solver.
    pub fn bitxor(&'a self, other: &'a Self) -> (call: NativeCall)
        requires
            other.0.belongs_to(&self.0.spec_solver()),
        ensures
            call@ == Node::Xor(&self.0, &other.0).spec_into_ref(&self.0.spec_solver()),
            call@ == (CallView::Node2 {
                f: NodeFn2::Xor,
                btor: self.0.spec_solver().spec_btor_ptr(),
                a: self.0.spec_node_ptr(),
                b: other.0.spec_node_ptr(),
            }),
    {
        Node::Xor(&self.0, &other.0).into_ref(self.0.solver())
    }

    /// Unsigned integer division, `self / other`: it is `Node::UDiv`, built in this
    /// node's solver.
    pub fn div(&'a self, other: &'a Self) -> (call: NativeCall)
        requires
            other.0.belongs_to(&self.0.spec_solver()),
        ensures
            call@ == Node::UDiv(&self.0, &other.0).spec_into_ref(&self.0.spec_solver()),
            call@ == (CallView::Node2 {
                f: NodeFn2::UDiv,
                btor: self.0.spec_solver().spec_btor_ptr(),
                a: self.0.spec_node_ptr(),
                b: other.0.spec_node_ptr(),
            }),
    {
        Node::UDiv(&self.0, &other.0).into_ref(self.0.solver())
    }

    /// Integer truncating multiplication, `self * other`: it is `Node::Mul`, built in this
    /// node's solver.
    pub fn mul(&'a self, other: &'a Self) -> (call: NativeCall)
        requires
            other.0.belongs_to(&self.0.spec_solver()),
        ensures
            call@ == Node::Mul(&self.0, &other.0).spec_into_ref(&self.0.spec_solver()),
            call@ == (CallView::Node2 {
                f: NodeFn2::Mul,
                btor: self.0.spec_solver().spec_btor_ptr(),
                a: self.0.spec_node_ptr(),
                b: other.0.spec_node_ptr(),
            }),
    {
        Node::Mul(&self.0, &other.0).into_ref(self.0.solver())
    }

    /// One's complement negation, `!self`: it is `Node::Not`, built in this
    /// node's solver.
    pub fn not(&'a self) -> (call: NativeCall)
        ensures
            call@ == Node::Not(&self.0).spec_into_ref(&self.0.spec_solver()),
            call@ == (CallView::Node1 {
                f: NodeFn1::Not,
                btor: self.0.spec_solver().spec_btor_ptr(),
                a: self.0.spec_node_ptr(),
            }),
    {
        Node::Not(&self.0).into_ref(self.0.solver())
    }

    /// Unsigned integer remainder, `self % other`: it is `Node::URem`, built in this
    /// node's solver.
    pub fn rem(&'a self, other: &'a Self) -> (call: NativeCall)
        requires
            other.0.belongs_to(&self.0.spec_solver()),
        ensures
            call@ == Node::URem(&self.0, &other.0).spec_into_ref(&self.0.spec_solver()),
            call@ == (CallView::Node2 {
                f: NodeFn2::URem,
                btor: self.0.spec_solver().spec_btor_ptr(),
                a: self.0.spec_node_ptr(),
                b: other.0.spec_node_ptr(),
            }),
    {
        Node::URem(&self.0, &other.0).into_ref(self.0.solver())
    }

    /// Shift left, `self << other`: it is `Node::Sll`, built in this
    /// node's solver.
    pub fn shl(&'a self, other: &'a Self) -> (call: NativeCall)
        requires
            other.0.belongs_to(&self.0.spec_solver()),
            shift_operands_ok(&self.0, &other.0),
        ensures
            call@ == Node::Sll(&self.0, &other.0).spec_into_ref(&self.0.spec_solver()),
            call@ == (CallView::Node2 {
                f: NodeFn2::Sll,
                btor: self.0.spec_solver().spec_btor_ptr(),
                a: self.0.spec_node_ptr(),
                b: other.0.spec_node_ptr(),
            }),
    {
        Node::Sll(&self.0, &other.0).into_ref(self.0.solver())
    }

    /// Logical shift right, `self >> other`: it is `Node::Srl`, built in this
    /// node's solver.
    pub fn shr(&'a self, other: &'a Self) -> (call: NativeCall)
        requires
            other.0.belongs_to(&self.0.spec_solver()),
            shift_operands_ok(&self.0, &other.0),
        ensures
            call@ == Node::Srl(&self.0, &other.0).spec_into_ref(&self.0.spec_solver()),
            call@ == (CallView::Node2 {
                f: NodeFn2::Srl,
                btor: self.0.spec_solver().spec_btor_ptr(),
                a: self.0.spec_node_ptr(),
                b: other.0.spec_node_ptr(),
            }),
    {
        Node::Srl(&self.0, &other.0).into_ref(self.0.solver())
    }

    /// Integer subtraction, `self - other`: it is `Node::Sub`, built in this
    /// node's solver.
    pub fn sub(&'a self, other: &'a Self) -> (call: NativeCall)
        requires
            other.0.belongs_to(&self.0.spec_solver()),
        ensures
            call@ == Node::Sub(&self.0, &other.0).spec_into_ref(&self.0.spec_solver()),
            call@ == (CallView::Node2 {
                f: NodeFn2::Sub,
                btor: self.0.spec_solver().spec_btor_ptr(),
                a: self.0.spec_node_ptr(),
                b: other.0.spec_node_ptr(),
            }),
    {
        Node::Sub(&self.0, &other.0).into_ref(self.0.solver())
    }
}

} // verus!
