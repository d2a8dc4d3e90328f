use crate::native::{CallView, NativeCall, NodeFn1, NodeFn2, NodeFn3};
use crate::node_ref::NodeRef;
use crate::shift::{check_shift_widths, shift_widths_match};
use crate::solver::Solver;
use crate::sort_ref::SortKind;
use vstd::prelude::*;

verus! {

/// Node description.
///
/// For references to node instances, see `NodeRef`.
///
/// # Shifts and rotates
///
/// For shift and rotate operations the first argument must be a bit vector
/// whose length `n` is a power of two, and the second a bit vector of length
/// `log2(n)`. This library holds every such node to the rule before it
/// describes a call: see `Node::widths_ok`.
#[derive(Clone, Copy)]
pub enum Node<'a> {
    /// Integer addition for bit vectors.
    Add(&'a NodeRef<'a>, &'a NodeRef<'a>),
    /// Bitwise AND for bit vectors.
    And(&'a NodeRef<'a>, &'a NodeRef<'a>),
    /// Concatenation for bit vectors.
    Concat(&'a NodeRef<'a>, &'a NodeRef<'a>),
    /// If-then-else conditional for bit vectors or arrays, the condition must
    /// be a boolean.
    Cond(&'a NodeRef<'a>, &'a NodeRef<'a>, &'a NodeRef<'a>),
    /// Integer decrement for bit vectors.
    Dec(&'a NodeRef<'a>),
    /// Equality for bit vectors or arrays.
    Eq(&'a NodeRef<'a>, &'a NodeRef<'a>),
    /// Equivalence for booleans.
    Iff(&'a NodeRef<'a>, &'a NodeRef<'a>),
    /// Integer increment for bit vectors.
    Inc(&'a NodeRef<'a>),
    /// Integer truncating multiplication for bit vectors.
    Mul(&'a NodeRef<'a>, &'a NodeRef<'a>),
    /// Bitwise NAND for bit vectors.
    NAnd(&'a NodeRef<'a>, &'a NodeRef<'a>),
    /// Inequality for bit vectors or arrays.
    Ne(&'a NodeRef<'a>, &'a NodeRef<'a>),
    /// Two's complement (signed integer) negation for bit vectors.
    Neg(&'a NodeRef<'a>),
    /// Bitwise NOR for bit vectors.
    NOr(&'a NodeRef<'a>, &'a NodeRef<'a>),
    /// One's complement negation for bit vectors.
    Not(&'a NodeRef<'a>),
    /// Bitwise OR for bit vectors.
    Or(&'a NodeRef<'a>, &'a NodeRef<'a>),
    /// AND-reduction for bit vectors.
    RedAnd(&'a NodeRef<'a>),
    /// OR-reduction for bit vectors.
    RedOr(&'a NodeRef<'a>),
    /// XOR-reduction for bit vectors.
    RedXor(&'a NodeRef<'a>),
    /// Rotate left for bit vectors, see note above about shifts and rotates.
    Rol(&'a NodeRef<'a>, &'a NodeRef<'a>),
    /// Rotate right for bit vectors, see note above about shifts and rotates.
    Ror(&'a NodeRef<'a>, &'a NodeRef<'a>),
    /// Signed integer addition overflow flag for bit vectors.
    SAddO(&'a NodeRef<'a>, &'a NodeRef<'a>),
    /// Signed integer division for bit vectors.
    SDiv(&'a NodeRef<'a>, &'a NodeRef<'a>),
    /// Signed integer division overflow flag for bit vectors.
    SDivO(&'a NodeRef<'a>, &'a NodeRef<'a>),
    /// Signed integer greater-than comparison for bit vectors.
    SGt(&'a NodeRef<'a>, &'a NodeRef<'a>),
    /// Signed integer greater-than-or-equal comparison for bit vectors.
    SGte(&'a NodeRef<'a>, &'a NodeRef<'a>),
    /// Shift left for bit vectors, see note above about shifts and rotates.
    Sll(&'a NodeRef<'a>, &'a NodeRef<'a>),
    /// Signed integer less-than comparison for bit vectors.
    SLt(&'a NodeRef<'a>, &'a NodeRef<'a>),
    /// Signed integer less-than-or-equal comparison for bit vectors.
    SLte(&'a NodeRef<'a>, &'a NodeRef<'a>),
    /// Signed integer modulo (sign matches the divisor sign) for bit vectors.
    SMod(&'a NodeRef<'a>, &'a NodeRef<'a>),
    /// Signed integer multiplication overflow flag for bit vectors.
    SMulO(&'a NodeRef<'a>, &'a NodeRef<'a>),
    /// Arithmetic shift right for bit vectors, see note above about shifts and
    /// rotates.
    Sra(&'a NodeRef<'a>, &'a NodeRef<'a>),
    /// Signed integer remainder for bit vectors.
    SRem(&'a NodeRef<'a>, &'a NodeRef<'a>),
    /// Logical shift right for bit vectors, see note above about shifts and
    /// rotates.
    Srl(&'a NodeRef<'a>, &'a NodeRef<'a>),
    /// Signed integer subtraction overflow flag for bit vectors.
    SSubO(&'a NodeRef<'a>, &'a NodeRef<'a>),
    /// Integer subtraction for bit vectors.
    Sub(&'a NodeRef<'a>, &'a NodeRef<'a>),
    /// Unsigned integer addition overflow flag for bit vectors.
    UAddO(&'a NodeRef<'a>, &'a NodeRef<'a>),
    /// Unsigned integer division for bit vectors, returns all ones for
    /// division by zero.
    UDiv(&'a NodeRef<'a>, &'a NodeRef<'a>),
    /// Unsigned integer greater-than comparison for bit vectors.
    UGt(&'a NodeRef<'a>, &'a NodeRef<'a>),
    /// Unsigned integer greater-than-or-equal comparison for bit vectors.
    UGte(&'a NodeRef<'a>, &'a NodeRef<'a>),
    /// Unsigned integer less-than comparison for bit vectors.
    ULt(&'a NodeRef<'a>, &'a NodeRef<'a>),
    /// Unsigned integer less-than-or-equal comparison for bit vectors.
    ULte(&'a NodeRef<'a>, &'a NodeRef<'a>),
    /// Unsigned integer multiplication overflow flag for bit vectors.
    UMulO(&'a NodeRef<'a>, &'a NodeRef<'a>),
    /// Unsigned integer remainder for bit vectors, returns the dividend for
    /// division by zero.
    URem(&'a NodeRef<'a>, &'a NodeRef<'a>),
    /// Unsigned integer subtraction overflow flag for bit vectors.
    USubO(&'a NodeRef<'a>, &'a NodeRef<'a>),
    /// Bitwise XNOR for bit vectors.
    XNOr(&'a NodeRef<'a>, &'a NodeRef<'a>),
    /// Bitwise XOR for bit vectors.
    Xor(&'a NodeRef<'a>, &'a NodeRef<'a>),
}

/// Why a node description cannot be handed to the engine.
#[derive(Copy, Clone, Debug, PartialEq, Eq, Hash, Structural)]
pub enum NodeError {
    /// An operand is a node of another solver.
    ForeignOperand,
    /// The operands of a shift or a rotate break the rule on their lengths.
    ShiftWidths,
}

/// A node description sorted by its number of operands: the engine function
/// that builds the node, and the operands in the order in which the
/// function takes them.
#[derive(Clone, Copy)]
pub enum NodeOp<'a> {
    One(NodeFn1, &'a NodeRef<'a>),
    Two(NodeFn2, &'a NodeRef<'a>, &'a NodeRef<'a>),
    Three(NodeFn3, &'a NodeRef<'a>, &'a NodeRef<'a>, &'a NodeRef<'a>),
}

impl NodeFn2 {
    /// Whether the function is a shift or a rotate.
    pub open spec fn spec_is_shift(self) -> bool {
        self is Rol || self is Ror || self is Sll || self is Sra || self is Srl
    }

    /// Return whether the function is a shift or a rotate.
    #[verifier::when_used_as_spec(spec_is_shift)]
    pub fn is_shift(self) -> (r: bool)
        ensures
            r == self.spec_is_shift(),
    {
        match self {
            NodeFn2::Rol | NodeFn2::Ror | NodeFn2::Sll | NodeFn2::Sra | NodeFn2::Srl => true,
            _ => false,
        }
    }
}

/// The rule on the operands of a shift or a rotate: both are bit vectors,
/// and `value` is `2^k` bits long for the length `k` of `amount`.
pub open spec fn shift_operands_ok(value: &NodeRef, amount: &NodeRef) -> bool {
    &&& value.spec_kind() matches SortKind::BitVec(n)
    &&& amount.spec_kind() matches SortKind::BitVec(k)
    &&& shift_widths_match(n, k)
}

/// Test the rule on the operands of a shift or a rotate.
pub fn check_shift_operands(value: &NodeRef, amount: &NodeRef) -> (ok: bool)
    ensures
        ok == shift_operands_ok(value, amount),
{
    match (value.kind(), amount.kind()) {
        (SortKind::BitVec(n), SortKind::BitVec(k)) => check_shift_widths(n, k),
        _ => false,
    }
}

impl<'a> NodeOp<'a> {
    /// Every operand is a node of the session of `solver`.
    pub open spec fn bound_to(self, solver: &Solver) -> bool {
        match self {
            NodeOp::One(_, a) => a.belongs_to(solver),
            NodeOp::Two(_, a, b) => a.belongs_to(solver) && b.belongs_to(solver),
            NodeOp::Three(_, a, b, c) => a.belongs_to(solver) && b.belongs_to(solver)
                && c.belongs_to(solver),
        }
    }

    /// Where the operation is a shift or a rotate, its operands keep the
    /// rule on their lengths.
    pub open spec fn widths_ok(self) -> bool {
        self matches NodeOp::Two(f, a, b) ==> f.spec_is_shift() ==> shift_operands_ok(a, b)
    }

    /// The call that builds the node in the session of `solver`.
    pub open spec fn call(self, solver: &Solver) -> CallView {
        match self {
            NodeOp::One(f, a) => CallView::Node1 {
                f,
                btor: solver.spec_btor_ptr(),
                a: a.spec_node_ptr(),
            },
            NodeOp::Two(f, a, b) => CallView::Node2 {
                f,
                btor: solver.spec_btor_ptr(),
                a: a.spec_node_ptr(),
                b: b.spec_node_ptr(),
            },
            NodeOp::Three(f, a, b, c) => CallView::Node3 {
                f,
                btor: solver.spec_btor_ptr(),
                a: a.spec_node_ptr(),
                b: b.spec_node_ptr(),
                c: c.spec_node_ptr(),
            },
        }
    }

    /// Test what `Node::into_ref` asks of a node: `Ok` where every operand is
    /// of the session of `solver` and the rule on shifts and rotates is
    /// kept; a foreign operand is reported first.
    pub fn check(self, solver: &Solver) -> (r: Result<(), NodeError>)
        ensures
            r is Ok <==> self.bound_to(solver) && self.widths_ok(),
            r == Err::<(), NodeError>(NodeError::ForeignOperand) <==> !self.bound_to(solver),
            r == Err::<(), NodeError>(NodeError::ShiftWidths) <==> self.bound_to(solver)
                && !self.widths_ok(),
    {
        let bound = match self {
            NodeOp::One(_, a) => a.is_of(solver),
            NodeOp::Two(_, a, b) => a.is_of(solver) && b.is_of(solver),
            NodeOp::Three(_, a, b, c) => a.is_of(solver) && b.is_of(solver) && c.is_of(solver),
        };
        if !bound {
            return Err(NodeError::ForeignOperand);
        }
        match self {
            NodeOp::Two(f, a, b) => {
                if f.is_shift() && !check_shift_operands(a, b) {
                    return Err(NodeError::ShiftWidths);
                }
            },
            _ => {},
        }
        Ok(())
    }
}

impl<'a> Node<'a> {
    /// The engine function that builds the node, with the operands.
    pub open spec fn spec_op(self) -> NodeOp<'a> {
        match self {
            Node::Add(a, b) => NodeOp::Two(NodeFn2::Add, a, b),
            Node::And(a, b) => NodeOp::Two(NodeFn2::And, a, b),
            Node::Concat(a, b) => NodeOp::Two(NodeFn2::Concat, a, b),
            Node::Cond(a, b, c) => NodeOp::Three(NodeFn3::Cond, a, b, c),
            Node::Dec(a) => NodeOp::One(NodeFn1::Dec, a),
            Node::Eq(a, b) => NodeOp::Two(NodeFn2::Eq, a, b),
            Node::Iff(a, b) => NodeOp::Two(NodeFn2::Iff, a, b),
            Node::Inc(a) => NodeOp::One(NodeFn1::Inc, a),
            Node::Mul(a, b) => NodeOp::Two(NodeFn2::Mul, a, b),
            Node::NAnd(a, b) => NodeOp::Two(NodeFn2::NAnd, a, b),
            Node::Ne(a, b) => NodeOp::Two(NodeFn2::Ne, a, b),
            Node::Neg(a) => NodeOp::One(NodeFn1::Neg, a),
            Node::NOr(a, b) => NodeOp::Two(NodeFn2::NOr, a, b),
            Node::Not(a) => NodeOp::One(NodeFn1::Not, a),
            Node::Or(a, b) => NodeOp::Two(NodeFn2::Or, a, b),
            Node::RedAnd(a) => NodeOp::One(NodeFn1::RedAnd, a),
            Node::RedOr(a) => NodeOp::One(NodeFn1::RedOr, a),
            Node::RedXor(a) => NodeOp::One(NodeFn1::RedXor, a),
            Node::Rol(a, b) => NodeOp::Two(NodeFn2::Rol, a, b),
            Node::Ror(a, b) => NodeOp::Two(NodeFn2::Ror, a, b),
            Node::SAddO(a, b) => NodeOp::Two(NodeFn2::SAddO, a, b),
            Node::SDiv(a, b) => NodeOp::Two(NodeFn2::SDiv, a, b),
            Node::SDivO(a, b) => NodeOp::Two(NodeFn2::SDivO, a, b),
            Node::SGt(a, b) => NodeOp::Two(NodeFn2::SGt, a, b),
            Node::SGte(a, b) => NodeOp::Two(NodeFn2::SGte, a, b),
            Node::Sll(a, b) => NodeOp::Two(NodeFn2::Sll, a, b),
            Node::SLt(a, b) => NodeOp::Two(NodeFn2::SLt, a, b),
            Node::SLte(a, b) => NodeOp::Two(NodeFn2::SLte, a, b),
            Node::SMod(a, b) => NodeOp::Two(NodeFn2::SMod, a, b),
            Node::SMulO(a, b) => NodeOp::Two(NodeFn2::SMulO, a, b),
            Node::Sra(a, b) => NodeOp::Two(NodeFn2::Sra, a, b),
            Node::SRem(a, b) => NodeOp::Two(NodeFn2::SRem, a, b),
            Node::Srl(a, b) => NodeOp::Two(NodeFn2::Srl, a, b),
            Node::SSubO(a, b) => NodeOp::Two(NodeFn2::SSubO, a, b),
            Node::Sub(a, b) => NodeOp::Two(NodeFn2::Sub, a, b),
            Node::UAddO(a, b) => NodeOp::Two(NodeFn2::UAddO, a, b),
            Node::UDiv(a, b) => NodeOp::Two(NodeFn2::UDiv, a, b),
            Node::UGt(a, b) => NodeOp::Two(NodeFn2::UGt, a, b),
            Node::UGte(a, b) => NodeOp::Two(NodeFn2::UGte, a, b),
            Node::ULt(a, b) => NodeOp::Two(NodeFn2::ULt, a, b),
            Node::ULte(a, b) => NodeOp::Two(NodeFn2::ULte, a, b),
            Node::UMulO(a, b) => NodeOp::Two(NodeFn2::UMulO, a, b),
            Node::URem(a, b) => NodeOp::Two(NodeFn2::URem, a, b),
            Node::USubO(a, b) => NodeOp::Two(NodeFn2::USubO, a, b),
            Node::XNOr(a, b) => NodeOp::Two(NodeFn2::XNOr, a, b),
            Node::Xor(a, b) => NodeOp::Two(NodeFn2::Xor, a, b),
        }
    }

    /// Every operand is a node of the session of `solver`.
    pub open spec fn bound_to(self, solver: &Solver) -> bool {
        self.spec_op().bound_to(solver)
    }

    /// Where the node is a shift or a rotate, its operands keep the rule on
    /// their lengths.
    pub open spec fn widths_ok(self) -> bool {
        self.spec_op().widths_ok()
    }

    /// The call that builds the node in the session of `solver`.
    pub open spec fn spec_into_ref(self, solver: &Solver) -> CallView {
        self.spec_op().call(solver)
    }

    /// An addition can be built in the session of `solver` exactly when
    /// both of its operands are nodes of that session. With an operand of
    /// another solver `check` fails, and `into_ref` cannot be called.
    pub proof fn lemma_add_needs_own_operands(a: &'a NodeRef<'a>, b: &'a NodeRef<'a>, solver: &Solver)
        ensures
            Node::Add(a, b).bound_to(solver) && Node::Add(a, b).widths_ok() <==> a.belongs_to(solver)
                && b.belongs_to(solver),
    {
    }

    /// A shift or a rotate keeps the rule on lengths exactly when the shifted
    /// operand is a bit vector of `2^k` bits, for the length `k` of the bit
    /// vector that gives the amount. Else `check` fails, and `into_ref`
    /// cannot be called.
    pub proof fn lemma_shifts_need_matching_lengths(a: &'a NodeRef<'a>, b: &'a NodeRef<'a>)
        ensures
            Node::Rol(a, b).widths_ok() <==> shift_operands_ok(a, b),
            Node::Ror(a, b).widths_ok() <==> shift_operands_ok(a, b),
            Node::Sll(a, b).widths_ok() <==> shift_operands_ok(a, b),
            Node::Sra(a, b).widths_ok() <==> shift_operands_ok(a, b),
            Node::Srl(a, b).widths_ok() <==> shift_operands_ok(a, b),
    {
    }

    /// No node but a shift or a rotate is held to a rule on lengths.
    pub proof fn lemma_others_have_no_rule(self)
        requires
            !(self is Rol || self is Ror || self is Sll || self is Sra || self is Srl),
        ensures
            self.widths_ok(),
    {
    }

    /// Return the engine function that builds the node, with the operands.
    #[verifier::when_used_as_spec(spec_op)]
    pub fn op(self) -> (op: NodeOp<'a>)
        ensures
            op == self.spec_op(),
    {
        match self {
            Node::Add(a, b) => NodeOp::Two(NodeFn2::Add, a, b),
            Node::And(a, b) => NodeOp::Two(NodeFn2::And, a, b),
            Node::Concat(a, b) => NodeOp::Two(NodeFn2::Concat, a, b),
            Node::Cond(a, b, c) => NodeOp::Three(NodeFn3::Cond, a, b, c),
            Node::Dec(a) => NodeOp::One(NodeFn1::Dec, a),
            Node::Eq(a, b) => NodeOp::Two(NodeFn2::Eq, a, b),
            Node::Iff(a, b) => NodeOp::Two(NodeFn2::Iff, a, b),
            Node::Inc(a) => NodeOp::One(NodeFn1::Inc, a),
            Node::Mul(a, b) => NodeOp::Two(NodeFn2::Mul, a, b),
            Node::NAnd(a, b) => NodeOp::Two(NodeFn2::NAnd, a, b),
            Node::Ne(a, b) => NodeOp::Two(NodeFn2::Ne, a, b),
            Node::Neg(a) => NodeOp::One(NodeFn1::Neg, a),
            Node::NOr(a, b) => NodeOp::Two(NodeFn2::NOr, a, b),
            Node::Not(a) => NodeOp::One(NodeFn1::Not, a),
            Node::Or(a, b) => NodeOp::Two(NodeFn2::Or, a, b),
            Node::RedAnd(a) => NodeOp::One(NodeFn1::RedAnd, a),
            Node::RedOr(a) => NodeOp::One(NodeFn1::RedOr, a),
            Node::RedXor(a) => NodeOp::One(NodeFn1::RedXor, a),
            Node::Rol(a, b) => NodeOp::Two(NodeFn2::Rol, a, b),
            Node::Ror(a, b) => NodeOp::Two(NodeFn2::Ror, a, b),
            Node::SAddO(a, b) => NodeOp::Two(NodeFn2::SAddO, a, b),
            Node::SDiv(a, b) => NodeOp::Two(NodeFn2::SDiv, a, b),
            Node::SDivO(a, b) => NodeOp::Two(NodeFn2::SDivO, a, b),
            Node::SGt(a, b) => NodeOp::Two(NodeFn2::SGt, a, b),
            Node::SGte(a, b) => NodeOp::Two(NodeFn2::SGte, a, b),
            Node::Sll(a, b) => NodeOp::Two(NodeFn2::Sll, a, b),
            Node::SLt(a, b) => NodeOp::Two(NodeFn2::SLt, a, b),
            Node::SLte(a, b) => NodeOp::Two(NodeFn2::SLte, a, b),
            Node::SMod(a, b) => NodeOp::Two(NodeFn2::SMod, a, b),
            Node::SMulO(a, b) => NodeOp::Two(NodeFn2::SMulO, a, b),
            Node::Sra(a, b) => NodeOp::Two(NodeFn2::Sra, a, b),
            Node::SRem(a, b) => NodeOp::Two(NodeFn2::SRem, a, b),
            Node::Srl(a, b) => NodeOp::Two(NodeFn2::Srl, a, b),
            Node::SSubO(a, b) => NodeOp::Two(NodeFn2::SSubO, a, b),
            Node::Sub(a, b) => NodeOp::Two(NodeFn2::Sub, a, b),
            Node::UAddO(a, b) => NodeOp::Two(NodeFn2::UAddO, a, b),
            Node::UDiv(a, b) => NodeOp::Two(NodeFn2::UDiv, a, b),
            Node::UGt(a, b) => NodeOp::Two(NodeFn2::UGt, a, b),
            Node::UGte(a, b) => NodeOp::Two(NodeFn2::UGte, a, b),
            Node::ULt(a, b) => NodeOp::Two(NodeFn2::ULt, a, b),
            Node::ULte(a, b) => NodeOp::Two(NodeFn2::ULte, a, b),
            Node::UMulO(a, b) => NodeOp::Two(NodeFn2::UMulO, a, b),
            Node::URem(a, b) => NodeOp::Two(NodeFn2::URem, a, b),
            Node::USubO(a, b) => NodeOp::Two(NodeFn2::USubO, a, b),
            Node::XNOr(a, b) => NodeOp::Two(NodeFn2::XNOr, a, b),
            Node::Xor(a, b) => NodeOp::Two(NodeFn2::Xor, a, b),
        }
    }

    /// Test what `into_ref` asks of a node: `Ok` where every operand is of
    /// the session of `solver` and the rule on shifts and rotates is kept; a
    /// foreign operand is reported first.
    pub fn check(self, solver: &Solver) -> (r: Result<(), NodeError>)
        ensures
            r is Ok <==> self.bound_to(solver) && self.widths_ok(),
            r == Err::<(), NodeError>(NodeError::ForeignOperand) <==> !self.bound_to(solver),
            r == Err::<(), NodeError>(NodeError::ShiftWidths) <==> self.bound_to(solver)
                && !self.widths_ok(),
    {
        self.op().check(solver)
    }

    /// Create a node reference: the call that builds the node in the session
    /// of `solver`. Exactly one engine function is named, the one of the
    /// node's variant, with the operands in the variant's order. The answer
    /// goes to `NodeRef::from_ffi`, with `solver`.
    ///
    /// An operand of another solver, or a shift or rotate whose operands
    /// break the rule on their lengths, must not get here: `check` tells.
    pub fn into_ref(self, solver: &'a Solver) -> (call: NativeCall)
        requires
            self.bound_to(solver),
            self.widths_ok(),
        ensures
            call@ == self.spec_into_ref(solver),
    {
        match self.op() {
            NodeOp::One(f, a) => Self::into_ref_ffi_1(solver, a, f),
            NodeOp::Two(f, a, b) => Self::into_ref_ffi_2(solver, a, b, f),
            NodeOp::Three(f, a, b, c) => Self::into_ref_ffi_3(solver, a, b, c, f),
        }
    }

    fn into_ref_ffi_1(solver: &'a Solver, a: &'a NodeRef<'a>, f: NodeFn1) -> (call: NativeCall)
        requires
            a.belongs_to(solver),
        ensures
            call@ == NodeOp::One(f, a).call(solver),
    {
        NativeCall::Node1 { f, btor: solver.btor_ptr(), a: a.node_ptr() }
    }

    fn into_ref_ffi_2(
        solver: &'a Solver,
        a: &'a NodeRef<'a>,
        b: &'a NodeRef<'a>,
        f: NodeFn2,
    ) -> (call: NativeCall)
        requires
            a.belongs_to(solver),
            b.belongs_to(solver),
            f.spec_is_shift() ==> shift_operands_ok(a, b),
        ensures
            call@ == NodeOp::Two(f, a, b).call(solver),
    {
        NativeCall::Node2 { f, btor: solver.btor_ptr(), a: a.node_ptr(), b: b.node_ptr() }
    }

    fn into_ref_ffi_3(
        solver: &'a Solver,
        a: &'a NodeRef<'a>,
        b: &'a NodeRef<'a>,
        c: &'a NodeRef<'a>,
        f: NodeFn3,
    ) -> (call: NativeCall)
        requires
            a.belongs_to(solver),
            b.belongs_to(solver),
            c.belongs_to(solver),
        ensures
            call@ == NodeOp::Three(f, a, b, c).call(solver),
    {
        NativeCall::Node3 {
            f,
            btor: solver.btor_ptr(),
            a: a.node_ptr(),
            b: b.node_ptr(),
            c: c.node_ptr(),
        }
    }
}

} // verus!
