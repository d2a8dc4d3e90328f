use boolector::{NativeCall, Node, NodeFn1, NodeFn2, NodeRef, Solver, SortKind, Unsigned};

const BTOR: usize = 0x1000;

#[test]
fn unsigned_operators_choose_the_unsigned_functions() {
    let solver = Solver::from_ffi(BTOR, 0);
    let a = Unsigned(NodeRef::from_ffi(&solver, 0x3000, SortKind::BitVec(8)));
    let b = Unsigned(NodeRef::from_ffi(&solver, 0x3008, SortKind::BitVec(8)));
    let k = Unsigned(NodeRef::from_ffi(&solver, 0x3010, SortKind::BitVec(3)));
    let two = |f| NativeCall::Node2 { f, btor: BTOR, a: 0x3000, b: 0x3008 };
    let shift = |f| NativeCall::Node2 { f, btor: BTOR, a: 0x3000, b: 0x3010 };
    assert_eq!(a.lt(&b), two(NodeFn2::ULt));
    assert_eq!(a.div(&b), two(NodeFn2::UDiv));
    assert_eq!(a.rem(&b), two(NodeFn2::URem));
    assert_eq!(a.shr(&k), shift(NodeFn2::Srl));
    assert_eq!(a.shl(&k), shift(NodeFn2::Sll));
}

#[test]
fn unsigned_operators_without_a_sign_are_the_nodes_own() {
    let solver = Solver::from_ffi(BTOR, 0);
    let a = Unsigned(NodeRef::from_ffi(&solver, 0x3000, SortKind::BitVec(8)));
    let b = Unsigned(NodeRef::from_ffi(&solver, 0x3008, SortKind::BitVec(8)));
    assert_eq!(a.add(&b), a.0.add(&b.0));
    assert_eq!(a.bitand(&b), a.0.bitand(&b.0));
    assert_eq!(a.bitor(&b), a.0.bitor(&b.0));
    assert_eq!(a.bitxor(&b), a.0.bitxor(&b.0));
    assert_eq!(a.mul(&b), a.0.mul(&b.0));
    assert_eq!(a.sub(&b), a.0.sub(&b.0));
    assert_eq!(a.not(), NativeCall::Node1 { f: NodeFn1::Not, btor: BTOR, a: 0x3000 });
    assert_eq!(b.sub(&a), NativeCall::Node2 { f: NodeFn2::Sub, btor: BTOR, a: 0x3008, b: 0x3000 });
}

#[test]
fn unsigned_is_its_node() {
    let solver = Solver::from_ffi(BTOR, 0);
    let a = Unsigned(NodeRef::from_ffi(&solver, 0x3000, SortKind::BitVec(8)));
    assert_eq!(a.node_ptr(), 0x3000);
    assert_eq!(a.kind(), SortKind::BitVec(8));
    assert_eq!(a.lt(&a), Node::ULt(&a, &a).into_ref(&solver));
    assert_eq!(solver.assert_expr(&a), NativeCall::Assert { btor: BTOR, node: 0x3000 });
}
