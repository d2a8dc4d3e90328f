use boolector::{
    check_shift_operands, check_shift_widths, NativeCall, Node, NodeError, NodeFn1, NodeFn2, NodeFn3,
    NodeOp, NodeRef, Solver, SortKind,
};

const BTOR: usize = 0x1000;

#[test]
fn every_unary_node_names_its_own_function() {
    let solver = Solver::from_ffi(BTOR, 0);
    let a = NodeRef::from_ffi(&solver, 0x3000, SortKind::BitVec(8));
    let table = [
        (Node::Dec(&a), NodeFn1::Dec),
        (Node::Inc(&a), NodeFn1::Inc),
        (Node::Neg(&a), NodeFn1::Neg),
        (Node::Not(&a), NodeFn1::Not),
        (Node::RedAnd(&a), NodeFn1::RedAnd),
        (Node::RedOr(&a), NodeFn1::RedOr),
        (Node::RedXor(&a), NodeFn1::RedXor),
    ];
    assert_eq!(table.len(), 7);
    for (node, f) in table {
        assert_eq!(node.check(&solver), Ok(()));
        assert_eq!(node.into_ref(&solver), NativeCall::Node1 { f, btor: BTOR, a: 0x3000 });
    }
}

#[test]
fn every_binary_node_names_its_own_function() {
    let solver = Solver::from_ffi(BTOR, 0);
    let a = NodeRef::from_ffi(&solver, 0x3000, SortKind::BitVec(8));
    let b = NodeRef::from_ffi(&solver, 0x3008, SortKind::BitVec(8));
    let table = [
        (Node::Add(&a, &b), NodeFn2::Add),
        (Node::And(&a, &b), NodeFn2::And),
        (Node::Concat(&a, &b), NodeFn2::Concat),
        (Node::Eq(&a, &b), NodeFn2::Eq),
        (Node::Iff(&a, &b), NodeFn2::Iff),
        (Node::Mul(&a, &b), NodeFn2::Mul),
        (Node::NAnd(&a, &b), NodeFn2::NAnd),
        (Node::Ne(&a, &b), NodeFn2::Ne),
        (Node::NOr(&a, &b), NodeFn2::NOr),
        (Node::Or(&a, &b), NodeFn2::Or),
        (Node::SAddO(&a, &b), NodeFn2::SAddO),
        (Node::SDiv(&a, &b), NodeFn2::SDiv),
        (Node::SDivO(&a, &b), NodeFn2::SDivO),
        (Node::SGt(&a, &b), NodeFn2::SGt),
        (Node::SGte(&a, &b), NodeFn2::SGte),
        (Node::SLt(&a, &b), NodeFn2::SLt),
        (Node::SLte(&a, &b), NodeFn2::SLte),
        (Node::SMod(&a, &b), NodeFn2::SMod),
        (Node::SMulO(&a, &b), NodeFn2::SMulO),
        (Node::SRem(&a, &b), NodeFn2::SRem),
        (Node::SSubO(&a, &b), NodeFn2::SSubO),
        (Node::Sub(&a, &b), NodeFn2::Sub),
        (Node::UAddO(&a, &b), NodeFn2::UAddO),
        (Node::UDiv(&a, &b), NodeFn2::UDiv),
        (Node::UGt(&a, &b), NodeFn2::UGt),
        (Node::UGte(&a, &b), NodeFn2::UGte),
        (Node::ULt(&a, &b), NodeFn2::ULt),
        (Node::ULte(&a, &b), NodeFn2::ULte),
        (Node::UMulO(&a, &b), NodeFn2::UMulO),
        (Node::URem(&a, &b), NodeFn2::URem),
        (Node::USubO(&a, &b), NodeFn2::USubO),
        (Node::XNOr(&a, &b), NodeFn2::XNOr),
        (Node::Xor(&a, &b), NodeFn2::Xor),
    ];
    assert_eq!(table.len(), 33);
    for (node, f) in table {
        assert!(!f.is_shift());
        assert_eq!(node.check(&solver), Ok(()));
        assert_eq!(node.into_ref(&solver), NativeCall::Node2 { f, btor: BTOR, a: 0x3000, b: 0x3008 });
        assert_eq!(solver.node(node), NativeCall::Node2 { f, btor: BTOR, a: 0x3000, b: 0x3008 });
    }
}

#[test]
fn every_shift_and_rotate_names_its_own_function() {
    let solver = Solver::from_ffi(BTOR, 0);
    let a = NodeRef::from_ffi(&solver, 0x3000, SortKind::BitVec(8));
    let b = NodeRef::from_ffi(&solver, 0x3008, SortKind::BitVec(3));
    let table = [
        (Node::Rol(&a, &b), NodeFn2::Rol),
        (Node::Ror(&a, &b), NodeFn2::Ror),
        (Node::Sll(&a, &b), NodeFn2::Sll),
        (Node::Sra(&a, &b), NodeFn2::Sra),
        (Node::Srl(&a, &b), NodeFn2::Srl),
    ];
    for (node, f) in table {
        assert!(f.is_shift());
        assert_eq!(node.check(&solver), Ok(()));
        assert_eq!(node.into_ref(&solver), NativeCall::Node2 { f, btor: BTOR, a: 0x3000, b: 0x3008 });
    }
}

#[test]
fn conditional_takes_condition_then_branches() {
    let solver = Solver::from_ffi(BTOR, 0);
    let c = NodeRef::from_ffi(&solver, 0x3000, SortKind::BitVec(1));
    let t = NodeRef::from_ffi(&solver, 0x3008, SortKind::Array);
    let e = NodeRef::from_ffi(&solver, 0x3010, SortKind::Array);
    let node = Node::Cond(&c, &t, &e);
    assert_eq!(node.check(&solver), Ok(()));
    assert_eq!(
        node.into_ref(&solver),
        NativeCall::Node3 { f: NodeFn3::Cond, btor: BTOR, a: 0x3000, b: 0x3008, c: 0x3010 }
    );
}

#[test]
fn operands_keep_their_order() {
    let solver = Solver::from_ffi(BTOR, 0);
    let a = NodeRef::from_ffi(&solver, 0x3000, SortKind::BitVec(8));
    let b = NodeRef::from_ffi(&solver, 0x3008, SortKind::BitVec(8));
    assert_eq!(
        Node::Sub(&b, &a).into_ref(&solver),
        NativeCall::Node2 { f: NodeFn2::Sub, btor: BTOR, a: 0x3008, b: 0x3000 }
    );
    assert_eq!(
        Node::Sub(&a, &a).into_ref(&solver),
        NativeCall::Node2 { f: NodeFn2::Sub, btor: BTOR, a: 0x3000, b: 0x3000 }
    );
}

#[test]
fn op_sorts_a_node_by_its_operands() {
    let solver = Solver::from_ffi(BTOR, 0);
    let a = NodeRef::from_ffi(&solver, 0x3000, SortKind::BitVec(8));
    let b = NodeRef::from_ffi(&solver, 0x3008, SortKind::BitVec(8));
    match Node::Neg(&a).op() {
        NodeOp::One(f, x) => {
            assert_eq!(f, NodeFn1::Neg);
            assert_eq!(x.node_ptr(), 0x3000);
        }
        _ => panic!("one operand was expected"),
    }
    match Node::UDiv(&a, &b).op() {
        NodeOp::Two(f, x, y) => {
            assert_eq!(f, NodeFn2::UDiv);
            assert_eq!((x.node_ptr(), y.node_ptr()), (0x3000, 0x3008));
        }
        _ => panic!("two operands were expected"),
    }
    assert_eq!(Node::URem(&a, &b).op().check(&solver), Ok(()));
}

#[test]
fn add_is_built_exactly_when_both_operands_are_the_solvers() {
    let solver = Solver::from_ffi(BTOR, 0);
    let other = Solver::from_ffi(0x9000, 0);
    let own = NodeRef::from_ffi(&solver, 0x3000, SortKind::BitVec(8));
    let own2 = NodeRef::from_ffi(&solver, 0x3008, SortKind::BitVec(4));
    let foreign = NodeRef::from_ffi(&other, 0x3010, SortKind::BitVec(8));
    assert_eq!(Node::Add(&own, &own2).check(&solver), Ok(()));
    assert_eq!(Node::Add(&own, &foreign).check(&solver), Err(NodeError::ForeignOperand));
    assert_eq!(Node::Add(&foreign, &own).check(&solver), Err(NodeError::ForeignOperand));
    assert_eq!(Node::Add(&foreign, &foreign).check(&solver), Err(NodeError::ForeignOperand));
    assert_eq!(Node::Add(&foreign, &foreign).check(&other), Ok(()));
    assert_eq!(Node::Add(&own, &own2).check(&other), Err(NodeError::ForeignOperand));
}

#[test]
fn foreign_operand_is_found_in_every_place() {
    let solver = Solver::from_ffi(BTOR, 0);
    let other = Solver::from_ffi(0x9000, 0);
    let own = NodeRef::from_ffi(&solver, 0x3000, SortKind::BitVec(1));
    let foreign = NodeRef::from_ffi(&other, 0x3010, SortKind::BitVec(1));
    assert_eq!(Node::Not(&foreign).check(&solver), Err(NodeError::ForeignOperand));
    assert_eq!(Node::Cond(&foreign, &own, &own).check(&solver), Err(NodeError::ForeignOperand));
    assert_eq!(Node::Cond(&own, &foreign, &own).check(&solver), Err(NodeError::ForeignOperand));
    assert_eq!(Node::Cond(&own, &own, &foreign).check(&solver), Err(NodeError::ForeignOperand));
    assert_eq!(Node::Cond(&own, &own, &own).check(&solver), Ok(()));
}

#[test]
fn foreign_operand_is_reported_before_the_lengths() {
    let solver = Solver::from_ffi(BTOR, 0);
    let other = Solver::from_ffi(0x9000, 0);
    let own = NodeRef::from_ffi(&solver, 0x3000, SortKind::BitVec(6));
    let foreign = NodeRef::from_ffi(&other, 0x3010, SortKind::BitVec(6));
    assert_eq!(Node::Sll(&own, &foreign).check(&solver), Err(NodeError::ForeignOperand));
    assert_eq!(Node::Sll(&own, &own).check(&solver), Err(NodeError::ShiftWidths));
}

#[test]
fn shift_lengths_rule() {
    assert!(check_shift_widths(1, 0));
    assert!(check_shift_widths(2, 1));
    assert!(check_shift_widths(8, 3));
    assert!(check_shift_widths(32, 5));
    assert!(check_shift_widths(1 << 31, 31));
    assert!(!check_shift_widths(8, 8));
    assert!(!check_shift_widths(8, 2));
    assert!(!check_shift_widths(8, 4));
    assert!(!check_shift_widths(6, 2));
    assert!(!check_shift_widths(6, 3));
    assert!(!check_shift_widths(0, 0));
    assert!(!check_shift_widths(0, 32));
    assert!(!check_shift_widths(1, 32));
    assert!(!check_shift_widths(u32::MAX, 32));
    assert!(!check_shift_widths(u32::MAX, u32::MAX));
}

#[test]
fn shifts_and_rotates_are_held_to_the_rule() {
    let solver = Solver::from_ffi(BTOR, 0);
    let v8 = NodeRef::from_ffi(&solver, 0x3000, SortKind::BitVec(8));
    let v6 = NodeRef::from_ffi(&solver, 0x3008, SortKind::BitVec(6));
    let v3 = NodeRef::from_ffi(&solver, 0x3010, SortKind::BitVec(3));
    let v1 = NodeRef::from_ffi(&solver, 0x3018, SortKind::BitVec(1));
    let array = NodeRef::from_ffi(&solver, 0x3020, SortKind::Array);
    assert!(check_shift_operands(&v8, &v3));
    assert!(!check_shift_operands(&v3, &v8));
    assert!(!check_shift_operands(&array, &v3));
    assert!(!check_shift_operands(&v8, &array));
    let nodes = [
        Node::Rol(&v8, &v8),
        Node::Ror(&v6, &v3),
        Node::Sll(&v1, &v1),
        Node::Sra(&array, &v3),
        Node::Srl(&v8, &array),
    ];
    for node in nodes {
        assert_eq!(node.check(&solver), Err(NodeError::ShiftWidths));
    }
    assert_eq!(Node::Srl(&v8, &v3).check(&solver), Ok(()));
    assert_eq!(Node::Rol(&v1, &v1).check(&solver), Err(NodeError::ShiftWidths));
}

#[test]
fn other_nodes_have_no_rule_on_lengths() {
    let solver = Solver::from_ffi(BTOR, 0);
    let v8 = NodeRef::from_ffi(&solver, 0x3000, SortKind::BitVec(8));
    let v6 = NodeRef::from_ffi(&solver, 0x3008, SortKind::BitVec(6));
    let array = NodeRef::from_ffi(&solver, 0x3020, SortKind::Array);
    assert_eq!(Node::Add(&v8, &v6).check(&solver), Ok(()));
    assert_eq!(Node::Concat(&v8, &v6).check(&solver), Ok(()));
    assert_eq!(Node::Eq(&array, &array).check(&solver), Ok(()));
}

#[test]
fn node_ref_accessors() {
    let solver = Solver::from_ffi(BTOR, 0);
    let node = NodeRef::from_ffi(&solver, 0x3000, SortKind::BitVec(8));
    assert_eq!(node.solver().btor_ptr(), BTOR);
    assert_eq!(node.node_ptr(), 0x3000);
    assert_eq!(node.kind(), SortKind::BitVec(8));
    assert_eq!(node.into_ffi(), 0x3000);
}

#[test]
fn node_copy_and_release() {
    let solver = Solver::from_ffi(BTOR, 0);
    let node = NodeRef::from_ffi(&solver, 0x3000, SortKind::BitVec(8));
    assert_eq!(node.copy(), NativeCall::Copy { btor: BTOR, node: 0x3000 });
    let second = node.copy_from_ffi(0x3000);
    assert_eq!(second.kind(), SortKind::BitVec(8));
    assert!(second.is_of(&solver));
    assert_eq!(second.release(), NativeCall::Release { btor: BTOR, node: 0x3000 });
    assert_eq!(node.release(), NativeCall::Release { btor: BTOR, node: 0x3000 });
}

#[test]
fn operators_build_their_nodes() {
    let solver = Solver::from_ffi(BTOR, 0);
    let a = NodeRef::from_ffi(&solver, 0x3000, SortKind::BitVec(8));
    let b = NodeRef::from_ffi(&solver, 0x3008, SortKind::BitVec(8));
    let k = NodeRef::from_ffi(&solver, 0x3010, SortKind::BitVec(3));
    let two = |f| NativeCall::Node2 { f, btor: BTOR, a: 0x3000, b: 0x3008 };
    assert_eq!(a.add(&b), two(NodeFn2::Add));
    assert_eq!(a.bitand(&b), two(NodeFn2::And));
    assert_eq!(a.bitor(&b), two(NodeFn2::Or));
    assert_eq!(a.bitxor(&b), two(NodeFn2::Xor));
    assert_eq!(a.mul(&b), two(NodeFn2::Mul));
    assert_eq!(a.sub(&b), two(NodeFn2::Sub));
    assert_eq!(a.not(), NativeCall::Node1 { f: NodeFn1::Not, btor: BTOR, a: 0x3000 });
    assert_eq!(a.shl(&k), NativeCall::Node2 { f: NodeFn2::Sll, btor: BTOR, a: 0x3000, b: 0x3010 });
    assert_eq!(a.add(&b), Node::Add(&a, &b).into_ref(&solver));
    assert_eq!(a.shl(&k), Node::Sll(&a, &k).into_ref(&solver));
}
