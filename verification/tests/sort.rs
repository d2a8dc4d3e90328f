use boolector::{has_nul, NativeCall, Solver, Sort, SortError, SortKind, SortRef};

const BTOR: usize = 0x1000;

#[test]
fn bit_vec_sort_call() {
    let solver = Solver::from_ffi(BTOR, 0);
    assert_eq!(Sort::BitVec(8).check(&solver), Ok(()));
    assert_eq!(Sort::BitVec(8).kind(), SortKind::BitVec(8));
    assert_eq!(Sort::BitVec(8).into_ref(&solver), NativeCall::BitVecSort { btor: BTOR, width: 8 });
    assert_eq!(solver.sort(Sort::BitVec(1)), NativeCall::BitVecSort { btor: BTOR, width: 1 });
}

#[test]
fn empty_bit_vec_is_refused() {
    let solver = Solver::from_ffi(BTOR, 0);
    assert_eq!(Sort::BitVec(0).check(&solver), Err(SortError::ZeroWidth));
    assert!(!SortKind::BitVec(0).is_valid());
    assert!(SortKind::BitVec(1).is_valid());
    assert!(SortKind::Array.is_valid());
    assert!(SortKind::Fun.is_valid());
}

#[test]
fn array_sort_call_keeps_index_before_element() {
    let solver = Solver::from_ffi(BTOR, 0);
    let index = SortRef::from_ffi(&solver, 0x2000, SortKind::BitVec(4));
    let element = SortRef::from_ffi(&solver, 0x2008, SortKind::BitVec(8));
    let sort = Sort::Array(&index, &element);
    assert_eq!(sort.check(&solver), Ok(()));
    assert_eq!(sort.kind(), SortKind::Array);
    assert_eq!(
        sort.into_ref(&solver),
        NativeCall::ArraySort { btor: BTOR, index: 0x2000, element: 0x2008 }
    );
}

#[test]
fn fun_sort_call_keeps_the_order_of_inputs() {
    let solver = Solver::from_ffi(BTOR, 0);
    let a = SortRef::from_ffi(&solver, 0x2000, SortKind::BitVec(4));
    let b = SortRef::from_ffi(&solver, 0x2008, SortKind::BitVec(8));
    let c = SortRef::from_ffi(&solver, 0x2010, SortKind::BitVec(16));
    let out = SortRef::from_ffi(&solver, 0x2018, SortKind::BitVec(1));
    let domain = [&c, &a, &b];
    let sort = Sort::Fun(&domain, &out);
    assert_eq!(sort.check(&solver), Ok(()));
    assert_eq!(sort.kind(), SortKind::Fun);
    assert_eq!(
        sort.into_ref(&solver),
        NativeCall::FunSort { btor: BTOR, domain: vec![0x2010, 0x2000, 0x2008], codomain: 0x2018 }
    );
}

#[test]
fn fun_sort_without_inputs() {
    let solver = Solver::from_ffi(BTOR, 0);
    let out = SortRef::from_ffi(&solver, 0x2018, SortKind::BitVec(1));
    let sort = Sort::Fun(&[], &out);
    assert_eq!(sort.check(&solver), Ok(()));
    assert_eq!(
        sort.into_ref(&solver),
        NativeCall::FunSort { btor: BTOR, domain: vec![], codomain: 0x2018 }
    );
}

#[test]
fn sorts_of_another_solver_are_refused() {
    let solver = Solver::from_ffi(BTOR, 0);
    let other = Solver::from_ffi(0x9000, 0);
    let own = SortRef::from_ffi(&solver, 0x2000, SortKind::BitVec(4));
    let foreign = SortRef::from_ffi(&other, 0x2008, SortKind::BitVec(8));
    assert!(own.is_of(&solver));
    assert!(!foreign.is_of(&solver));
    assert_eq!(Sort::Array(&own, &foreign).check(&solver), Err(SortError::ForeignOperand));
    assert_eq!(Sort::Array(&foreign, &own).check(&solver), Err(SortError::ForeignOperand));
    assert_eq!(Sort::Array(&own, &own).check(&solver), Ok(()));
    assert_eq!(Sort::Fun(&[&own, &foreign], &own).check(&solver), Err(SortError::ForeignOperand));
    assert_eq!(Sort::Fun(&[&foreign, &own], &own).check(&solver), Err(SortError::ForeignOperand));
    assert_eq!(Sort::Fun(&[&own, &own], &foreign).check(&solver), Err(SortError::ForeignOperand));
    assert_eq!(Sort::Fun(&[&own, &own], &own).check(&solver), Ok(()));
}

#[test]
fn two_solver_values_of_one_session_are_one_solver() {
    let solver = Solver::from_ffi(BTOR, 0);
    let again = Solver::from_ffi(BTOR, 1);
    let sort = SortRef::from_ffi(&again, 0x2000, SortKind::BitVec(4));
    assert!(sort.is_of(&solver));
}

#[test]
fn sort_ref_accessors() {
    let solver = Solver::from_ffi(BTOR, 0);
    let sort = SortRef::from_ffi(&solver, 0x2000, SortKind::BitVec(8));
    assert_eq!(sort.solver().btor_ptr(), BTOR);
    assert_eq!(sort.sort_ptr(), 0x2000);
    assert_eq!(sort.kind(), SortKind::BitVec(8));
    assert!(sort.is_bitvec());
    assert!(!sort.is_array());
    let array = SortRef::from_ffi(&solver, 0x2008, SortKind::Array);
    assert!(array.is_array());
    assert!(!array.is_bitvec());
    let fun = SortRef::from_ffi(&solver, 0x2010, SortKind::Fun);
    assert!(!fun.is_array());
    assert!(!fun.is_bitvec());
    assert_eq!(sort.into_ffi(), 0x2000);
}

#[test]
fn sort_copy_and_release() {
    let solver = Solver::from_ffi(BTOR, 0);
    let sort = SortRef::from_ffi(&solver, 0x2000, SortKind::BitVec(8));
    assert_eq!(sort.copy(), NativeCall::CopySort { btor: BTOR, sort: 0x2000 });
    let second = sort.copy_from_ffi(0x2000);
    assert_eq!(second.kind(), SortKind::BitVec(8));
    assert_eq!(second.solver().btor_ptr(), BTOR);
    assert_eq!(second.release(), NativeCall::ReleaseSort { btor: BTOR, sort: 0x2000 });
    assert_eq!(sort.release(), NativeCall::ReleaseSort { btor: BTOR, sort: 0x2000 });
}

#[test]
fn bit_vec_variable() {
    let solver = Solver::from_ffi(BTOR, 0);
    let sort = SortRef::from_ffi(&solver, 0x2000, SortKind::BitVec(8));
    assert_eq!(
        sort.var(Some("x")),
        NativeCall::Var { btor: BTOR, sort: 0x2000, symbol: Some(String::from("x")) }
    );
    assert_eq!(sort.var(None), NativeCall::Var { btor: BTOR, sort: 0x2000, symbol: None });
    let x = sort.var_from_ffi(0x3000);
    assert_eq!(x.node_ptr(), 0x3000);
    assert_eq!(x.kind(), SortKind::BitVec(8));
    assert!(x.is_of(&solver));
}

#[test]
fn array_variable() {
    let solver = Solver::from_ffi(BTOR, 0);
    let sort = SortRef::from_ffi(&solver, 0x2000, SortKind::Array);
    assert_eq!(
        sort.var(Some("mem")),
        NativeCall::Array { btor: BTOR, sort: 0x2000, symbol: Some(String::from("mem")) }
    );
    assert_eq!(sort.var(None), NativeCall::Array { btor: BTOR, sort: 0x2000, symbol: None });
    assert_eq!(sort.var_from_ffi(0x3000).kind(), SortKind::Array);
}

#[test]
fn symbol_with_nul_leaves_the_variable_unnamed() {
    let solver = Solver::from_ffi(BTOR, 0);
    let sort = SortRef::from_ffi(&solver, 0x2000, SortKind::BitVec(8));
    assert_eq!(sort.var(Some("a\0b")), NativeCall::Var { btor: BTOR, sort: 0x2000, symbol: None });
    assert_eq!(sort.var(Some("\0")), NativeCall::Var { btor: BTOR, sort: 0x2000, symbol: None });
    assert_eq!(
        sort.var(Some("")),
        NativeCall::Var { btor: BTOR, sort: 0x2000, symbol: Some(String::new()) }
    );
    assert_eq!(
        sort.var(Some("größe")),
        NativeCall::Var { btor: BTOR, sort: 0x2000, symbol: Some(String::from("größe")) }
    );
}

#[test]
fn has_nul_finds_it_anywhere() {
    assert!(!has_nul(""));
    assert!(!has_nul("x0"));
    assert!(has_nul("\0x"));
    assert!(has_nul("x\0"));
    assert!(has_nul("ü\0ü"));
}
