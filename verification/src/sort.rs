use crate::native::{CallView, NativeCall};
use crate::solver::Solver;
use crate::sort_ref::{SortKind, SortRef};
use vstd::prelude::*;

verus! {

/// Sort description.
///
/// For references to sort instances, see `SortRef`.
#[derive(Clone, Copy)]
pub enum Sort<'a> {
    /// Array with the given sorts of its indexes and of its values; the engine
    /// takes bit vector sorts for both.
    Array(&'a SortRef<'a>, &'a SortRef<'a>),
    /// Bit vector of given length, which is not zero.
    BitVec(u32),
    /// Function with given inputs and a single output.
    Fun(&'a [&'a SortRef<'a>], &'a SortRef<'a>),
}

/// Why a sort description cannot be handed to the engine.
#[derive(Copy, Clone, Debug, PartialEq, Eq, Hash, Structural)]
pub enum SortError {
    /// A sort that the description names is a sort of another solver.
    ForeignOperand,
    /// A bit vector of length zero.
    ZeroWidth,
    /// More inputs than the engine can count.
    TooManyInputs,
}

impl<'a> Sort<'a> {
    /// Every sort that the description names is of the session of `solver`.
    pub open spec fn bound_to(self, solver: &Solver) -> bool {
        match self {
            Sort::Array(index, element) => index.belongs_to(solver) && element.belongs_to(solver),
            Sort::BitVec(_) => true,
            Sort::Fun(domain, codomain) => {
                &&& forall|i: int|
                    0 <= i < domain@.len() ==> (#[trigger] domain@[i]).belongs_to(solver)
                &&& codomain.belongs_to(solver)
            },
        }
    }

    /// A bit vector has at least one bit, and the engine can count the
    /// inputs of a function.
    pub open spec fn valid(self) -> bool {
        match self {
            Sort::Array(_, _) => true,
            Sort::BitVec(bits) => bits > 0,
            Sort::Fun(domain, _) => domain@.len() <= u32::MAX,
        }
    }

    /// The kind of the sort that is described.
    pub open spec fn spec_kind(self) -> SortKind {
        match self {
            Sort::Array(_, _) => SortKind::Array,
            Sort::BitVec(bits) => SortKind::BitVec(bits),
            Sort::Fun(_, _) => SortKind::Fun,
        }
    }

    /// The call that makes the sort in the session of `solver`.
    pub open spec fn spec_into_ref(self, solver: &Solver) -> CallView {
        match self {
            Sort::Array(index, element) => CallView::ArraySort {
                btor: solver.spec_btor_ptr(),
                index: index.spec_sort_ptr(),
                element: element.spec_sort_ptr(),
            },
            Sort::BitVec(bits) => CallView::BitVecSort { btor: solver.spec_btor_ptr(), width: bits },
            Sort::Fun(domain, codomain) => CallView::FunSort {
                btor: solver.spec_btor_ptr(),
                domain: Seq::new(domain@.len(), |i: int| domain@[i].spec_sort_ptr()),
                codomain: codomain.spec_sort_ptr(),
            },
        }
    }

    /// Return the kind of the sort that is described.
    #[verifier::when_used_as_spec(spec_kind)]
    pub fn kind(self) -> (kind: SortKind)
        ensures
            kind == self.spec_kind(),
    {
        match self {
            Sort::Array(_, _) => SortKind::Array,
            Sort::BitVec(bits) => SortKind::BitVec(bits),
            Sort::Fun(_, _) => SortKind::Fun,
        }
    }

    /// Test what `into_ref` asks of a description: `Ok` where every sort
    /// that it names is of the session of `solver`, a bit vector is not
    /// empty and the inputs of a function can be counted; a foreign sort is
    /// reported first.
    pub fn check(self, solver: &Solver) -> (r: Result<(), SortError>)
        ensures
            r is Ok <==> self.bound_to(solver) && self.valid(),
            r == Err::<(), SortError>(SortError::ForeignOperand) <==> !self.bound_to(solver),
            r == Err::<(), SortError>(SortError::ZeroWidth) <==> self.bound_to(solver)
                && self is BitVec && !self.valid(),
            r == Err::<(), SortError>(SortError::TooManyInputs) <==> self.bound_to(solver)
                && self is Fun && !self.valid(),
    {
        match self {
            Sort::Array(index, element) => {
                if index.is_of(solver) && element.is_of(solver) {
                    Ok(())
                } else {
                    Err(SortError::ForeignOperand)
                }
            },
            Sort::BitVec(bits) => {
                if bits > 0 {
                    Ok(())
                } else {
                    Err(SortError::ZeroWidth)
                }
            },
            Sort::Fun(domain, codomain) => {
                let mut i: usize = 0;
                while i < domain.len()
                    invariant
                        self == Sort::Fun(domain, codomain),
                        i <= domain@.len(),
                        forall|j: int| 0 <= j < i ==> (#[trigger] domain@[j]).belongs_to(solver),
                    decreases domain@.len() - i,
                {
                    if !domain[i].is_of(solver) {
                        assert(!domain@[i as int].belongs_to(solver));
                        return Err(SortError::ForeignOperand);
                    }
                    i += 1;
                }
                if !codomain.is_of(solver) {
                    Err(SortError::ForeignOperand)
                } else if domain.len() > u32::MAX as usize {
                    Err(SortError::TooManyInputs)
                } else {
                    Ok(())
                }
            },
        }
    }

    /// Create a sort reference: the call that makes the sort in the session
    /// of `solver`. The answer goes to `SortRef::from_ffi`, with `solver` and
    /// the description's `kind`.
    ///
    /// A description that names a sort of another solver must not get here,
    /// nor an empty bit vector: `check` tells.
    pub fn into_ref(self, solver: &'a Solver) -> (call: NativeCall)
        requires
            self.bound_to(solver),
            self.valid(),
        ensures
            call@ == self.spec_into_ref(solver),
    {
        match self {
            Sort::Array(index, element) => NativeCall::ArraySort {
                btor: solver.btor_ptr(),
                index: index.sort_ptr(),
                element: element.sort_ptr(),
            },
            Sort::BitVec(bits) => NativeCall::BitVecSort { btor: solver.btor_ptr(), width: bits },
            Sort::Fun(domain, codomain) => {
                let mut domain_ptrs: Vec<usize> = Vec::new();
                let mut i: usize = 0;
                while i < domain.len()
                    invariant
                        i <= domain@.len(),
                        domain_ptrs@.len() == i,
                        forall|j: int|
                            0 <= j < i ==> domain_ptrs@[j] == (#[trigger] domain@[j]).spec_sort_ptr(),
                    decreases domain@.len() - i,
                {
                    domain_ptrs.push(domain[i].sort_ptr());
                    i += 1;
                }
                assert(domain_ptrs@ =~= Seq::new(
                    domain@.len(),
                    |i: int| domain@[i].spec_sort_ptr(),
                ));
                NativeCall::FunSort {
                    btor: solver.btor_ptr(),
                    domain: domain_ptrs,
                    codomain: codomain.sort_ptr(),
                }
            },
        }
    }
}

} // verus!
