use crate::native::{CallView, NativeCall};
use crate::node_ref::NodeRef;
use crate::solver::Solver;
use vstd::prelude::*;

verus! {

/// What kind of values a sort describes.
#[derive(Copy, Clone, Debug, PartialEq, Eq, Hash, Structural)]
pub enum SortKind {
    /// Arrays.
    Array,
    /// Bit vectors of the given width.
    BitVec(u32),
    /// Functions.
    Fun,
}

impl SortKind {
    /// A bit vector has at least one bit.
    pub open spec fn valid(self) -> bool {
        self matches SortKind::BitVec(width) ==> width > 0
    }

    /// Test `valid`.
    pub fn is_valid(self) -> (ok: bool)
        ensures
            ok == self.valid(),
    {
        match self {
            SortKind::BitVec(width) => width > 0,
            _ => true,
        }
    }
}

/// The symbol that the engine gets for a variable: the one that was asked
/// for, unless it holds a NUL character. The engine takes its strings up to
/// the first NUL, so such a symbol cannot be handed over, and the variable
/// stays unnamed.
pub open spec fn engine_symbol(symbol: Option<&str>) -> Option<Seq<char>> {
    match symbol {
        Some(s) => if s@.contains('\0') {
            None
        } else {
            Some(s@)
        },
        None => None,
    }
}

/// Return whether `s` holds a NUL character.
pub fn has_nul(s: &str) -> (r: bool)
    ensures
        r == s@.contains('\0'),
{
    let n = s.unicode_len();
    let mut i: usize = 0;
    while i < n
        invariant
            n == s@.len(),
            i <= n,
            forall|j: int| 0 <= j < i ==> s@[j] != '\0',
        decreases n - i,
    {
        if s.get_char(i) == '\0' {
            return true;
        }
        i += 1;
    }
    false
}

/// Sort reference: one reference to a sort of the engine, bound to the
/// solver that made it.
pub struct SortRef<'a> {
    solver: &'a Solver,
    sort_ptr: usize,
    kind: SortKind,
}

impl<'a> SortRef<'a> {
    #[verifier::type_invariant]
    spec fn well_formed(&self) -> bool {
        self.sort_ptr != 0 && self.kind.valid()
    }

    /// The parent solver instance.
    pub closed spec fn spec_solver(&self) -> Solver {
        *self.solver
    }

    /// The raw `BoolectorSort` value.
    pub closed spec fn spec_sort_ptr(&self) -> usize {
        self.sort_ptr
    }

    /// The kind of the sort.
    pub closed spec fn spec_kind(&self) -> SortKind {
        self.kind
    }

    /// Whether the sort is of the session of `solver`. Two solver values
    /// stand for one session where their `Btor` pointers are equal.
    pub open spec fn belongs_to(&self, solver: &Solver) -> bool {
        self.spec_solver().spec_btor_ptr() == solver.spec_btor_ptr()
    }

    /// Return parent solver instance.
    pub fn solver(&self) -> (solver: &'a Solver)
        ensures
            *solver == self.spec_solver(),
    {
        self.solver
    }

    /// Return whether the sort is of the session of `solver`.
    pub fn is_of(&self, solver: &Solver) -> (r: bool)
        ensures
            r == self.belongs_to(solver),
    {
        self.solver.btor_ptr() == solver.btor_ptr()
    }

    /// Return the kind of the sort.
    #[verifier::when_used_as_spec(spec_kind)]
    pub fn kind(&self) -> (kind: SortKind)
        ensures
            kind == self.spec_kind(),
            kind.valid(),
    {
        proof {
            use_type_invariant(self);
        }
        self.kind
    }

    /// Return whether this sort is an array sort.
    pub fn is_array(&self) -> (r: bool)
        ensures
            r == (self.spec_kind() is Array),
    {
        match self.kind {
            SortKind::Array => true,
            _ => false,
        }
    }

    /// Return whether this sort is a bit vector sort.
    pub fn is_bitvec(&self) -> (r: bool)
        ensures
            r == (self.spec_kind() is BitVec),
    {
        match self.kind {
            SortKind::BitVec(_) => true,
            _ => false,
        }
    }

    /// Construct a sort reference from raw `BoolectorSort` value, its parent
    /// solver and its kind. The reference that the raw value stands for is
    /// the new handle's from now on.
    pub fn from_ffi(solver: &'a Solver, sort_ptr: usize, kind: SortKind) -> (sort: Self)
        requires
            sort_ptr != 0,
            kind.valid(),
        ensures
            sort.spec_solver() == *solver,
            sort.spec_sort_ptr() == sort_ptr,
            sort.spec_kind() == kind,
    {
        SortRef { solver, sort_ptr, kind }
    }

    /// Consume the sort reference and return the underlying `BoolectorSort`
    /// value. The reference is the caller's to release from now on.
    pub fn into_ffi(self) -> (p: usize)
        ensures
            p == self.spec_sort_ptr(),
            p != 0,
    {
        proof {
            use_type_invariant(&self);
        }
        self.sort_ptr
    }

    /// Return the underlying raw `BoolectorSort` value.
    #[verifier::when_used_as_spec(spec_sort_ptr)]
    pub fn sort_ptr(&self) -> (p: usize)
        ensures
            p == self.spec_sort_ptr(),
            p != 0,
    {
        proof {
            use_type_invariant(self);
        }
        self.sort_ptr
    }

    /// The call that makes a variable of this sort: an array variable for
    /// an array sort, a bit vector variable for a bit vector sort.
    pub open spec fn spec_var(&self, symbol: Option<&str>) -> CallView {
        if self.spec_kind() is Array {
            CallView::Array {
                btor: self.spec_solver().spec_btor_ptr(),
                sort: self.spec_sort_ptr(),
                symbol: engine_symbol(symbol),
            }
        } else {
            CallView::Var {
                btor: self.spec_solver().spec_btor_ptr(),
                sort: self.spec_sort_ptr(),
                symbol: engine_symbol(symbol),
            }
        }
    }

    /// Create a fresh variable of this sort and optionally associate a symbol
    /// with it: the call that makes the variable. The answer goes to
    /// `var_from_ffi`.
    ///
    /// There are no variables of a function sort: such a sort must not get
    /// here.
    pub fn var(&self, symbol: Option<&str>) -> (call: NativeCall)
        requires
            self.spec_kind() is Array || self.spec_kind() is BitVec,
        ensures
            call@ == self.spec_var(symbol),
    {
        let name: Option<String> = match symbol {
            Some(s) => if has_nul(s) {
                None
            } else {
                Some(s.to_owned())
            },
            None => None,
        };
        if self.is_array() {
            NativeCall::Array { btor: self.solver.btor_ptr(), sort: self.sort_ptr, symbol: name }
        } else {
            NativeCall::Var { btor: self.solver.btor_ptr(), sort: self.sort_ptr, symbol: name }
        }
    }

    /// Wrap the node that the engine returned for `var`: a variable of this
    /// sort's solver and of this sort's kind.
    pub fn var_from_ffi(&self, node_ptr: usize) -> (node: NodeRef<'a>)
        requires
            node_ptr != 0,
        ensures
            node.spec_solver() == self.spec_solver(),
            node.spec_node_ptr() == node_ptr,
            node.spec_kind() == self.spec_kind(),
    {
        proof {
            use_type_invariant(self);
        }
        NodeRef::from_ffi(self.solver, node_ptr, self.kind)
    }

    /// The call that takes one more reference to this sort. Its answer goes
    /// to `copy_from_ffi`.
    pub fn copy(&self) -> (call: NativeCall)
        ensures
            call@ == (CallView::CopySort {
                btor: self.spec_solver().spec_btor_ptr(),
                sort: self.spec_sort_ptr(),
            }),
    {
        NativeCall::CopySort { btor: self.solver.btor_ptr(), sort: self.sort_ptr }
    }

    /// Wrap the reference that the engine returned for `copy`: a second
    /// handle on the same sort, of the same solver.
    pub fn copy_from_ffi(&self, sort_ptr: usize) -> (sort: Self)
        requires
            sort_ptr != 0,
        ensures
            sort.spec_solver() == self.spec_solver(),
            sort.spec_sort_ptr() == sort_ptr,
            sort.spec_kind() == self.spec_kind(),
    {
        proof {
            use_type_invariant(self);
        }
        SortRef { solver: self.solver, sort_ptr, kind: self.kind }
    }

    /// Give the reference up: the call that releases it. The handle is gone,
    /// so no reference is released twice.
    pub fn release(self) -> (call: NativeCall)
        ensures
            call@ == (CallView::ReleaseSort {
                btor: self.spec_solver().spec_btor_ptr(),
                sort: self.spec_sort_ptr(),
            }),
    {
        NativeCall::ReleaseSort { btor: self.solver.btor_ptr(), sort: self.sort_ptr }
    }
}

} // verus!
