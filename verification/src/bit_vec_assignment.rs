use crate::native::{CallView, NativeCall};
use crate::solver::Solver;
use vstd::prelude::*;
use vstd::string::StringExecFns;

verus! {

/// Whether `c` is one of the characters of an assignment: `0` or `1` for a
/// bit with a fixed value, `x` for a bit with an arbitrary value.
pub open spec fn is_bit(c: char) -> bool {
    c == '0' || c == '1' || c == 'x'
}

/// Whether `text` is an assignment for a bit vector of `width` bits: one
/// character for each bit, each of them `0`, `1` or `x`.
pub open spec fn is_assignment_text(text: Seq<char>, width: u32) -> bool {
    &&& text.len() == width
    &&& forall|i: int| 0 <= i < text.len() ==> is_bit(#[trigger] text[i])
}

/// The bytes of the engine's answer, read as characters.
pub open spec fn bytes_as_text(bytes: Seq<u8>) -> Seq<char> {
    Seq::new(bytes.len(), |i: int| bytes[i] as char)
}

/// Possible value for a bit vector expression in a generated model.
///
/// It owns the text that the engine allocated, until `release`.
pub struct BitVecAssignment<'a> {
    solver: &'a Solver,
    value_ptr: usize,
    text: String,
}

impl<'a> BitVecAssignment<'a> {
    #[verifier::type_invariant]
    spec fn well_formed(&self) -> bool {
        &&& self.value_ptr != 0
        &&& self.text@.len() <= u32::MAX
        &&& is_assignment_text(self.text@, self.text@.len() as u32)
    }

    /// The solver whose model gave the value.
    pub closed spec fn spec_solver(&self) -> Solver {
        *self.solver
    }

    /// The address of the engine's text.
    pub closed spec fn spec_value_ptr(&self) -> usize {
        self.value_ptr
    }

    /// The assignment, one character for each bit.
    pub closed spec fn spec_text(&self) -> Seq<char> {
        self.text@
    }

    /// Read the engine's answer: `Some` where it is an assignment for a bit
    /// vector of `width` bits, and then with that text.
    pub(crate) fn read(solver: &'a Solver, value_ptr: usize, bytes: &[u8], width: u32) -> (r: Option<
        Self,
    >)
        requires
            value_ptr != 0,
        ensures
            r is Some <==> is_assignment_text(bytes_as_text(bytes@), width),
            r matches Some(a) ==> {
                &&& a.spec_solver() == *solver
                &&& a.spec_value_ptr() == value_ptr
                &&& a.spec_text() == bytes_as_text(bytes@)
            },
    {
        if bytes.len() != width as usize {
            return None;
        }
        let mut text = String::new();
        let mut i: usize = 0;
        while i < bytes.len()
            invariant
                i <= bytes@.len(),
                bytes@.len() == width,
                text@ == bytes_as_text(bytes@.subrange(0, i as int)),
                forall|j: int| 0 <= j < i ==> is_bit(#[trigger] bytes@[j] as char),
            decreases bytes@.len() - i,
        {
            let b = bytes[i];
            proof {
                reveal_strlit("0");
                reveal_strlit("1");
                reveal_strlit("x");
            }
            if b == 0x30 {
                text.append("0");
            } else if b == 0x31 {
                text.append("1");
            } else if b == 0x78 {
                text.append("x");
            } else {
                assert(!is_bit(bytes_as_text(bytes@)[i as int]));
                return None;
            }
            assert(text@ =~= bytes_as_text(bytes@.subrange(0, i + 1)));
            i += 1;
        }
        assert(bytes@.subrange(0, i as int) =~= bytes@);
        Some(BitVecAssignment { solver, value_ptr, text })
    }

    /// Return a string representation of the assignment.
    ///
    /// Each character in the string is either '0' or '1' for bits with fixed
    /// values, or 'x' for bits with arbitrary values; there is one for each
    /// bit of the expression.
    pub fn to_str(&self) -> (text: &str)
        ensures
            text@ == self.spec_text(),
            text@.len() <= u32::MAX,
            is_assignment_text(text@, text@.len() as u32),
    {
        proof {
            use_type_invariant(self);
        }
        self.text.as_str()
    }

    /// Give the value up: the call that frees the engine's text. The value
    /// is gone, so no text is freed twice.
    pub fn release(self) -> (call: NativeCall)
        ensures
            call@ == (CallView::FreeBvAssignment {
                btor: self.spec_solver().spec_btor_ptr(),
                assignment: self.spec_value_ptr(),
            }),
    {
        NativeCall::FreeBvAssignment { btor: self.solver.btor_ptr(), assignment: self.value_ptr }
    }
}

} // verus!
