use crate::model::Model;
use crate::native::{BTOR_RESULT_SAT, BTOR_RESULT_UNSAT};
use crate::solver::Solver;
use vstd::prelude::*;

verus! {

/// Result of a `solve` operation.
pub enum SolveResult<'a> {
    /// The formula is satisfiable.  Depending on `Builder` configuration, a
    /// model may be provided.
    Sat(Option<Model<'a>>),
    /// The formula is unsatisfiable.
    Unsat,
}

impl<'a> SolveResult<'a> {
    /// What the engine's answer `result` means for `solver`: satisfiable for
    /// `BTOR_RESULT_SAT`, with a model where the solver was built with model
    /// generation; else unsatisfiable.
    pub open spec fn spec_from_ffi(solver: &'a Solver, result: i32) -> SolveResult<'a> {
        if result == BTOR_RESULT_SAT {
            if solver.spec_model_gen() != 0 {
                SolveResult::Sat(Some(Model::spec_new(solver)))
            } else {
                SolveResult::Sat(None)
            }
        } else {
            SolveResult::Unsat
        }
    }

    /// Whether the result is `Sat`.
    pub open spec fn spec_is_sat(&self) -> bool {
        self is Sat
    }

    /// Whether a result is `Sat` follows from the engine's answer alone:
    /// equal answers give the same tag, whatever the solver was built with.
    pub proof fn lemma_tag_follows_answer(solver: &'a Solver, other: &'a Solver, result: i32)
        ensures
            Self::spec_from_ffi(solver, result).spec_is_sat() == (result == BTOR_RESULT_SAT),
            Self::spec_from_ffi(solver, result).spec_is_sat() == Self::spec_from_ffi(
                other,
                result,
            ).spec_is_sat(),
    {
    }

    /// A solver that was built without model generation has no model to
    /// give: whatever the engine answers, the result is `Sat(None)` or
    /// `Unsat`.
    pub proof fn lemma_no_model_without_generation(solver: &'a Solver, result: i32)
        requires
            solver.spec_model_gen() == 0,
        ensures
            Self::spec_from_ffi(solver, result) == (if result == BTOR_RESULT_SAT {
                SolveResult::Sat(None)
            } else {
                SolveResult::Unsat
            }),
    {
    }

    /// Read the answer of the engine's solve step.
    ///
    /// The engine answers `BTOR_RESULT_SAT` or `BTOR_RESULT_UNSAT`; nothing
    /// else must get here.
    pub fn from_ffi(solver: &'a Solver, result: i32) -> (r: Self)
        requires
            result == BTOR_RESULT_SAT || result == BTOR_RESULT_UNSAT,
        ensures
            r == Self::spec_from_ffi(solver, result),
            r matches SolveResult::Sat(Some(model)) ==> model.spec_solver() == *solver,
    {
        if result == BTOR_RESULT_SAT {
            if solver.model_gen() != 0 {
                SolveResult::Sat(Some(Model::new(solver)))
            } else {
                SolveResult::Sat(None)
            }
        } else {
            SolveResult::Unsat
        }
    }

    /// Return whether the result is `Sat`.
    #[verifier::when_used_as_spec(spec_is_sat)]
    pub fn is_sat(&self) -> (r: bool)
        ensures
            r == self.spec_is_sat(),
    {
        match self {
            SolveResult::Sat(..) => true,
            SolveResult::Unsat => false,
        }
    }
}

} // verus!
