use crate::generate_model::GenerateModel;
use crate::native::{BtorOption, CallView, NativeCall, BTOR_RESULT_SAT};
use crate::solve_result::SolveResult;
use crate::solver::Solver;
use vstd::prelude::*;

verus! {

/// Solver instance builder.
///
/// It owns a session that is still being set up, and remembers what it set.
pub struct Builder {
    ptr: usize,
    model_gen: u32,
}

impl Builder {
    #[verifier::type_invariant]
    spec fn well_formed(&self) -> bool {
        self.ptr != 0
    }

    /// The address of the engine session.
    pub closed spec fn spec_ptr(&self) -> usize {
        self.ptr
    }

    /// The value that the session's model generation option has; zero is off.
    pub closed spec fn spec_model_gen(&self) -> u32 {
        self.model_gen
    }

    /// The builder that `new` returns for the session at `ptr`.
    pub closed spec fn spec_new(ptr: usize) -> Builder {
        Builder { ptr, model_gen: 0 }
    }

    /// A new builder has its session, and model generation off.
    pub broadcast proof fn lemma_new(ptr: usize)
        ensures
            (#[trigger] Self::spec_new(ptr)).spec_ptr() == ptr,
            Self::spec_new(ptr).spec_model_gen() == 0,
    {
    }

    /// A solver that is finished right after `new` gives no model: for every
    /// answer of the engine its result is `Sat(None)` or `Unsat`.
    pub proof fn lemma_default_gives_no_model(ptr: usize, result: i32)
        ensures
            SolveResult::spec_from_ffi(&Self::spec_new(ptr).spec_finish(), result) == (if result
                == BTOR_RESULT_SAT {
                SolveResult::Sat(None)
            } else {
                SolveResult::Unsat
            }),
    {
        Self::lemma_new(ptr);
        Solver::lemma_from_ffi(ptr, 0);
    }

    /// The solver that `finish` returns.
    pub open spec fn spec_finish(self) -> Solver {
        Solver::spec_from_ffi(self.spec_ptr(), self.spec_model_gen())
    }

    /// Start building a solver instance, on the session that the engine has
    /// just made.
    ///
    /// By default the instance will have these properties:
    ///
    /// * no model generation;
    /// * non-incremental.
    pub fn new(ptr: usize) -> (builder: Self)
        requires
            ptr != 0,
        ensures
            builder == Self::spec_new(ptr),
            builder.spec_ptr() == ptr,
            builder.spec_model_gen() == 0,
    {
        Builder { ptr, model_gen: 0 }
    }

    /// Consume the builder and return the constructed instance.
    pub fn finish(self) -> (solver: Solver)
        ensures
            solver == self.spec_finish(),
            solver.spec_btor_ptr() == self.spec_ptr(),
            solver.spec_model_gen() == self.spec_model_gen(),
    {
        proof {
            use_type_invariant(&self);
            Solver::lemma_from_ffi(self.ptr, self.model_gen);
        }
        Solver::from_ffi(self.ptr, self.model_gen)
    }

    /// Enable model generation: the call that sets the session's option,
    /// which the builder remembers. The engine gives no answer.
    pub fn generate_model(&mut self, mode: GenerateModel) -> (call: NativeCall)
        ensures
            final(self).spec_ptr() == old(self).spec_ptr(),
            final(self).spec_model_gen() == mode.spec_value(),
            call@ == (CallView::SetOpt {
                btor: old(self).spec_ptr(),
                opt: BtorOption::ModelGen,
                value: mode.spec_value(),
            }),
    {
        proof {
            use_type_invariant(&*self);
        }
        self.model_gen = mode.value();
        NativeCall::SetOpt { btor: self.ptr, opt: BtorOption::ModelGen, value: mode.value() }
    }

    /// Give the session up before it became a solver: the call that
    /// destroys it.
    pub fn delete(self) -> (call: NativeCall)
        ensures
            call@ == (CallView::Delete { btor: self.spec_ptr() }),
    {
        NativeCall::Delete { btor: self.ptr }
    }
}

} // verus!
