use vstd::prelude::*;

verus! {

/// What the engine's solve step returns for a satisfiable formula.
pub const BTOR_RESULT_SAT: i32 = 10;

/// What the engine's solve step returns for an unsatisfiable formula.
pub const BTOR_RESULT_UNSAT: i32 = 20;

/// Engine options that this library sets or reads.
#[derive(Copy, Clone, Debug, PartialEq, Eq, Hash, Structural)]
pub enum BtorOption {
    /// Model generation: zero is off, see `GenerateModel` for the other values.
    ModelGen,
}

/// Engine functions that build a node from one operand.
#[derive(Copy, Clone, Debug, PartialEq, Eq, Hash, Structural)]
pub enum NodeFn1 {
    Dec,
    Inc,
    Neg,
    Not,
    RedAnd,
    RedOr,
    RedXor,
}

/// Engine functions that build a node from two operands.
#[derive(Copy, Clone, Debug, PartialEq, Eq, Hash, Structural)]
pub enum NodeFn2 {
    Add,
    And,
    Concat,
    Eq,
    Iff,
    Mul,
    NAnd,
    Ne,
    NOr,
    Or,
    Rol,
    Ror,
    SAddO,
    SDiv,
    SDivO,
    SGt,
    SGte,
    Sll,
    SLt,
    SLte,
    SMod,
    SMulO,
    Sra,
    SRem,
    Srl,
    SSubO,
    Sub,
    UAddO,
    UDiv,
    UGt,
    UGte,
    ULt,
    ULte,
    UMulO,
    URem,
    USubO,
    XNOr,
    Xor,
}

/// Engine functions that build a node from three operands.
#[derive(Copy, Clone, Debug, PartialEq, Eq, Hash, Structural)]
pub enum NodeFn3 {
    Cond,
}

/// One call into the engine, described and not yet made.
///
/// `btor` is the address of the session; `node`, `sort`, `a`, `b`, `c` and
/// the like are raw handles of that session.
#[allow(inconsistent_fields)]
#[derive(Debug, PartialEq, Eq)]
pub enum NativeCall {
    /// Set an option of the session.
    SetOpt { btor: usize, opt: BtorOption, value: u32 },
    /// Destroy the session.
    Delete { btor: usize },
    /// Add a node to the session's constraints.
    Assert { btor: usize, node: usize },
    /// Run the solve step.
    Sat { btor: usize },
    /// Make a bit vector sort.
    BitVecSort { btor: usize, width: u32 },
    /// Make an array sort from its index and element sorts.
    ArraySort { btor: usize, index: usize, element: usize },
    /// Make a function sort from the sorts of its inputs and of its output.
    FunSort { btor: usize, domain: Vec<usize>, codomain: usize },
    /// Make a bit vector variable; without a symbol the engine leaves it unnamed.
    Var { btor: usize, sort: usize, symbol: Option<String> },
    /// Make an array variable; without a symbol the engine leaves it unnamed.
    Array { btor: usize, sort: usize, symbol: Option<String> },
    /// Build a node from one operand.
    Node1 { f: NodeFn1, btor: usize, a: usize },
    /// Build a node from two operands.
    Node2 { f: NodeFn2, btor: usize, a: usize, b: usize },
    /// Build a node from three operands.
    Node3 { f: NodeFn3, btor: usize, a: usize, b: usize, c: usize },
    /// Take one more reference to a node.
    Copy { btor: usize, node: usize },
    /// Give up one reference to a node.
    Release { btor: usize, node: usize },
    /// Take one more reference to a sort.
    CopySort { btor: usize, sort: usize },
    /// Give up one reference to a sort.
    ReleaseSort { btor: usize, sort: usize },
    /// Ask the current model for the value of a bit vector node.
    BvAssignment { btor: usize, node: usize },
    /// Free the text that `BvAssignment` returned.
    FreeBvAssignment { btor: usize, assignment: usize },
}

/// A `NativeCall` with its collections and strings as mathematical values.
#[allow(inconsistent_fields)]
pub enum CallView {
    SetOpt { btor: usize, opt: BtorOption, value: u32 },
    Delete { btor: usize },
    Assert { btor: usize, node: usize },
    Sat { btor: usize },
    BitVecSort { btor: usize, width: u32 },
    ArraySort { btor: usize, index: usize, element: usize },
    FunSort { btor: usize, domain: Seq<usize>, codomain: usize },
    Var { btor: usize, sort: usize, symbol: Option<Seq<char>> },
    Array { btor: usize, sort: usize, symbol: Option<Seq<char>> },
    Node1 { f: NodeFn1, btor: usize, a: usize },
    Node2 { f: NodeFn2, btor: usize, a: usize, b: usize },
    Node3 { f: NodeFn3, btor: usize, a: usize, b: usize, c: usize },
    Copy { btor: usize, node: usize },
    Release { btor: usize, node: usize },
    CopySort { btor: usize, sort: usize },
    ReleaseSort { btor: usize, sort: usize },
    BvAssignment { btor: usize, node: usize },
    FreeBvAssignment { btor: usize, assignment: usize },
}

/// A symbol as a sequence of characters, where there is one.
pub open spec fn symbol_view(symbol: Option<String>) -> Option<Seq<char>> {
    match symbol {
        Some(s) => Some(s@),
        None => None,
    }
}

impl View for NativeCall {
    type V = CallView;

    open spec fn view(&self) -> CallView {
        match *self {
            NativeCall::SetOpt { btor, opt, value } => CallView::SetOpt { btor, opt, value },
            NativeCall::Delete { btor } => CallView::Delete { btor },
            NativeCall::Assert { btor, node } => CallView::Assert { btor, node },
            NativeCall::Sat { btor } => CallView::Sat { btor },
            NativeCall::BitVecSort { btor, width } => CallView::BitVecSort { btor, width },
            NativeCall::ArraySort { btor, index, element } => CallView::ArraySort {
                btor,
                index,
                element,
            },
            NativeCall::FunSort { btor, domain, codomain } => CallView::FunSort {
                btor,
                domain: domain@,
                codomain,
            },
            NativeCall::Var { btor, sort, symbol } => CallView::Var {
                btor,
                sort,
                symbol: symbol_view(symbol),
            },
            NativeCall::Array { btor, sort, symbol } => CallView::Array {
                btor,
                sort,
                symbol: symbol_view(symbol),
            },
            NativeCall::Node1 { f, btor, a } => CallView::Node1 { f, btor, a },
            NativeCall::Node2 { f, btor, a, b } => CallView::Node2 { f, btor, a, b },
            NativeCall::Node3 { f, btor, a, b, c } => CallView::Node3 { f, btor, a, b, c },
            NativeCall::Copy { btor, node } => CallView::Copy { btor, node },
            NativeCall::Release { btor, node } => CallView::Release { btor, node },
            NativeCall::CopySort { btor, sort } => CallView::CopySort { btor, sort },
            NativeCall::ReleaseSort { btor, sort } => CallView::ReleaseSort { btor, sort },
            NativeCall::BvAssignment { btor, node } => CallView::BvAssignment { btor, node },
            NativeCall::FreeBvAssignment { btor, assignment } => CallView::FreeBvAssignment {
                btor,
                assignment,
            },
        }
    }
}

impl NativeCall {
    /// The session that the call is made on.
    pub fn btor(&self) -> (p: usize)
        ensures
            p == self@.btor(),
    {
        match self {
            NativeCall::SetOpt { btor, .. } => *btor,
            NativeCall::Delete { btor } => *btor,
            NativeCall::Assert { btor, .. } => *btor,
            NativeCall::Sat { btor } => *btor,
            NativeCall::BitVecSort { btor, .. } => *btor,
            NativeCall::ArraySort { btor, .. } => *btor,
            NativeCall::FunSort { btor, .. } => *btor,
            NativeCall::Var { btor, .. } => *btor,
            NativeCall::Array { btor, .. } => *btor,
            NativeCall::Node1 { btor, .. } => *btor,
            NativeCall::Node2 { btor, .. } => *btor,
            NativeCall::Node3 { btor, .. } => *btor,
            NativeCall::Copy { btor, .. } => *btor,
            NativeCall::Release { btor, .. } => *btor,
            NativeCall::CopySort { btor, .. } => *btor,
            NativeCall::ReleaseSort { btor, .. } => *btor,
            NativeCall::BvAssignment { btor, .. } => *btor,
            NativeCall::FreeBvAssignment { btor, .. } => *btor,
        }
    }
}

impl CallView {
    /// The session that the call is made on.
    pub open spec fn btor(self) -> usize {
        match self {
            CallView::SetOpt { btor, .. } => btor,
            CallView::Delete { btor } => btor,
            CallView::Assert { btor, .. } => btor,
            CallView::Sat { btor } => btor,
            CallView::BitVecSort { btor, .. } => btor,
            CallView::ArraySort { btor, .. } => btor,
            CallView::FunSort { btor, .. } => btor,
            CallView::Var { btor, .. } => btor,
            CallView::Array { btor, .. } => btor,
            CallView::Node1 { btor, .. } => btor,
            CallView::Node2 { btor, .. } => btor,
            CallView::Node3 { btor, .. } => btor,
            CallView::Copy { btor, .. } => btor,
            CallView::Release { btor, .. } => btor,
            CallView::CopySort { btor, .. } => btor,
            CallView::ReleaseSort { btor, .. } => btor,
            CallView::BvAssignment { btor, .. } => btor,
            CallView::FreeBvAssignment { btor, .. } => btor,
        }
    }
}

} // verus!
