use vstd::prelude::*;

verus! {

/// One instruction of a program.
#[derive(Debug, Clone, Copy, PartialEq, Eq, Structural)]
pub enum Instr {
    /// Replace the top two values by their sum.
    VmPlus,
    /// Replace the top two values by the top minus the second.
    VmMinus,
    /// Push a value.
    VmPush(i32),
    /// Drop the top value.
    VmPop,
}

/// The status reported by one execution step.
#[derive(Debug, Clone, Copy, PartialEq, Eq, Structural)]
pub enum Trap {
    /// A push was attempted on a full stack.
    StackOverflow,
    /// The step succeeded.
    Success,
    /// A pop or a binary operation found too few values on the stack.
    StackUnderflow,
}

/// The combining function of a binary instruction.
#[derive(Debug, Clone, Copy, PartialEq, Eq, Structural)]
pub enum BinOp {
    Plus,
    Minus,
}

impl BinOp {
    /// `op1` combined with `op2`, `op1` being the top of the stack.
    /// Arithmetic wraps around on `i32` overflow.
    pub open spec fn apply(self, op1: i32, op2: i32) -> i32 {
        match self {
            BinOp::Plus => op1.wrapping_add(op2),
            BinOp::Minus => op1.wrapping_sub(op2),
        }
    }

    pub fn eval(self, op1: i32, op2: i32) -> (r: i32)
        ensures
            r == self.apply(op1, op2),
    {
        match self {
            BinOp::Plus => op1.wrapping_add(op2),
            BinOp::Minus => op1.wrapping_sub(op2),
        }
    }
}

} // verus!
