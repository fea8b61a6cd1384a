//! A minimal stack-based bytecode interpreter: a fixed-capacity stack of
//! `i32` values, four instructions, and a step function that reports a
//! fault code for every instruction it executes.

mod instr;
mod laws;
mod vm;

pub use instr::{BinOp, Instr, Trap};
pub use laws::{
    lemma_add_semantics, lemma_failure_changes_nothing, lemma_overflow_boundary,
    lemma_push_pop_inverse, lemma_run_within_capacity, lemma_subtract_order,
    lemma_underflow_boundary,
};
pub use vm::{
    binary_op, binop_step, lemma_len_within_capacity, run, step, trace_prog, vm_execute, Vm,
    STACK_CAPACITY,
};
