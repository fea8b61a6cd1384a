use vstd::prelude::*;
use crate::instr::{Instr, Trap};
use crate::vm::{run, step};

verus! {

/// Starting within capacity, every sequence of steps stays within capacity:
/// after any program the number of live values is at most `cap`.
pub proof fn lemma_run_within_capacity(cap: nat, s: Seq<i32>, p: Seq<Instr>)
    requires
        s.len() <= cap,
    ensures
        run(cap, s, p).len() <= cap,
    decreases p.len(),
{
    if p.len() > 0 {
        lemma_run_within_capacity(cap, s, p.drop_last());
    }
}

/// A step that reports `StackOverflow` or `StackUnderflow` leaves the live
/// values exactly as they were.
pub proof fn lemma_failure_changes_nothing(cap: nat, s: Seq<i32>, i: Instr)
    ensures
        step(cap, s, i).1 != Trap::Success ==> step(cap, s, i).0 == s,
{
}

/// Pushing a value onto a stack that is not full and then popping succeeds
/// twice and gives back the stack as it was.
pub proof fn lemma_push_pop_inverse(cap: nat, s: Seq<i32>, v: i32)
    requires
        s.len() < cap,
    ensures
        step(cap, s, Instr::VmPush(v)).1 == Trap::Success,
        step(cap, step(cap, s, Instr::VmPush(v)).0, Instr::VmPop) == (s, Trap::Success),
{
    assert(s.push(v).drop_last() =~= s);
}

/// `VmPlus` on `[.., a, b]` gives `[.., a + b]` (wrapping on overflow).
pub proof fn lemma_add_semantics(cap: nat, s: Seq<i32>, a: i32, b: i32)
    ensures
        step(cap, s.push(a).push(b), Instr::VmPlus) == (s.push(a.wrapping_add(b)), Trap::Success),
{
    let t = s.push(a).push(b);
    assert(t.subrange(0, t.len() - 2) =~= s);
}

/// `VmMinus` on `[.., a, b]` gives `[.., b - a]`: the top minus the second
/// (wrapping on overflow).
pub proof fn lemma_subtract_order(cap: nat, s: Seq<i32>, a: i32, b: i32)
    ensures
        step(cap, s.push(a).push(b), Instr::VmMinus) == (s.push(b.wrapping_sub(a)), Trap::Success),
{
    let t = s.push(a).push(b);
    assert(t.subrange(0, t.len() - 2) =~= s);
}

/// A push onto a full stack reports `StackOverflow` and changes nothing.
pub proof fn lemma_overflow_boundary(cap: nat, s: Seq<i32>, v: i32)
    requires
        s.len() == cap,
    ensures
        step(cap, s, Instr::VmPush(v)) == (s, Trap::StackOverflow),
{
}

/// A pop on an empty stack, and `VmPlus` or `VmMinus` on a stack of fewer
/// than two values, report `StackUnderflow` and change nothing.
pub proof fn lemma_underflow_boundary(cap: nat, s: Seq<i32>)
    ensures
        s.len() < 1 ==> step(cap, s, Instr::VmPop) == (s, Trap::StackUnderflow),
        s.len() < 2 ==> step(cap, s, Instr::VmPlus) == (s, Trap::StackUnderflow),
        s.len() < 2 ==> step(cap, s, Instr::VmMinus) == (s, Trap::StackUnderflow),
{
}

} // verus!
