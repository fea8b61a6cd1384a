use vstd::prelude::*;
use crate::instr::{BinOp, Instr, Trap};

verus! {

/// The capacity of a stack made by `Vm::new`.
pub const STACK_CAPACITY: usize = 128;

/// The stack that results from a binary operation on `s`, and its status.
pub open spec fn binop_step(s: Seq<i32>, op: BinOp) -> (Seq<i32>, Trap) {
    if s.len() < 2 {
        (s, Trap::StackUnderflow)
    } else {
        let n = s.len();
        (s.subrange(0, n - 2).push(op.apply(s[n - 1], s[n - 2])), Trap::Success)
    }
}

/// One step of the interpreter on the live values `s` of a stack with
/// capacity `cap`: the live values afterwards, and the reported status.
pub open spec fn step(cap: nat, s: Seq<i32>, i: Instr) -> (Seq<i32>, Trap) {
    match i {
        Instr::VmPlus => binop_step(s, BinOp::Plus),
        Instr::VmMinus => binop_step(s, BinOp::Minus),
        Instr::VmPush(v) => if s.len() >= cap {
            (s, Trap::StackOverflow)
        } else {
            (s.push(v), Trap::Success)
        },
        Instr::VmPop => if s.len() == 0 {
            (s, Trap::StackUnderflow)
        } else {
            (s.drop_last(), Trap::Success)
        },
    }
}

/// The live values after running the whole of `p`, one step per instruction.
pub open spec fn run(cap: nat, s: Seq<i32>, p: Seq<Instr>) -> Seq<i32>
    decreases p.len(),
{
    if p.len() == 0 {
        s
    } else {
        step(cap, run(cap, s, p.drop_last()), p.last()).0
    }
}

/// The interpreter state: a fixed-capacity value stack. Slots at and above
/// `stack_size` hold stale values and are never read.
pub struct Vm {
    stack_size: usize,
    stack: Vec<i32>,
}

impl View for Vm {
    type V = Seq<i32>;

    /// The live values, bottom first.
    closed spec fn view(&self) -> Seq<i32> {
        self.stack@.subrange(0, self.stack_size as int)
    }
}

impl Vm {
    /// The number of slots of the stack.
    pub closed spec fn cap(&self) -> nat {
        self.stack@.len()
    }

    /// The live length never exceeds the capacity.
    pub closed spec fn wf(&self) -> bool {
        self.stack_size <= self.stack@.len()
    }

    /// An empty interpreter whose stack has `STACK_CAPACITY` slots.
    pub fn new() -> (r: Vm)
        ensures
            r.wf(),
            r.cap() == STACK_CAPACITY,
            r@ == Seq::<i32>::empty(),
    {
        Vm::with_capacity(STACK_CAPACITY)
    }

    /// An empty interpreter whose stack has `capacity` zeroed slots.
    pub fn with_capacity(capacity: usize) -> (r: Vm)
        ensures
            r.wf(),
            r.cap() == capacity,
            r@ == Seq::<i32>::empty(),
    {
        let mut stack: Vec<i32> = Vec::new();
        let mut i: usize = 0;
        while i < capacity
            invariant
                i <= capacity,
                stack@.len() == i,
            decreases capacity - i,
        {
            stack.push(0);
            i = i + 1;
        }
        let r = Vm { stack_size: 0, stack };
        assert(r@ =~= Seq::<i32>::empty());
        r
    }

    /// The number of live values.
    pub fn len(&self) -> (r: usize)
        requires
            self.wf(),
        ensures
            r == self@.len(),
    {
        self.stack_size
    }

    /// The number of slots.
    pub fn capacity(&self) -> (r: usize)
        requires
            self.wf(),
        ensures
            r == self.cap(),
    {
        self.stack.len()
    }

    /// The top value, if any.
    pub fn top(&self) -> (r: Option<i32>)
        requires
            self.wf(),
        ensures
            r == (if self@.len() == 0 { None } else { Some(self@.last()) }),
    {
        if self.stack_size == 0 {
            None
        } else {
            Some(self.stack[self.stack_size - 1])
        }
    }

    /// A copy of the live values, bottom first.
    pub fn contents(&self) -> (r: Vec<i32>)
        requires
            self.wf(),
        ensures
            r@ == self@,
    {
        let mut r: Vec<i32> = Vec::new();
        let mut i: usize = 0;
        while i < self.stack_size
            invariant
                self.wf(),
                i <= self.stack_size,
                r@ == self@.subrange(0, i as int),
            decreases self.stack_size - i,
        {
            r.push(self.stack[i]);
            i = i + 1;
            assert(r@ =~= self@.subrange(0, i as int));
        }
        assert(r@ =~= self@);
        r
    }
}

/// Every well-formed interpreter holds at most as many values as it has slots.
pub proof fn lemma_len_within_capacity(vm: &Vm)
    requires
        vm.wf(),
    ensures
        vm@.len() <= vm.cap(),
{
}

/// Pops the top two values, combines them with `op` (top as the left
/// operand) and pushes the result; `StackUnderflow` with no change when
/// fewer than two values are live.
pub fn binary_op(vm: &mut Vm, op: BinOp) -> (r: Trap)
    requires
        old(vm).wf(),
    ensures
        final(vm).wf(),
        final(vm).cap() == old(vm).cap(),
        (final(vm)@, r) == binop_step(old(vm)@, op),
{
    if vm.stack_size > 1 {
        let op1: i32 = vm.stack[vm.stack_size - 1];
        let op2: i32 = vm.stack[vm.stack_size - 2];
        vm.stack_size = vm.stack_size - 1;
        let idx: usize = vm.stack_size - 1;
        vm.stack.set(idx, op.eval(op1, op2));
        assert(vm@ =~= binop_step(old(vm)@, op).0);
        Trap::Success
    } else {
        Trap::StackUnderflow
    }
}

/// Executes one instruction, changing the stack as `step` says and
/// returning its status. A failing step changes nothing.
pub fn vm_execute(vm: &mut Vm, instr: &Instr) -> (r: Trap)
    requires
        old(vm).wf(),
    ensures
        final(vm).wf(),
        final(vm).cap() == old(vm).cap(),
        (final(vm)@, r) == step(old(vm).cap(), old(vm)@, *instr),
        r != Trap::Success ==> final(vm)@ == old(vm)@,
        final(vm)@.len() <= final(vm).cap(),
{
    match *instr {
        Instr::VmPlus => binary_op(vm, BinOp::Plus),
        Instr::VmMinus => binary_op(vm, BinOp::Minus),
        Instr::VmPush(elt) => {
            if vm.stack_size >= vm.stack.len() {
                Trap::StackOverflow
            } else {
                let idx: usize = vm.stack_size;
                vm.stack.set(idx, elt);
                vm.stack_size = vm.stack_size + 1;
                assert(vm@ =~= old(vm)@.push(elt));
                Trap::Success
            }
        },
        Instr::VmPop => {
            if vm.stack_size == 0 {
                Trap::StackUnderflow
            } else {
                vm.stack_size = vm.stack_size - 1;
                assert(vm@ =~= old(vm)@.drop_last());
                Trap::Success
            }
        },
    }
}

/// Runs `p` one step at a time from the current state. Entry `i` of the
/// result holds the status of instruction `i` and the live values after it.
pub fn trace_prog(vm: &mut Vm, p: &Vec<Instr>) -> (r: Vec<(Trap, Vec<i32>)>)
    requires
        old(vm).wf(),
    ensures
        final(vm).wf(),
        final(vm).cap() == old(vm).cap(),
        final(vm)@ == run(old(vm).cap(), old(vm)@, p@),
        r@.len() == p@.len(),
        forall|i: int|
            0 <= i < p@.len() ==> {
                &&& (#[trigger] r@[i]).0 == step(old(vm).cap(), run(old(vm).cap(), old(vm)@, p@.take(i)), p@[i]).1
                &&& r@[i].1@ == run(old(vm).cap(), old(vm)@, p@.take(i + 1))
            },
{
    let ghost cap = vm.cap();
    let ghost s0 = vm@;
    let mut r: Vec<(Trap, Vec<i32>)> = Vec::new();
    let mut i: usize = 0;
    assert(p@.take(0) =~= Seq::<Instr>::empty());
    while i < p.len()
        invariant
            vm.wf(),
            vm.cap() == cap,
            i <= p@.len(),
            vm@ == run(cap, s0, p@.take(i as int)),
            r@.len() == i,
            forall|j: int|
                0 <= j < i ==> {
                    &&& (#[trigger] r@[j]).0 == step(cap, run(cap, s0, p@.take(j)), p@[j]).1
                    &&& r@[j].1@ == run(cap, s0, p@.take(j + 1))
                },
        decreases p@.len() - i,
    {
        let code = vm_execute(vm, &p[i]);
        assert(p@.take(i + 1).drop_last() =~= p@.take(i as int));
        assert(p@.take(i + 1).last() == p@[i as int]);
        let snapshot = vm.contents();
        r.push((code, snapshot));
        i = i + 1;
    }
    assert(p@.take(p@.len() as int) =~= p@);
    r
}

} // verus!
