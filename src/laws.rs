use vstd::prelude::*;
use crate::instruction::{Instruction, decoded};
use crate::state::{Fault, MachineView, MEMORY_SIZE, REGISTER_COUNT, STACK_CAPACITY};

verus! {

/// Adding `b` to a register and then adding `256 - b` gives the register
/// its first value back, and changes nothing else: 8-bit addition wraps.
pub proof fn lemma_add_immediate_wraps_around(s: MachineView, x: u8, b: u8)
    requires
        s.wf(),
        x < REGISTER_COUNT,
    ensures
        s.add_immediate(x, b).add_immediate(x, ((256 - b) % 256) as u8) == s,
{
    let a = s.reg(x);
    let c = ((256 - b) % 256) as u8;
    assert(((a + b) % 256 + c) % 256 == a) by (nonlinear_arith)
        requires
            a < 256,
            b < 256,
            c == (256 - b) % 256,
    ;
    let t = s.add_immediate(x, b).add_immediate(x, c);
    assert(t.v =~= s.v);
}

/// A call followed by a return puts the counter back where it was and
/// leaves the stack as deep as before, whenever the stack has room.
pub proof fn lemma_call_then_return(s: MachineView, address: u16, random: u8, keys: Seq<bool>)
    requires
        s.wf(),
        s.stack.len() < STACK_CAPACITY,
    ensures
        s.execute(Instruction::Call { address }, random, keys) matches Ok(t) && t.execute(
            Instruction::Return,
            random,
            keys,
        ) == Ok::<MachineView, Fault>(s),
{
    let t = s.call(address)->Ok_0;
    assert(t.stack.drop_last() =~= s.stack);
}

/// A return on an empty stack is refused with `StackUnderflow` and the
/// machine stays as it was.
pub proof fn lemma_return_on_empty_stack(s: MachineView, random: u8, keys: Seq<bool>)
    requires
        s.wf(),
        s.stack.len() == 0,
    ensures
        s.execute(Instruction::Return, random, keys) == Err::<MachineView, Fault>(
            Fault::StackUnderflow,
        ),
{
}

/// A skip instruction on its own moves the counter on by 2 where its
/// condition holds and leaves it where it is otherwise; nothing else changes.
/// The counter is a 16-bit register, so this holds where the counter plus 2
/// does not wrap past 0xFFFF.
pub proof fn lemma_skip_instruction_advances_counter(
    s: MachineView,
    ins: Instruction,
    random: u8,
    keys: Seq<bool>,
)
    requires
        s.wf(),
        ins.wf(),
        ins.is_skip(),
        s.pc + 2 <= 0xFFFF,
    ensures
        s.execute(ins, random, keys) == Ok::<MachineView, Fault>(
            s.with_pc(
                (s.pc + if s.skip_condition(ins, keys) {
                    2int
                } else {
                    0int
                }) as u16,
            ),
        ),
{
    assert(s.with_pc(s.pc) == s);
}

/// A cycle that runs a skip instruction moves the counter on by 4 where the
/// condition holds and by 2 where it does not.
pub proof fn lemma_skip_advances_counter(s: MachineView, random: u8, keys: Seq<bool>)
    requires
        s.wf(),
        s.waiting is None,
        s.pc + 2 <= MEMORY_SIZE,
        decoded(s.fetched_word()) matches Some(ins) && ins.is_skip(),
    ensures
        s.cycle(random, keys) matches Ok(t) && t.pc == s.pc + if s.skip_condition(
            decoded(s.fetched_word())->Some_0,
            keys,
        ) {
            4int
        } else {
            2int
        },
{
}

} // verus!
