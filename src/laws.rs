use vstd::prelude::*;

use crate::instruction::Instruction;
use crate::model::{after, blank_display, key_pressed, machine_wf, step, Machine};
use crate::sprite::covers;

verus! {

/// Instructions that set the program counter other than by moving on to the
/// next instruction: jumps, calls, returns and conditional skips.
pub open spec fn is_control_flow(ins: Instruction) -> bool {
    ||| ins is Jump
    ||| ins is JumpOffset
    ||| ins is Call
    ||| ins is Return
    ||| ins is SkipEqImm
    ||| ins is SkipNeImm
    ||| ins is SkipEqReg
    ||| ins is SkipNeReg
    ||| ins is SkipKeyEq
    ||| ins is SkipKeyNe
}

/// Every instruction but the control-flow ones moves the program counter on
/// by exactly one instruction word. `Fx0A` does so once a key is pressed;
/// while none is, it waits on the same instruction.
pub proof fn lemma_pc_advances(m: Machine, ins: Instruction, key: u8, rnd: u8)
    requires
        machine_wf(m),
        !is_control_flow(ins),
        ins is WaitKey ==> key_pressed(key),
        step(m, ins, key, rnd) is Ok,
    ensures
        after(m, ins, key, rnd).pc == m.pc + 2,
{
}

/// `3xnn` skips the next instruction exactly when `Vx == nn`, and `4xnn`
/// exactly when `Vx != nn`, for every byte `nn` and every register content.
pub proof fn lemma_skip_on_immediate(m: Machine, x: u8, nn: u8, key: u8, rnd: u8)
    requires
        machine_wf(m),
        x < 16,
        m.pc + 1 < 4096,
    ensures
        step(m, Instruction::SkipEqImm { x, nn }, key, rnd) is Ok,
        step(m, Instruction::SkipNeImm { x, nn }, key, rnd) is Ok,
        after(m, Instruction::SkipEqImm { x, nn }, key, rnd).pc == m.pc + 4 <==> m.v[x as int] == nn,
        after(m, Instruction::SkipEqImm { x, nn }, key, rnd).pc == m.pc + 2 <==> m.v[x as int] != nn,
        after(m, Instruction::SkipNeImm { x, nn }, key, rnd).pc == m.pc + 4 <==> m.v[x as int] != nn,
        after(m, Instruction::SkipNeImm { x, nn }, key, rnd).pc == m.pc + 2 <==> m.v[x as int] == nn,
{
}

/// `Fx55` followed, once `I` is set back to where the store began, by `Fx65`
/// gives back `V0..=Vx` unchanged; each of the two leaves `I` just past the
/// block.
pub proof fn lemma_store_load_round_trip(m: Machine, x: u8, key: u8, rnd: u8)
    requires
        machine_wf(m),
        x < 16,
        m.index + x < 4096,
        m.pc + 5 < 4096,
    ensures
        step(m, Instruction::Store { x }, key, rnd) is Ok,
        ({
            let stored = after(m, Instruction::Store { x }, key, rnd);
            let rewound = after(stored, Instruction::LoadIndex { nnn: m.index }, key, rnd);
            &&& stored.index == m.index + x + 1
            &&& step(stored, Instruction::LoadIndex { nnn: m.index }, key, rnd) is Ok
            &&& step(rewound, Instruction::Load { x }, key, rnd) is Ok
            &&& after(rewound, Instruction::Load { x }, key, rnd).index == m.index + x + 1
            &&& after(rewound, Instruction::Load { x }, key, rnd).v == m.v
        }),
{
    let stored = after(m, Instruction::Store { x }, key, rnd);
    let rewound = after(stored, Instruction::LoadIndex { nnn: m.index }, key, rnd);
    assert(after(rewound, Instruction::Load { x }, key, rnd).v =~= m.v);
}

/// Drawing the same sprite twice at the same place gives the framebuffer
/// back as it was; the second draw reports a collision exactly when the
/// sprite has a set bit over a pixel that was clear before the first, so a
/// sprite drawn over a clear area is erased with `VF == 1`. The coordinates
/// and the height must come from registers other than `VF`, which the first
/// draw overwrites.
pub proof fn lemma_draw_twice(m: Machine, x: u8, y: u8, n: u8, key: u8, rnd: u8)
    requires
        machine_wf(m),
        x < 15,
        y < 15,
        n < 16,
        m.index + n <= 4096,
        m.pc + 3 < 4096,
    ensures
        step(m, Instruction::Draw { x, y, n }, key, rnd) is Ok,
        ({
            let once = after(m, Instruction::Draw { x, y, n }, key, rnd);
            let twice = after(once, Instruction::Draw { x, y, n }, key, rnd);
            &&& step(once, Instruction::Draw { x, y, n }, key, rnd) is Ok
            &&& twice.display == m.display
            &&& twice.v[15] == 1 <==> exists|p: int|
                0 <= p < 2048 && covers(m.memory, m.index as int, m.v[x as int], m.v[y as int], n, p)
                    && !#[trigger] m.display[p]
        }),
{
    let once = after(m, Instruction::Draw { x, y, n }, key, rnd);
    let twice = after(once, Instruction::Draw { x, y, n }, key, rnd);
    assert(once.v[x as int] == m.v[x as int] && once.v[y as int] == m.v[y as int]);
    assert(twice.display =~= m.display);
    if twice.v[15] == 1 {
        let p = choose|p: int|
            0 <= p < 2048 && covers(once.memory, once.index as int, once.v[x as int], once.v[y as int], n, p)
                && #[trigger] once.display[p];
        assert(!m.display[p]);
    }
    if exists|p: int|
        0 <= p < 2048 && covers(m.memory, m.index as int, m.v[x as int], m.v[y as int], n, p)
            && !#[trigger] m.display[p] {
        let p = choose|p: int|
            0 <= p < 2048 && covers(m.memory, m.index as int, m.v[x as int], m.v[y as int], n, p)
                && !#[trigger] m.display[p];
        assert(once.display[p]);
    }
}

/// After `00E0` the framebuffer is entirely clear, so the draw that follows
/// lights exactly the sprite's set bits and reports no collision.
pub proof fn lemma_clear_then_draw(m: Machine, x: u8, y: u8, n: u8, key: u8, rnd: u8)
    requires
        machine_wf(m),
        n < 16,
        m.index + n <= 4096,
        m.pc + 3 < 4096,
    ensures
        step(m, Instruction::Clear, key, rnd) is Ok,
        ({
            let cleared = after(m, Instruction::Clear, key, rnd);
            let drawn = after(cleared, Instruction::Draw { x, y, n }, key, rnd);
            &&& cleared.display == blank_display()
            &&& forall|p: int| 0 <= p < 2048 ==> !#[trigger] cleared.display[p]
            &&& step(cleared, Instruction::Draw { x, y, n }, key, rnd) is Ok
            &&& drawn.v[15] == 0
            &&& forall|p: int|
                0 <= p < 2048 ==> #[trigger] drawn.display[p] == covers(
                    m.memory,
                    m.index as int,
                    m.v[x as int],
                    m.v[y as int],
                    n,
                    p,
                )
        }),
{
}

/// A call followed by a return resumes at the instruction after the call,
/// with the call stack as it was.
pub proof fn lemma_call_return(m: Machine, nnn: u16, key: u8, rnd: u8)
    requires
        machine_wf(m),
        m.stack.len() < 16,
        m.pc + 1 < 4096,
        nnn + 1 < 4096,
    ensures
        step(m, Instruction::Call { nnn }, key, rnd) is Ok,
        ({
            let called = after(m, Instruction::Call { nnn }, key, rnd);
            let back = after(called, Instruction::Return, key, rnd);
            &&& called.pc == nnn
            &&& step(called, Instruction::Return, key, rnd) is Ok
            &&& back.pc == m.pc + 2
            &&& back.stack == m.stack
        }),
{
    let called = after(m, Instruction::Call { nnn }, key, rnd);
    assert(called.stack.drop_last() =~= m.stack);
}

} // verus!
