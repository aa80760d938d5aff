use vstd::prelude::*;
use crate::model::{
    decode, initial_state, loaded, Instr, fits, step_spec, tick_spec, EmuError, EmuState, RAM_SIZE, REG_NUMS,
    START_ADDR, W, H,
};

verus! {

/// The nibbles of the opcode 8xyk are 8, x, y and k.
proof fn lemma_nibbles(x: u8, y: u8, k: u8)
    requires
        x < 16,
        y < 16,
        k < 16,
    ensures
        ({
            let op = 0x8000 + 256 * x + 16 * y + k;
            &&& op < 0x10000
            &&& op / 4096 == 8
            &&& (op / 256) % 16 == x
            &&& (op / 16) % 16 == y
            &&& op % 16 == k
        }),
{
    let op = 0x8000 + 256 * x + 16 * y + k;
    assert(op / 4096 == 8) by (nonlinear_arith) requires op == 0x8000 + 256 * x + 16 * y + k, x < 16, y < 16, k < 16, 0 <= x, 0 <= y, 0 <= k;
    assert(op / 256 == 0x80 + x) by (nonlinear_arith) requires op == 0x8000 + 256 * x + 16 * y + k, y < 16, k < 16, 0 <= y, 0 <= k;
    assert(op / 16 == 0x800 + 16 * x + y) by (nonlinear_arith) requires op == 0x8000 + 256 * x + 16 * y + k, k < 16, 0 <= k;
}

/// Adding Vy to Vx (8xy4) sets VF to 1 exactly when the sum of the two bytes
/// exceeds 255, and leaves the sum modulo 256 in Vx (unless Vx is VF itself,
/// which then holds the flag).
pub proof fn law_add_carry(s: EmuState, x: u8, y: u8, rnd: u8)
    requires
        s.wf(),
        x < 16,
        y < 16,
    ensures
        ({
            let a = s.v[x as int];
            let b = s.v[y as int];
            let op = (0x8004 + 256 * x + 16 * y) as u16;
            &&& step_spec(s, op, rnd) is Ok
            &&& step_spec(s, op, rnd)->Ok_0.v[0xF] == (if a + b > 255 { 1u8 } else { 0u8 })
            &&& x != 15 ==> step_spec(s, op, rnd)->Ok_0.v[x as int] == (a + b) % 256
        }),
{
    let op = (0x8004 + 256 * x + 16 * y) as u16;
    lemma_nibbles(x, y, 4);
    assert(decode(op) == Some(Instr::Add { x, y }));
}

/// Subtracting Vy from Vx (8xy5) sets VF to 0 exactly when Vx < Vy, to 1
/// otherwise, and leaves the difference modulo 256 in Vx (unless Vx is VF
/// itself, which then holds the flag).
pub proof fn law_sub_borrow(s: EmuState, x: u8, y: u8, rnd: u8)
    requires
        s.wf(),
        x < 16,
        y < 16,
    ensures
        ({
            let a = s.v[x as int];
            let b = s.v[y as int];
            let op = (0x8005 + 256 * x + 16 * y) as u16;
            &&& step_spec(s, op, rnd) is Ok
            &&& step_spec(s, op, rnd)->Ok_0.v[0xF] == (if a < b { 0u8 } else { 1u8 })
            &&& x != 15 ==> step_spec(s, op, rnd)->Ok_0.v[x as int] == (a - b) % 256
        }),
{
    let op = (0x8005 + 256 * x + 16 * y) as u16;
    lemma_nibbles(x, y, 5);
    assert(decode(op) == Some(Instr::Sub { x, y }));
}

/// Clearing the screen (00E0) leaves a 64 by 32 framebuffer with every pixel off.
pub proof fn law_clear_screen(s: EmuState, rnd: u8)
    requires
        s.wf(),
    ensures
        step_spec(s, 0x00E0, rnd) is Ok,
        step_spec(s, 0x00E0, rnd)->Ok_0.screen.len() == W * H,
        forall|p: int| 0 <= p < W * H ==> !#[trigger] step_spec(s, 0x00E0, rnd)->Ok_0.screen[p],
{
}

/// Loading a program that starts with a jump to `nnn` (1nnn) into a fresh
/// machine and running one cycle puts PC at `nnn` and changes nothing else.
pub proof fn law_load_then_jump(data: Seq<u8>, nnn: u16, rnd: u8)
    requires
        fits(data.len()),
        data.len() >= 2,
        nnn < 4096,
        data[0] == 0x10 + nnn / 256,
        data[1] == nnn % 256,
    ensures
        tick_spec(loaded(initial_state(), data), rnd)
            == Ok::<EmuState, EmuError>(EmuState { pc: nnn, ..loaded(initial_state(), data) }),
{
    let s = loaded(initial_state(), data);
    assert(s.ram[START_ADDR as int] == data[0]);
    assert(s.ram[START_ADDR + 1] == data[1]);
}

/// A call (2nnn) followed by the return (00EE) at `nnn` brings PC back to the
/// instruction right after the call, with the stack as deep as before.
pub proof fn law_call_return(s: EmuState, nnn: u16, rnd1: u8, rnd2: u8)
    requires
        s.wf(),
        s.sp < 16,
        s.pc + 1 < RAM_SIZE,
        nnn + 1 < RAM_SIZE,
        s.ram[s.pc as int] == 0x20 + nnn / 256,
        s.ram[s.pc + 1] == nnn % 256,
        s.ram[nnn as int] == 0x00,
        s.ram[nnn + 1] == 0xEE,
    ensures
        tick_spec(s, rnd1) is Ok,
        tick_spec(tick_spec(s, rnd1)->Ok_0, rnd2) is Ok,
        tick_spec(tick_spec(s, rnd1)->Ok_0, rnd2)->Ok_0.pc == s.pc + 2,
        tick_spec(tick_spec(s, rnd1)->Ok_0, rnd2)->Ok_0.sp == s.sp,
{
}

/// Storing V0..Vx at I (Fx55), then loading them back (Fx65) into a machine
/// whose registers were all zeroed, gives V0..Vx their first values again.
pub proof fn law_store_load_regs(s: EmuState, x: u8, rnd: u8)
    requires
        s.wf(),
        x < 16,
        s.i + x + 1 <= RAM_SIZE,
    ensures
        ({
            let stored = step_spec(s, (0xF055 + 256 * x) as u16, rnd);
            let zeroed = EmuState { v: Seq::new(REG_NUMS as nat, |r: int| 0u8), ..stored->Ok_0 };
            let back = step_spec(zeroed, (0xF065 + 256 * x) as u16, rnd);
            &&& stored is Ok
            &&& back is Ok
            &&& forall|r: int| 0 <= r <= x ==> #[trigger] back->Ok_0.v[r] == s.v[r]
        }),
{
}

} // verus!
