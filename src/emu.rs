use vstd::prelude::*;
use crate::decode::decode_op;
use crate::model::{
    EmuError, EmuState, Instr, draw_index, draw_spec, exec_spec, fetch_spec, fits, fontset,
    initial_state, loaded, lowest_pressed, skip_if, sprite_collides, sprite_covers, sprite_pixel,
    step_spec, tick_spec, tick_time_spec, write_at, bcd_digits, FONTSET_SIZE, H, NUM_KEYS,
    RAM_SIZE, REG_NUMS, SCREEN_SIZE, STACK_SIZE, START_ADDR, W,
};

verus! {

/// Relies on rand::random::<u8>: any byte may come back, so nothing is promised of it.
#[verifier::external_body]
fn random_byte() -> (r: u8) {
    rand::random::<u8>()
}

/// Whether `r` and the machine after the call agree with `expected`: on `Ok`
/// the machine holds the new state, on `Err` it is left as it was.
pub open spec fn outcome(before: EmuState, expected: Result<EmuState, EmuError>, r: Result<(), EmuError>, after: EmuState) -> bool {
    match expected {
        Ok(s) => r is Ok && after == s,
        Err(e) => r == Err::<(), EmuError>(e) && after == before,
    }
}

/// Some set pixel of the sprite among rows before `r`, or in row `r` before
/// column `c`, lands on framebuffer index `p`.
pub open spec fn covers_before(ram: Seq<u8>, i: u16, n: u8, vx: u8, vy: u8, r: int, c: int, p: int) -> bool {
    exists|row: int, col: int|
        #![trigger sprite_pixel(ram, i, n, row, col), draw_index(vx, vy, row, col)]
        sprite_pixel(ram, i, n, row, col) && draw_index(vx, vy, row, col) == p
            && (row < r || (row == r && col < c))
}

/// Some set pixel of the sprite, among those before (`r`, `c`), lands on a lit pixel.
pub open spec fn collides_before(screen: Seq<bool>, ram: Seq<u8>, i: u16, n: u8, vx: u8, vy: u8, r: int, c: int) -> bool {
    exists|row: int, col: int|
        #![trigger sprite_pixel(ram, i, n, row, col), draw_index(vx, vy, row, col)]
        sprite_pixel(ram, i, n, row, col) && screen[draw_index(vx, vy, row, col)]
            && (row < r || (row == r && col < c))
}

/// Distinct pixels of a sprite (at most 16 rows, 8 columns) land on distinct
/// framebuffer indices, all inside the framebuffer.
proof fn lemma_draw_index(vx: u8, vy: u8, r1: int, c1: int, r2: int, c2: int)
    requires
        0 <= r1 < 16, 0 <= c1 < 8, 0 <= r2 < 16, 0 <= c2 < 8,
    ensures
        0 <= draw_index(vx, vy, r1, c1) < SCREEN_SIZE,
        draw_index(vx, vy, r1, c1) == draw_index(vx, vy, r2, c2) ==> r1 == r2 && c1 == c2,
{
    let x1 = (vx + c1) % 64;
    let x2 = (vx + c2) % 64;
    let y1 = (vy + r1) % 32;
    let y2 = (vy + r2) % 32;
    assert(0 <= x1 < 64 && 0 <= x2 < 64 && 0 <= y1 < 32 && 0 <= y2 < 32);
    if x1 + 64 * y1 == x2 + 64 * y2 {
        assert(x1 == x2 && y1 == y2) by (nonlinear_arith)
            requires x1 + 64 * y1 == x2 + 64 * y2, 0 <= x1 < 64, 0 <= x2 < 64;
        assert(c1 == c2) by (nonlinear_arith)
            requires (vx + c1) % 64 == (vx + c2) % 64, 0 <= c1 < 8, 0 <= c2 < 8, 0 <= vx;
        assert(r1 == r2) by (nonlinear_arith)
            requires (vy + r1) % 32 == (vy + r2) % 32, 0 <= r1 < 16, 0 <= r2 < 16, 0 <= vy;
    }
}


/// The machine: memory, registers, call stack, timers, framebuffer and keypad.
pub struct Emu {
    pc: u16,
    ram: Vec<u8>,
    screen: Vec<bool>,
    v_reg: Vec<u8>,
    i_reg: u16,
    sp: u16,
    stack: Vec<u16>,
    keys: Vec<bool>,
    dt: u8,
    st: u8,
}

impl View for Emu {
    type V = EmuState;

    closed spec fn view(&self) -> EmuState {
        EmuState {
            pc: self.pc,
            ram: self.ram@,
            screen: self.screen@,
            v: self.v_reg@,
            i: self.i_reg,
            sp: self.sp,
            stack: self.stack@,
            keys: self.keys@,
            dt: self.dt,
            st: self.st,
        }
    }
}

/// The font table as bytes.
fn font_table() -> (r: Vec<u8>)
    ensures
        r@ == fontset(),
{
    let r = vec![
        0xF0u8, 0x90, 0x90, 0x90, 0xF0,
        0x20, 0x60, 0x20, 0x20, 0x70,
        0xF0, 0x10, 0xF0, 0x80, 0xF0,
        0xF0, 0x10, 0xF0, 0x10, 0xF0,
        0x90, 0x90, 0xF0, 0x10, 0x10,
        0xF0, 0x80, 0xF0, 0x10, 0xF0,
        0xF0, 0x80, 0xF0, 0x90, 0xF0,
        0xF0, 0x10, 0x20, 0x40, 0x40,
        0xF0, 0x90, 0xF0, 0x90, 0xF0,
        0xF0, 0x90, 0xF0, 0x10, 0xF0,
        0xF0, 0x90, 0xF0, 0x90, 0x90,
        0xE0, 0x90, 0xE0, 0x90, 0xE0,
        0xF0, 0x80, 0x80, 0x80, 0xF0,
        0xE0, 0x90, 0x90, 0x90, 0xE0,
        0xF0, 0x80, 0xF0, 0x80, 0xF0,
        0xF0, 0x80, 0xF0, 0x80, 0x80,
    ];
    assert(r@ =~= fontset());
    r
}

impl Emu {
    /// A machine in its power-on state: font table at address 0, everything
    /// else zero, PC at the load address.
    pub fn new() -> (r: Self)
        ensures
            r@ == initial_state(),
            r@.wf(),
    {
        let font = font_table();
        let mut ram: Vec<u8> = Vec::new();
        let mut a: usize = 0;
        while a < RAM_SIZE
            invariant
                a <= RAM_SIZE,
                font@ == fontset(),
                ram@.len() == a,
                forall|b: int| 0 <= b < a ==> #[trigger] ram@[b] == initial_state().ram[b],
            decreases RAM_SIZE - a,
        {
            if a < FONTSET_SIZE {
                ram.push(font[a]);
            } else {
                ram.push(0);
            }
            a = a + 1;
        }
        let r = Emu {
            pc: START_ADDR,
            ram,
            screen: vec![false; SCREEN_SIZE],
            v_reg: vec![0u8; REG_NUMS],
            i_reg: 0,
            sp: 0,
            stack: vec![0u16; STACK_SIZE],
            keys: vec![false; NUM_KEYS],
            dt: 0,
            st: 0,
        };
        assert(r@.ram =~= initial_state().ram);
        assert(r@.screen =~= initial_state().screen);
        assert(r@.v =~= initial_state().v);
        assert(r@.stack =~= initial_state().stack);
        assert(r@.keys =~= initial_state().keys);
        r
    }

    /// Return the machine to its power-on state.
    pub fn reset(&mut self)
        ensures
            final(self)@ == initial_state(),
            final(self)@.wf(),
    {
        *self = Emu::new();
    }

    /// Advance PC past the next instruction when `cond` holds.
    fn skip(&mut self, cond: bool) -> (r: Result<(), EmuError>)
        ensures
            outcome(old(self)@, skip_if(old(self)@, cond), r, final(self)@),
    {
        if !cond {
            Ok(())
        } else if self.pc > u16::MAX - 2 {
            Err(EmuError::PcOutOfRange)
        } else {
            self.pc = self.pc + 2;
            Ok(())
        }
    }

    /// The opcode at PC, big-endian; `None` when its second byte would lie past
    /// the end of memory. The machine is not changed.
    fn fetch(&self) -> (r: Option<u16>)
        requires
            self@.wf(),
        ensures
            r == fetch_spec(self@),
    {
        if self.pc as usize + 1 < RAM_SIZE {
            let high = self.ram[self.pc as usize] as u16;
            let low = self.ram[self.pc as usize + 1] as u16;
            Some(high * 256 + low)
        } else {
            None
        }
    }

    /// The lowest index of a pressed key, or 16 when none is pressed.
    fn first_pressed(&self) -> (r: u8)
        requires
            self@.wf(),
        ensures
            r == lowest_pressed(self@.keys, 0),
    {
        let mut k: u8 = 0;
        while k < 16
            invariant
                k <= 16,
                self@.wf(),
                lowest_pressed(self@.keys, 0) == lowest_pressed(self@.keys, k as int),
            decreases 16 - k,
        {
            if self.keys[k as usize] {
                return k;
            }
            k = k + 1;
        }
        k
    }

    /// Push a return address.
    fn push(&mut self, val: u16) -> (r: Result<(), EmuError>)
        requires
            old(self)@.wf(),
        ensures
            old(self)@.sp >= STACK_SIZE ==> r == Err::<(), EmuError>(EmuError::StackOverflow) && final(self)@ == old(self)@,
            old(self)@.sp < STACK_SIZE ==> r is Ok && final(self)@ == (EmuState {
                stack: old(self)@.stack.update(old(self)@.sp as int, val),
                sp: (old(self)@.sp + 1) as u16,
                ..old(self)@
            }),
    {
        if self.sp as usize >= STACK_SIZE {
            return Err(EmuError::StackOverflow);
        }
        self.stack.set(self.sp as usize, val);
        self.sp = self.sp + 1;
        Ok(())
    }

    /// Pop the most recent return address.
    fn pop(&mut self) -> (r: Result<u16, EmuError>)
        requires
            old(self)@.wf(),
        ensures
            old(self)@.sp == 0 ==> r == Err::<u16, EmuError>(EmuError::StackUnderflow) && final(self)@ == old(self)@,
            old(self)@.sp > 0 ==> r == Ok::<u16, EmuError>(old(self)@.stack[old(self)@.sp - 1])
                && final(self)@ == (EmuState { sp: (old(self)@.sp - 1) as u16, ..old(self)@ }),
    {
        if self.sp == 0 {
            return Err(EmuError::StackUnderflow);
        }
        self.sp = self.sp - 1;
        Ok(self.stack[self.sp as usize])
    }

    /// Instructions that clear the screen or move the program counter.
    fn exec_flow(&mut self, ins: Instr) -> (r: Result<(), EmuError>)
        requires
            old(self)@.wf(),
            ins.wf(),
            ins is Idle || ins is ClearScreen || ins is Return || ins is Jump || ins is Call
                || ins is SkipEqImm || ins is SkipNeImm || ins is SkipEqReg || ins is SkipNeReg
                || ins is JumpOffset || ins is SkipKey || ins is SkipNoKey || ins is WaitKey,
        ensures
            outcome(old(self)@, exec_spec(old(self)@, ins, 0), r, final(self)@),
            final(self)@.wf(),
    {
        match ins {
            Instr::Idle => Ok(()),
            Instr::ClearScreen => {
                self.screen = vec![false; SCREEN_SIZE];
                assert(self@.screen =~= Seq::new(SCREEN_SIZE as nat, |p: int| false));
                Ok(())
            },
            Instr::Return => {
                let addr = self.pop()?;
                self.pc = addr;
                Ok(())
            },
            Instr::Jump { nnn } => {
                self.pc = nnn;
                Ok(())
            },
            Instr::Call { nnn } => {
                let ret = self.pc;
                self.push(ret)?;
                self.pc = nnn;
                Ok(())
            },
            Instr::SkipEqImm { x, nn } => {
                let c = self.v_reg[x as usize] == nn;
                self.skip(c)
            },
            Instr::SkipNeImm { x, nn } => {
                let c = self.v_reg[x as usize] != nn;
                self.skip(c)
            },
            Instr::SkipEqReg { x, y } => {
                let c = self.v_reg[x as usize] == self.v_reg[y as usize];
                self.skip(c)
            },
            Instr::SkipNeReg { x, y } => {
                let c = self.v_reg[x as usize] != self.v_reg[y as usize];
                self.skip(c)
            },
            Instr::JumpOffset { nnn } => {
                self.pc = self.v_reg[0] as u16 + nnn;
                Ok(())
            },
            Instr::SkipKey { x } => {
                let k = self.v_reg[x as usize];
                if k as usize >= NUM_KEYS {
                    return Err(EmuError::KeyOutOfRange);
                }
                let c = self.keys[k as usize];
                self.skip(c)
            },
            Instr::SkipNoKey { x } => {
                let k = self.v_reg[x as usize];
                if k as usize >= NUM_KEYS {
                    return Err(EmuError::KeyOutOfRange);
                }
                let c = !self.keys[k as usize];
                self.skip(c)
            },
            Instr::WaitKey { x } => {
                let k = self.first_pressed();
                if (k as usize) < NUM_KEYS {
                    self.v_reg.set(x as usize, k);
                    Ok(())
                } else if self.pc < 2 {
                    Err(EmuError::PcOutOfRange)
                } else {
                    self.pc = self.pc - 2;
                    Ok(())
                }
            },
            _ => Ok(()),  // excluded by the precondition
        }
    }

    /// Instructions that work on registers and timers alone.
    fn exec_regs(&mut self, ins: Instr, rnd: u8) -> (r: Result<(), EmuError>)
        requires
            old(self)@.wf(),
            ins.wf(),
            ins is LoadImm || ins is AddImm || ins is Move || ins is Or || ins is And || ins is Xor
                || ins is Add || ins is Sub || ins is ShiftRight || ins is SubRev || ins is ShiftLeft
                || ins is SetIndex || ins is Random || ins is GetDelay || ins is SetDelay
                || ins is SetSound || ins is AddIndex || ins is FontChar,
        ensures
            outcome(old(self)@, exec_spec(old(self)@, ins, rnd), r, final(self)@),
            final(self)@.wf(),
    {
        match ins {
            Instr::LoadImm { x, nn } => {
                self.v_reg.set(x as usize, nn);
                Ok(())
            },
            Instr::AddImm { x, nn } => {
                let sum = self.v_reg[x as usize] as u16 + nn as u16;
                self.v_reg.set(x as usize, (sum % 256) as u8);
                Ok(())
            },
            Instr::Move { x, y } => {
                let vy = self.v_reg[y as usize];
                self.v_reg.set(x as usize, vy);
                Ok(())
            },
            Instr::Or { x, y } => {
                let val = self.v_reg[x as usize] | self.v_reg[y as usize];
                self.v_reg.set(x as usize, val);
                Ok(())
            },
            Instr::And { x, y } => {
                let val = self.v_reg[x as usize] & self.v_reg[y as usize];
                self.v_reg.set(x as usize, val);
                Ok(())
            },
            Instr::Xor { x, y } => {
                let val = self.v_reg[x as usize] ^ self.v_reg[y as usize];
                self.v_reg.set(x as usize, val);
                Ok(())
            },
            Instr::Add { x, y } => {
                let sum = self.v_reg[x as usize] as u16 + self.v_reg[y as usize] as u16;
                self.v_reg.set(x as usize, (sum % 256) as u8);
                self.v_reg.set(15, if sum > 255 { 1 } else { 0 });
                Ok(())
            },
            Instr::Sub { x, y } => {
                let a = self.v_reg[x as usize];
                let b = self.v_reg[y as usize];
                let diff = ((a as u16 + 256 - b as u16) % 256) as u8;
                self.v_reg.set(x as usize, diff);
                self.v_reg.set(15, if a < b { 0 } else { 1 });
                Ok(())
            },
            Instr::ShiftRight { x } => {
                let a = self.v_reg[x as usize];
                self.v_reg.set(x as usize, a / 2);
                self.v_reg.set(15, a % 2);
                Ok(())
            },
            Instr::SubRev { x, y } => {
                let a = self.v_reg[x as usize];
                let b = self.v_reg[y as usize];
                let diff = ((b as u16 + 256 - a as u16) % 256) as u8;
                self.v_reg.set(x as usize, diff);
                self.v_reg.set(15, if b < a { 0 } else { 1 });
                Ok(())
            },
            Instr::ShiftLeft { x } => {
                let a = self.v_reg[x as usize];
                self.v_reg.set(x as usize, ((a as u16 * 2) % 256) as u8);
                self.v_reg.set(15, a / 128);
                Ok(())
            },
            Instr::SetIndex { nnn } => {
                self.i_reg = nnn;
                Ok(())
            },
            Instr::Random { x, nn } => {
                self.v_reg.set(x as usize, rnd & nn);
                Ok(())
            },
            Instr::GetDelay { x } => {
                let dt = self.dt;
                self.v_reg.set(x as usize, dt);
                Ok(())
            },
            Instr::SetDelay { x } => {
                self.dt = self.v_reg[x as usize];
                Ok(())
            },
            Instr::SetSound { x } => {
                self.st = self.v_reg[x as usize];
                Ok(())
            },
            Instr::AddIndex { x } => {
                self.i_reg = ((self.i_reg as u32 + self.v_reg[x as usize] as u32) % 65536) as u16;
                Ok(())
            },
            Instr::FontChar { x } => {
                self.i_reg = self.v_reg[x as usize] as u16 * 5;
                Ok(())
            },
            _ => Ok(()),  // excluded by the precondition
        }
    }

    /// Instructions that read or write memory through I, or draw.
    fn exec_mem(&mut self, ins: Instr) -> (r: Result<(), EmuError>)
        requires
            old(self)@.wf(),
            ins.wf(),
            ins is Draw || ins is Bcd || ins is StoreRegs || ins is LoadRegs,
        ensures
            outcome(old(self)@, exec_spec(old(self)@, ins, 0), r, final(self)@),
            final(self)@.wf(),
    {
        let ghost s = self@;
        match ins {
            Instr::Draw { x, y, n } => {
                if n > 0 && self.i_reg as usize + n as usize > RAM_SIZE {
                    return Err(EmuError::MemoryOutOfRange);
                }
                let vx = self.v_reg[x as usize];
                let vy = self.v_reg[y as usize];
                self.draw(vx, vy, n);
                Ok(())
            },
            Instr::Bcd { x } => {
                let i = self.i_reg as usize;
                if i + 3 > RAM_SIZE {
                    return Err(EmuError::MemoryOutOfRange);
                }
                let vx = self.v_reg[x as usize];
                self.ram.set(i, vx / 100);
                self.ram.set(i + 1, (vx / 10) % 10);
                self.ram.set(i + 2, vx % 10);
                assert(self@.ram =~= write_at(s.ram, i as int, bcd_digits(vx)));
                Ok(())
            },
            Instr::StoreRegs { x } => {
                let i = self.i_reg as usize;
                if i + x as usize + 1 > RAM_SIZE {
                    return Err(EmuError::MemoryOutOfRange);
                }
                let mut k: usize = 0;
                while k <= x as usize
                    invariant
                        s.wf(),
                        x < 16,
                        i == s.i,
                        i + x + 1 <= RAM_SIZE,
                        k <= x + 1,
                        self@ == (EmuState { ram: self@.ram, ..s }),
                        self@.ram =~= write_at(s.ram, i as int, s.v.subrange(0, k as int)),
                    decreases x + 1 - k,
                {
                    let val = self.v_reg[k];
                    self.ram.set(i + k, val);
                    k = k + 1;
                    assert(self@.ram =~= write_at(s.ram, i as int, s.v.subrange(0, k as int)));
                }
                Ok(())
            },
            Instr::LoadRegs { x } => {
                let i = self.i_reg as usize;
                if i + x as usize + 1 > RAM_SIZE {
                    return Err(EmuError::MemoryOutOfRange);
                }
                let mut k: usize = 0;
                while k <= x as usize
                    invariant
                        s.wf(),
                        x < 16,
                        i == s.i,
                        i + x + 1 <= RAM_SIZE,
                        k <= x + 1,
                        self@ == (EmuState { v: self@.v, ..s }),
                        self@.v =~= Seq::new(REG_NUMS as nat, |r: int| if r < k { s.ram[s.i + r] } else { s.v[r] }),
                    decreases x + 1 - k,
                {
                    let val = self.ram[i + k];
                    self.v_reg.set(k, val);
                    k = k + 1;
                    assert(self@.v =~= Seq::new(REG_NUMS as nat, |r: int| if r < k { s.ram[s.i + r] } else { s.v[r] }));
                }
                assert(self@.v =~= Seq::new(REG_NUMS as nat, |r: int| if r <= x { s.ram[s.i + r] } else { s.v[r] }));
                Ok(())
            },
            _ => Ok(()),  // excluded by the precondition
        }
    }

    /// Run one decoded instruction; `rnd` is the byte that a random
    /// instruction masks. On failure the machine is left as it was.
    pub fn execute_instr(&mut self, ins: Instr, rnd: u8) -> (r: Result<(), EmuError>)
        requires
            old(self)@.wf(),
            ins.wf(),
        ensures
            outcome(old(self)@, exec_spec(old(self)@, ins, rnd), r, final(self)@),
            final(self)@.wf(),
    {
        match ins {
            Instr::Idle | Instr::ClearScreen | Instr::Return | Instr::Jump { .. } | Instr::Call { .. }
            | Instr::SkipEqImm { .. } | Instr::SkipNeImm { .. } | Instr::SkipEqReg { .. }
            | Instr::SkipNeReg { .. } | Instr::JumpOffset { .. } | Instr::SkipKey { .. }
            | Instr::SkipNoKey { .. } | Instr::WaitKey { .. } => self.exec_flow(ins),
            Instr::Draw { .. } | Instr::Bcd { .. } | Instr::StoreRegs { .. }
            | Instr::LoadRegs { .. } => self.exec_mem(ins),
            _ => self.exec_regs(ins, rnd),
        }
    }

    /// Decode and run opcode `op`; `rnd` is the byte that a random opcode
    /// masks. On failure the machine is left as it was.
    pub fn execute_with(&mut self, op: u16, rnd: u8) -> (r: Result<(), EmuError>)
        requires
            old(self)@.wf(),
        ensures
            outcome(old(self)@, step_spec(old(self)@, op, rnd), r, final(self)@),
            final(self)@.wf(),
    {
        match decode_op(op) {
            Some(ins) => self.execute_instr(ins, rnd),
            None => Err(EmuError::UnknownOpcode(op)),
        }
    }

    /// Decode and run opcode `op`, drawing a random byte for a random opcode.
    /// On failure the machine is left as it was.
    pub fn execute(&mut self, op: u16) -> (r: Result<(), EmuError>)
        requires
            old(self)@.wf(),
        ensures
            exists|rnd: u8| outcome(old(self)@, step_spec(old(self)@, op, rnd), r, final(self)@),
            final(self)@.wf(),
    {
        let rnd = if op / 4096 == 0xC { random_byte() } else { 0 };
        self.execute_with(op, rnd)
    }

    /// Fetch the opcode at PC, move PC past it and run it. On failure the
    /// machine is left as it was.
    pub fn tick(&mut self) -> (r: Result<(), EmuError>)
        requires
            old(self)@.wf(),
        ensures
            exists|rnd: u8| outcome(old(self)@, tick_spec(old(self)@, rnd), r, final(self)@),
            final(self)@.wf(),
    {
        let ghost s = self@;
        let op = match self.fetch() {
            Some(op) => op,
            None => {
                assert(outcome(s, tick_spec(s, 0), Err(EmuError::PcOutOfRange), s));
                return Err(EmuError::PcOutOfRange);
            },
        };
        let saved = self.pc;
        self.pc = saved + 2;
        let ghost moved = self@;
        let r = self.execute(op);
        let ghost rnd = choose|rnd: u8| outcome(moved, step_spec(moved, op, rnd), r, self@);
        if r.is_err() {
            self.pc = saved;
            assert(self@ == s);
        }
        assert(outcome(s, tick_spec(s, rnd), r, self@));
        r
    }

    /// One timer period: each timer nonzero counts down by one. A sound
    /// timer that reaches zero here is where the tone stops.
    pub fn tick_time(&mut self)
        requires
            old(self)@.wf(),
        ensures
            final(self)@ == tick_time_spec(old(self)@),
            final(self)@.wf(),
    {
        if self.dt > 0 {
            self.dt = self.dt - 1;
        }
        if self.st > 0 {
            self.st = self.st - 1;
        }
    }

    /// The framebuffer, row-major: pixel (x, y) at index x + 64 * y.
    pub fn getscreen(&self) -> (r: &[bool])
        ensures
            r@ == self@.screen,
    {
        self.screen.as_slice()
    }

    /// The registers V0..VF.
    pub fn registers(&self) -> (r: &[u8])
        ensures
            r@ == self@.v,
    {
        self.v_reg.as_slice()
    }

    /// The whole memory, address 0 first.
    pub fn memory(&self) -> (r: &[u8])
        ensures
            r@ == self@.ram,
    {
        self.ram.as_slice()
    }

    /// The program counter.
    pub fn pc(&self) -> (r: u16)
        ensures
            r == self@.pc,
    {
        self.pc
    }

    /// The index register I.
    pub fn index(&self) -> (r: u16)
        ensures
            r == self@.i,
    {
        self.i_reg
    }

    /// How many return addresses the stack holds.
    pub fn stack_depth(&self) -> (r: u16)
        ensures
            r == self@.sp,
    {
        self.sp
    }

    /// The delay timer.
    pub fn delay_timer(&self) -> (r: u8)
        ensures
            r == self@.dt,
    {
        self.dt
    }

    /// The sound timer; a tone plays while it is nonzero.
    pub fn sound_timer(&self) -> (r: u8)
        ensures
            r == self@.st,
    {
        self.st
    }

    /// Mark key `idx` as pressed or released; keys run from 0 to 15.
    pub fn keypress(&mut self, idx: usize, pressed: bool) -> (r: Result<(), EmuError>)
        requires
            old(self)@.wf(),
        ensures
            idx < NUM_KEYS ==> r is Ok && final(self)@ == (EmuState {
                keys: old(self)@.keys.update(idx as int, pressed),
                ..old(self)@
            }),
            idx >= NUM_KEYS ==> r == Err::<(), EmuError>(EmuError::KeyOutOfRange) && final(self)@ == old(self)@,
            final(self)@.wf(),
    {
        if idx >= NUM_KEYS {
            return Err(EmuError::KeyOutOfRange);
        }
        self.keys.set(idx, pressed);
        Ok(())
    }

    /// Copy a program image into memory at the load address. An image longer
    /// than the memory above that address is refused and nothing is written.
    pub fn load(&mut self, data: &[u8]) -> (r: Result<(), EmuError>)
        requires
            old(self)@.wf(),
        ensures
            fits(data@.len()) ==> r is Ok && final(self)@ == loaded(old(self)@, data@),
            !fits(data@.len()) ==> r == Err::<(), EmuError>(EmuError::ProgramTooLarge) && final(self)@ == old(self)@,
            final(self)@.wf(),
    {
        let start = START_ADDR as usize;
        if data.len() > RAM_SIZE - start {
            return Err(EmuError::ProgramTooLarge);
        }
        let ghost s = self@;
        let mut k: usize = 0;
        while k < data.len()
            invariant
                s.wf(),
                start + data@.len() <= RAM_SIZE,
                start == START_ADDR,
                k <= data@.len(),
                self@ == (EmuState { ram: self@.ram, ..s }),
                self@.ram =~= write_at(s.ram, start as int, data@.subrange(0, k as int)),
            decreases data@.len() - k,
        {
            self.ram.set(start + k, data[k]);
            k = k + 1;
            assert(self@.ram =~= write_at(s.ram, start as int, data@.subrange(0, k as int)));
        }
        assert(self@.ram =~= loaded(s, data@).ram);
        Ok(())
    }

    /// XOR an `n`-row sprite read from memory at I into the framebuffer at
    /// (`vx`, `vy`), and set VF to whether a lit pixel went dark.
    fn draw(&mut self, vx: u8, vy: u8, n: u8)
        requires
            old(self)@.wf(),
            n < 16,
            n > 0 ==> old(self).i_reg + n <= RAM_SIZE,
        ensures
            draw_spec(old(self)@, vx, vy, n) == Ok::<EmuState, EmuError>(final(self)@),
    {
        let ghost s0 = self@;
        let mut flipped = false;
        let mut row: u8 = 0;
        while row < n
            invariant
                row <= n < 16,
                n > 0 ==> s0.i + n <= RAM_SIZE,
                s0 == old(self)@,
                s0.wf(),
                self@ == (EmuState { screen: self@.screen, ..s0 }),
                self@.screen.len() == SCREEN_SIZE,
                forall|p: int| 0 <= p < SCREEN_SIZE ==>
                    #[trigger] self@.screen[p] == (s0.screen[p] != covers_before(s0.ram, s0.i, n, vx, vy, row as int, 0, p)),
                flipped == collides_before(s0.screen, s0.ram, s0.i, n, vx, vy, row as int, 0),
            decreases n - row,
        {
            let bits = self.ram[self.i_reg as usize + row as usize];
            let mut col: u8 = 0;
            while col < 8
                invariant
                    row < n < 16,
                    col <= 8,
                    s0.i + n <= RAM_SIZE,
                    s0.wf(),
                    bits == s0.ram[s0.i + row],
                    self@ == (EmuState { screen: self@.screen, ..s0 }),
                    self@.screen.len() == SCREEN_SIZE,
                    forall|p: int| 0 <= p < SCREEN_SIZE ==>
                        #[trigger] self@.screen[p] == (s0.screen[p] != covers_before(s0.ram, s0.i, n, vx, vy, row as int, col as int, p)),
                    flipped == collides_before(s0.screen, s0.ram, s0.i, n, vx, vy, row as int, col as int),
                decreases 8 - col,
            {
                let ghost before = self@.screen;
                let ghost idx0 = draw_index(vx, vy, row as int, col as int);
                if (bits >> (7 - col)) & 1 == 1 {
                    let x = (vx as usize + col as usize) % W;
                    let y = (vy as usize + row as usize) % H;
                    let idx = x + W * y;
                    assert(idx == idx0);
                    proof {
                        lemma_draw_index(vx, vy, row as int, col as int, row as int, col as int);
                        assert(sprite_pixel(s0.ram, s0.i, n, row as int, col as int));
                        if covers_before(s0.ram, s0.i, n, vx, vy, row as int, col as int, idx0) {
                            let (r2, c2) = choose|r2: int, c2: int|
                                sprite_pixel(s0.ram, s0.i, n, r2, c2) && draw_index(vx, vy, r2, c2) == idx0
                                    && (r2 < row || (r2 == row && c2 < col));
                            lemma_draw_index(vx, vy, row as int, col as int, r2, c2);
                        }
                    }
                    let lit = self.screen[idx];
                    flipped = flipped || lit;
                    self.screen.set(idx, !lit);
                    proof {
                        assert forall|p: int| 0 <= p < SCREEN_SIZE implies
                            #[trigger] self@.screen[p] == (s0.screen[p] != covers_before(s0.ram, s0.i, n, vx, vy, row as int, col + 1, p)) by {
                            if covers_before(s0.ram, s0.i, n, vx, vy, row as int, col + 1, p) && p != idx0 {
                                let (r2, c2) = choose|r2: int, c2: int|
                                    sprite_pixel(s0.ram, s0.i, n, r2, c2) && draw_index(vx, vy, r2, c2) == p
                                        && (r2 < row || (r2 == row && c2 < col + 1));
                                assert(covers_before(s0.ram, s0.i, n, vx, vy, row as int, col as int, p));
                            }
                        }
                        assert(collides_before(s0.screen, s0.ram, s0.i, n, vx, vy, row as int, col + 1)
                            == (flipped)) by {
                            if collides_before(s0.screen, s0.ram, s0.i, n, vx, vy, row as int, col + 1) && !lit {
                                let (r2, c2) = choose|r2: int, c2: int|
                                    sprite_pixel(s0.ram, s0.i, n, r2, c2) && s0.screen[draw_index(vx, vy, r2, c2)]
                                        && (r2 < row || (r2 == row && c2 < col + 1));
                                assert(collides_before(s0.screen, s0.ram, s0.i, n, vx, vy, row as int, col as int));
                            }
                        }
                    }
                } else {
                    proof {
                        assert(!sprite_pixel(s0.ram, s0.i, n, row as int, col as int));
                        assert forall|p: int| 0 <= p < SCREEN_SIZE implies
                            #[trigger] self@.screen[p] == (s0.screen[p] != covers_before(s0.ram, s0.i, n, vx, vy, row as int, col + 1, p)) by {
                            if covers_before(s0.ram, s0.i, n, vx, vy, row as int, col + 1, p) {
                                let (r2, c2) = choose|r2: int, c2: int|
                                    sprite_pixel(s0.ram, s0.i, n, r2, c2) && draw_index(vx, vy, r2, c2) == p
                                        && (r2 < row || (r2 == row && c2 < col + 1));
                                assert(covers_before(s0.ram, s0.i, n, vx, vy, row as int, col as int, p));
                            }
                        }
                        if collides_before(s0.screen, s0.ram, s0.i, n, vx, vy, row as int, col + 1) {
                            let (r2, c2) = choose|r2: int, c2: int|
                                sprite_pixel(s0.ram, s0.i, n, r2, c2) && s0.screen[draw_index(vx, vy, r2, c2)]
                                    && (r2 < row || (r2 == row && c2 < col + 1));
                            assert(collides_before(s0.screen, s0.ram, s0.i, n, vx, vy, row as int, col as int));
                        }
                    }
                }
                col = col + 1;
            }
            proof {
                assert forall|p: int| 0 <= p < SCREEN_SIZE implies
                    covers_before(s0.ram, s0.i, n, vx, vy, row as int, 8, p)
                        == covers_before(s0.ram, s0.i, n, vx, vy, row + 1, 0, p) by {
                    if covers_before(s0.ram, s0.i, n, vx, vy, row + 1, 0, p) {
                        let (r2, c2) = choose|r2: int, c2: int|
                            sprite_pixel(s0.ram, s0.i, n, r2, c2) && draw_index(vx, vy, r2, c2) == p
                                && (r2 < row + 1 || (r2 == row + 1 && c2 < 0));
                        assert(covers_before(s0.ram, s0.i, n, vx, vy, row as int, 8, p));
                    }
                }
                if collides_before(s0.screen, s0.ram, s0.i, n, vx, vy, row + 1, 0) {
                    let (r2, c2) = choose|r2: int, c2: int|
                        sprite_pixel(s0.ram, s0.i, n, r2, c2) && s0.screen[draw_index(vx, vy, r2, c2)]
                            && (r2 < row + 1 || (r2 == row + 1 && c2 < 0));
                    assert(collides_before(s0.screen, s0.ram, s0.i, n, vx, vy, row as int, 8));
                }
            }
            row = row + 1;
        }
        self.v_reg.set(15, if flipped { 1 } else { 0 });
        proof {
            assert forall|p: int| 0 <= p < SCREEN_SIZE implies
                covers_before(s0.ram, s0.i, n, vx, vy, n as int, 0, p)
                    == sprite_covers(s0.ram, s0.i, n, vx, vy, p) by {
                if sprite_covers(s0.ram, s0.i, n, vx, vy, p) {
                    let (r2, c2) = choose|r2: int, c2: int|
                        sprite_pixel(s0.ram, s0.i, n, r2, c2) && draw_index(vx, vy, r2, c2) == p;
                    assert(covers_before(s0.ram, s0.i, n, vx, vy, n as int, 0, p));
                }
            }
            if sprite_collides(s0.screen, s0.ram, s0.i, n, vx, vy) {
                let (r2, c2) = choose|r2: int, c2: int|
                    sprite_pixel(s0.ram, s0.i, n, r2, c2) && s0.screen[draw_index(vx, vy, r2, c2)];
                assert(collides_before(s0.screen, s0.ram, s0.i, n, vx, vy, n as int, 0));
            }
            assert(self@.screen =~= Seq::new(SCREEN_SIZE as nat, |p: int|
                s0.screen[p] != sprite_covers(s0.ram, s0.i, n, vx, vy, p)));
        }
    }
}

} // verus!
