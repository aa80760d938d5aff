use vstd::prelude::*;

verus! {

/// Bytes of addressable memory.
pub const RAM_SIZE: usize = 4096;

/// Width of the framebuffer in pixels.
pub const W: usize = 64;

/// Height of the framebuffer in pixels.
pub const H: usize = 32;

/// Number of pixels in the framebuffer.
pub const SCREEN_SIZE: usize = 2048;

/// Number of general-purpose registers V0..VF.
pub const REG_NUMS: usize = 16;

/// Depth of the call stack.
pub const STACK_SIZE: usize = 16;

/// Number of keys on the hexadecimal keypad.
pub const NUM_KEYS: usize = 16;

/// Address at which programs are loaded and execution starts.
pub const START_ADDR: u16 = 0x200;

/// Bytes of the built-in font table.
pub const FONTSET_SIZE: usize = 80;

/// A failure reported by the machine instead of corrupting its state.
#[derive(Clone, Copy, Debug, PartialEq, Eq, Structural)]
pub enum EmuError {
    /// The program image does not fit between the load address and the end of memory.
    ProgramTooLarge,
    /// The opcode matches no instruction; it carries the raw word.
    UnknownOpcode(u16),
    /// A key index outside 0..=15.
    KeyOutOfRange,
    /// A call with all sixteen stack entries in use.
    StackOverflow,
    /// A return with an empty stack.
    StackUnderflow,
    /// The program counter would leave the addressable range.
    PcOutOfRange,
    /// An access through the index register would pass the end of memory.
    MemoryOutOfRange,
}

/// One decoded instruction. `x` and `y` name registers, `n`, `nn` and `nnn`
/// are the 4-, 8- and 12-bit immediates of the opcode.
#[derive(Clone, Copy, Debug, PartialEq, Eq, Structural)]
pub enum Instr {
    Idle,
    ClearScreen,
    Return,
    Jump { nnn: u16 },
    Call { nnn: u16 },
    SkipEqImm { x: u8, nn: u8 },
    SkipNeImm { x: u8, nn: u8 },
    SkipEqReg { x: u8, y: u8 },
    LoadImm { x: u8, nn: u8 },
    AddImm { x: u8, nn: u8 },
    Move { x: u8, y: u8 },
    Or { x: u8, y: u8 },
    And { x: u8, y: u8 },
    Xor { x: u8, y: u8 },
    Add { x: u8, y: u8 },
    Sub { x: u8, y: u8 },
    ShiftRight { x: u8 },
    SubRev { x: u8, y: u8 },
    ShiftLeft { x: u8 },
    SkipNeReg { x: u8, y: u8 },
    SetIndex { nnn: u16 },
    JumpOffset { nnn: u16 },
    Random { x: u8, nn: u8 },
    Draw { x: u8, y: u8, n: u8 },
    SkipKey { x: u8 },
    SkipNoKey { x: u8 },
    GetDelay { x: u8 },
    WaitKey { x: u8 },
    SetDelay { x: u8 },
    SetSound { x: u8 },
    AddIndex { x: u8 },
    FontChar { x: u8 },
    Bcd { x: u8 },
    StoreRegs { x: u8 },
    LoadRegs { x: u8 },
}

impl Instr {
    /// Register operands name one of V0..VF, `n` fits a nibble and `nnn` twelve bits,
    /// as for every instruction that `decode` yields.
    pub open spec fn wf(self) -> bool {
        match self {
            Instr::Jump { nnn } | Instr::Call { nnn } | Instr::SetIndex { nnn }
                | Instr::JumpOffset { nnn } => nnn < 4096,
            Instr::SkipEqImm { x, nn } | Instr::SkipNeImm { x, nn } | Instr::LoadImm { x, nn }
                | Instr::AddImm { x, nn } | Instr::Random { x, nn } => x < 16,
            Instr::SkipEqReg { x, y } | Instr::Move { x, y } | Instr::Or { x, y }
                | Instr::And { x, y } | Instr::Xor { x, y } | Instr::Add { x, y }
                | Instr::Sub { x, y } | Instr::SubRev { x, y } | Instr::SkipNeReg { x, y } => x < 16 && y < 16,
            Instr::Draw { x, y, n } => x < 16 && y < 16 && n < 16,
            Instr::ShiftRight { x } | Instr::ShiftLeft { x } | Instr::SkipKey { x }
                | Instr::SkipNoKey { x } | Instr::GetDelay { x } | Instr::WaitKey { x }
                | Instr::SetDelay { x } | Instr::SetSound { x } | Instr::AddIndex { x }
                | Instr::FontChar { x } | Instr::Bcd { x } | Instr::StoreRegs { x }
                | Instr::LoadRegs { x } => x < 16,
            Instr::Idle | Instr::ClearScreen | Instr::Return => true,
        }
    }
}

/// The whole observable state of the machine.
pub ghost struct EmuState {
    pub pc: u16,
    pub ram: Seq<u8>,
    pub screen: Seq<bool>,
    pub v: Seq<u8>,
    pub i: u16,
    pub sp: u16,
    pub stack: Seq<u16>,
    pub keys: Seq<bool>,
    pub dt: u8,
    pub st: u8,
}

impl EmuState {
    /// Every table has its fixed size and the stack pointer stays within the stack.
    pub open spec fn wf(self) -> bool {
        &&& self.ram.len() == RAM_SIZE
        &&& self.screen.len() == SCREEN_SIZE
        &&& self.v.len() == REG_NUMS
        &&& self.stack.len() == STACK_SIZE
        &&& self.keys.len() == NUM_KEYS
        &&& self.sp <= STACK_SIZE
    }
}

/// The font table: glyphs for the hexadecimal digits 0..F, five bytes each.
pub open spec fn fontset() -> Seq<u8> {
    seq![
        0xF0u8, 0x90, 0x90, 0x90, 0xF0,
        0x20, 0x60, 0x20, 0x20, 0x70,
        0xF0, 0x10, 0xF0, 0x80, 0xF0,
        0xF0, 0x10, 0xF0, 0x10, 0xF0,
        0x90, 0x90, 0xF0, 0x10, 0x10,
        0xF0, 0x80, 0xF0, 0x10, 0xF0,
        0xF0, 0x80, 0xF0, 0x90, 0xF0,
        0xF0, 0x10, 0x20, 0x40, 0x40,
        0xF0, 0x90, 0xF0, 0x90, 0xF0,
        0xF0, 0x90, 0xF0, 0x10, 0xF0,
        0xF0, 0x90, 0xF0, 0x90, 0x90,
        0xE0, 0x90, 0xE0, 0x90, 0xE0,
        0xF0, 0x80, 0x80, 0x80, 0xF0,
        0xE0, 0x90, 0x90, 0x90, 0xE0,
        0xF0, 0x80, 0xF0, 0x80, 0xF0,
        0xF0, 0x80, 0xF0, 0x80, 0x80,
    ]
}

/// The state right after power-on: memory empty but for the font table,
/// everything else zero, execution at the load address.
pub open spec fn initial_state() -> EmuState {
    EmuState {
        pc: START_ADDR,
        ram: Seq::new(RAM_SIZE as nat, |a: int| if a < FONTSET_SIZE { fontset()[a] } else { 0u8 }),
        screen: Seq::new(SCREEN_SIZE as nat, |p: int| false),
        v: Seq::new(REG_NUMS as nat, |r: int| 0u8),
        i: 0,
        sp: 0,
        stack: Seq::new(STACK_SIZE as nat, |e: int| 0u16),
        keys: Seq::new(NUM_KEYS as nat, |k: int| false),
        dt: 0,
        st: 0,
    }
}

/// Memory after copying `data` to the load address.
pub open spec fn loaded(s: EmuState, data: Seq<u8>) -> EmuState {
    EmuState {
        ram: Seq::new(RAM_SIZE as nat, |a: int|
            if START_ADDR <= a < START_ADDR + data.len() { data[a - START_ADDR] } else { s.ram[a] }),
        ..s
    }
}

/// Whether a program image of this length fits in memory at the load address.
pub open spec fn fits(len: nat) -> bool {
    START_ADDR + len <= RAM_SIZE
}

/// The big-endian opcode at the program counter, if both of its bytes are in memory.
pub open spec fn fetch_spec(s: EmuState) -> Option<u16> {
    if s.pc + 1 < RAM_SIZE {
        Some((s.ram[s.pc as int] * 256 + s.ram[s.pc + 1]) as u16)
    } else {
        None
    }
}

/// The instruction that an opcode encodes, split into its four nibbles.
pub open spec fn decode(op: u16) -> Option<Instr> {
    let d1 = op / 4096;
    let d2 = ((op / 256) % 16) as u8;
    let d3 = ((op / 16) % 16) as u8;
    let d4 = (op % 16) as u8;
    let nnn = (op % 4096) as u16;
    let nn = (op % 256) as u8;
    if d1 == 0 {
        if op == 0x0000 { Some(Instr::Idle) }
        else if op == 0x00E0 { Some(Instr::ClearScreen) }
        else if op == 0x00EE { Some(Instr::Return) }
        else { None }
    } else if d1 == 1 { Some(Instr::Jump { nnn }) }
    else if d1 == 2 { Some(Instr::Call { nnn }) }
    else if d1 == 3 { Some(Instr::SkipEqImm { x: d2, nn }) }
    else if d1 == 4 { Some(Instr::SkipNeImm { x: d2, nn }) }
    else if d1 == 5 { if d4 == 0 { Some(Instr::SkipEqReg { x: d2, y: d3 }) } else { None } }
    else if d1 == 6 { Some(Instr::LoadImm { x: d2, nn }) }
    else if d1 == 7 { Some(Instr::AddImm { x: d2, nn }) }
    else if d1 == 8 {
        if d4 == 0 { Some(Instr::Move { x: d2, y: d3 }) }
        else if d4 == 1 { Some(Instr::Or { x: d2, y: d3 }) }
        else if d4 == 2 { Some(Instr::And { x: d2, y: d3 }) }
        else if d4 == 3 { Some(Instr::Xor { x: d2, y: d3 }) }
        else if d4 == 4 { Some(Instr::Add { x: d2, y: d3 }) }
        else if d4 == 5 { Some(Instr::Sub { x: d2, y: d3 }) }
        else if d4 == 6 { Some(Instr::ShiftRight { x: d2 }) }
        else if d4 == 7 { Some(Instr::SubRev { x: d2, y: d3 }) }
        else if d4 == 0xE { Some(Instr::ShiftLeft { x: d2 }) }
        else { None }
    }
    else if d1 == 9 { if d4 == 0 { Some(Instr::SkipNeReg { x: d2, y: d3 }) } else { None } }
    else if d1 == 0xA { Some(Instr::SetIndex { nnn }) }
    else if d1 == 0xB { Some(Instr::JumpOffset { nnn }) }
    else if d1 == 0xC { Some(Instr::Random { x: d2, nn }) }
    else if d1 == 0xD { Some(Instr::Draw { x: d2, y: d3, n: d4 }) }
    else if d1 == 0xE {
        if d3 == 9 && d4 == 0xE { Some(Instr::SkipKey { x: d2 }) }
        else if d3 == 0xA && d4 == 1 { Some(Instr::SkipNoKey { x: d2 }) }
        else { None }
    } else {
        let low = op % 256;
        if low == 0x07 { Some(Instr::GetDelay { x: d2 }) }
        else if low == 0x0A { Some(Instr::WaitKey { x: d2 }) }
        else if low == 0x15 { Some(Instr::SetDelay { x: d2 }) }
        else if low == 0x18 { Some(Instr::SetSound { x: d2 }) }
        else if low == 0x1E { Some(Instr::AddIndex { x: d2 }) }
        else if low == 0x29 { Some(Instr::FontChar { x: d2 }) }
        else if low == 0x33 { Some(Instr::Bcd { x: d2 }) }
        else if low == 0x55 { Some(Instr::StoreRegs { x: d2 }) }
        else if low == 0x65 { Some(Instr::LoadRegs { x: d2 }) }
        else { None }
    }
}

pub open spec fn set_reg(s: EmuState, x: int, val: u8) -> EmuState {
    EmuState { v: s.v.update(x, val), ..s }
}

/// Register `x` set to `val`, then VF set to `flag`.
pub open spec fn set_reg_flag(s: EmuState, x: int, val: u8, flag: u8) -> EmuState {
    EmuState { v: s.v.update(x, val).update(0xF, flag), ..s }
}

/// Step over the next instruction when `cond` holds.
pub open spec fn skip_if(s: EmuState, cond: bool) -> Result<EmuState, EmuError> {
    if !cond {
        Ok(s)
    } else if s.pc + 2 > u16::MAX {
        Err(EmuError::PcOutOfRange)
    } else {
        Ok(EmuState { pc: (s.pc + 2) as u16, ..s })
    }
}

/// Bit `col` of a sprite row, counted from the most significant bit.
pub open spec fn sprite_bit(row_bits: u8, col: int) -> bool {
    (row_bits >> (7 - col) as u8) & 1u8 == 1u8
}

/// The framebuffer index that sprite pixel (`row`, `col`) lands on when the
/// sprite's corner is at (`vx`, `vy`), wrapping around both axes.
pub open spec fn draw_index(vx: u8, vy: u8, row: int, col: int) -> int {
    (vx + col) % (W as int) + (W as int) * ((vy + row) % (H as int))
}

/// Whether pixel (`row`, `col`) of the `n`-row sprite at memory address `i` is set.
pub open spec fn sprite_pixel(ram: Seq<u8>, i: u16, n: u8, row: int, col: int) -> bool {
    0 <= row < n && 0 <= col < 8 && sprite_bit(ram[i + row], col)
}

/// Whether some set pixel of the sprite lands on framebuffer index `p`.
pub open spec fn sprite_covers(ram: Seq<u8>, i: u16, n: u8, vx: u8, vy: u8, p: int) -> bool {
    exists|row: int, col: int|
        #![trigger sprite_pixel(ram, i, n, row, col), draw_index(vx, vy, row, col)]
        sprite_pixel(ram, i, n, row, col) && draw_index(vx, vy, row, col) == p
}

/// Whether some set pixel of the sprite lands on a pixel that is already on.
pub open spec fn sprite_collides(screen: Seq<bool>, ram: Seq<u8>, i: u16, n: u8, vx: u8, vy: u8) -> bool {
    exists|row: int, col: int|
        #![trigger sprite_pixel(ram, i, n, row, col), draw_index(vx, vy, row, col)]
        sprite_pixel(ram, i, n, row, col) && screen[draw_index(vx, vy, row, col)]
}

/// The sprite XOR-ed into the framebuffer, VF telling whether a lit pixel went dark.
pub open spec fn draw_spec(s: EmuState, vx: u8, vy: u8, n: u8) -> Result<EmuState, EmuError> {
    if n > 0 && s.i + n > RAM_SIZE {
        Err(EmuError::MemoryOutOfRange)
    } else {
        let collided = sprite_collides(s.screen, s.ram, s.i, n, vx, vy);
        Ok(EmuState {
            screen: Seq::new(SCREEN_SIZE as nat, |p: int|
                s.screen[p] != sprite_covers(s.ram, s.i, n, vx, vy, p)),
            v: s.v.update(0xF, if collided { 1u8 } else { 0u8 }),
            ..s
        })
    }
}

/// The lowest pressed key at index `k` or above, or 16 when there is none.
pub open spec fn lowest_pressed(keys: Seq<bool>, k: int) -> int
    decreases NUM_KEYS - k,
{
    if k >= NUM_KEYS {
        NUM_KEYS as int
    } else if keys[k] {
        k
    } else {
        lowest_pressed(keys, k + 1)
    }
}

/// The decimal digits of `v`: hundreds, tens, ones.
pub open spec fn bcd_digits(v: u8) -> Seq<u8> {
    seq![(v / 100) as u8, ((v / 10) % 10) as u8, (v % 10) as u8]
}

/// Memory with `bytes` written from address `at`.
pub open spec fn write_at(ram: Seq<u8>, at: int, bytes: Seq<u8>) -> Seq<u8> {
    Seq::new(ram.len(), |a: int| if at <= a < at + bytes.len() { bytes[a - at] } else { ram[a] })
}

/// The effect of one instruction; `rnd` is the byte drawn for `Random`.
pub open spec fn exec_spec(s: EmuState, ins: Instr, rnd: u8) -> Result<EmuState, EmuError> {
    match ins {
        Instr::Idle => Ok(s),
        Instr::ClearScreen => Ok(EmuState { screen: Seq::new(SCREEN_SIZE as nat, |p: int| false), ..s }),
        Instr::Return => {
            if s.sp == 0 {
                Err(EmuError::StackUnderflow)
            } else {
                Ok(EmuState { pc: s.stack[s.sp - 1], sp: (s.sp - 1) as u16, ..s })
            }
        },
        Instr::Jump { nnn } => Ok(EmuState { pc: nnn, ..s }),
        Instr::Call { nnn } => {
            if s.sp >= STACK_SIZE {
                Err(EmuError::StackOverflow)
            } else {
                Ok(EmuState { pc: nnn, stack: s.stack.update(s.sp as int, s.pc), sp: (s.sp + 1) as u16, ..s })
            }
        },
        Instr::SkipEqImm { x, nn } => skip_if(s, s.v[x as int] == nn),
        Instr::SkipNeImm { x, nn } => skip_if(s, s.v[x as int] != nn),
        Instr::SkipEqReg { x, y } => skip_if(s, s.v[x as int] == s.v[y as int]),
        Instr::LoadImm { x, nn } => Ok(set_reg(s, x as int, nn)),
        Instr::AddImm { x, nn } => Ok(set_reg(s, x as int, ((s.v[x as int] + nn) % 256) as u8)),
        Instr::Move { x, y } => Ok(set_reg(s, x as int, s.v[y as int])),
        Instr::Or { x, y } => Ok(set_reg(s, x as int, s.v[x as int] | s.v[y as int])),
        Instr::And { x, y } => Ok(set_reg(s, x as int, s.v[x as int] & s.v[y as int])),
        Instr::Xor { x, y } => Ok(set_reg(s, x as int, s.v[x as int] ^ s.v[y as int])),
        Instr::Add { x, y } => {
            let sum = s.v[x as int] + s.v[y as int];
            Ok(set_reg_flag(s, x as int, (sum % 256) as u8, if sum > 255 { 1 } else { 0 }))
        },
        Instr::Sub { x, y } => {
            let a = s.v[x as int];
            let b = s.v[y as int];
            Ok(set_reg_flag(s, x as int, ((a - b) % 256) as u8, if a < b { 0 } else { 1 }))
        },
        Instr::ShiftRight { x } => {
            let a = s.v[x as int];
            Ok(set_reg_flag(s, x as int, a / 2, a % 2))
        },
        Instr::SubRev { x, y } => {
            let a = s.v[x as int];
            let b = s.v[y as int];
            Ok(set_reg_flag(s, x as int, ((b - a) % 256) as u8, if b < a { 0 } else { 1 }))
        },
        Instr::ShiftLeft { x } => {
            let a = s.v[x as int];
            Ok(set_reg_flag(s, x as int, ((a * 2) % 256) as u8, a / 128))
        },
        Instr::SkipNeReg { x, y } => skip_if(s, s.v[x as int] != s.v[y as int]),
        Instr::SetIndex { nnn } => Ok(EmuState { i: nnn, ..s }),
        Instr::JumpOffset { nnn } => Ok(EmuState { pc: (s.v[0] + nnn) as u16, ..s }),
        Instr::Random { x, nn } => Ok(set_reg(s, x as int, rnd & nn)),
        Instr::Draw { x, y, n } => draw_spec(s, s.v[x as int], s.v[y as int], n),
        Instr::SkipKey { x } => {
            if s.v[x as int] >= NUM_KEYS {
                Err(EmuError::KeyOutOfRange)
            } else {
                skip_if(s, s.keys[s.v[x as int] as int])
            }
        },
        Instr::SkipNoKey { x } => {
            if s.v[x as int] >= NUM_KEYS {
                Err(EmuError::KeyOutOfRange)
            } else {
                skip_if(s, !s.keys[s.v[x as int] as int])
            }
        },
        Instr::GetDelay { x } => Ok(set_reg(s, x as int, s.dt)),
        Instr::WaitKey { x } => {
            let k = lowest_pressed(s.keys, 0);
            if k < NUM_KEYS {
                Ok(set_reg(s, x as int, k as u8))
            } else if s.pc < 2 {
                Err(EmuError::PcOutOfRange)
            } else {
                Ok(EmuState { pc: (s.pc - 2) as u16, ..s })
            }
        },
        Instr::SetDelay { x } => Ok(EmuState { dt: s.v[x as int], ..s }),
        Instr::SetSound { x } => Ok(EmuState { st: s.v[x as int], ..s }),
        Instr::AddIndex { x } => Ok(EmuState { i: ((s.i + s.v[x as int]) % 65536) as u16, ..s }),
        Instr::FontChar { x } => Ok(EmuState { i: (s.v[x as int] * 5) as u16, ..s }),
        Instr::Bcd { x } => {
            if s.i + 3 > RAM_SIZE {
                Err(EmuError::MemoryOutOfRange)
            } else {
                Ok(EmuState { ram: write_at(s.ram, s.i as int, bcd_digits(s.v[x as int])), ..s })
            }
        },
        Instr::StoreRegs { x } => {
            if s.i + x + 1 > RAM_SIZE {
                Err(EmuError::MemoryOutOfRange)
            } else {
                Ok(EmuState { ram: write_at(s.ram, s.i as int, s.v.subrange(0, x + 1)), ..s })
            }
        },
        Instr::LoadRegs { x } => {
            if s.i + x + 1 > RAM_SIZE {
                Err(EmuError::MemoryOutOfRange)
            } else {
                Ok(EmuState {
                    v: Seq::new(REG_NUMS as nat, |r: int| if r <= x { s.ram[s.i + r] } else { s.v[r] }),
                    ..s
                })
            }
        },
    }
}

/// The effect of executing opcode `op`; `rnd` is the byte drawn for a random opcode.
pub open spec fn step_spec(s: EmuState, op: u16, rnd: u8) -> Result<EmuState, EmuError> {
    match decode(op) {
        Some(ins) => exec_spec(s, ins, rnd),
        None => Err(EmuError::UnknownOpcode(op)),
    }
}

/// One fetch-and-execute cycle: the opcode at PC is read and PC moves past it
/// before the instruction runs.
pub open spec fn tick_spec(s: EmuState, rnd: u8) -> Result<EmuState, EmuError> {
    match fetch_spec(s) {
        Some(op) => step_spec(EmuState { pc: (s.pc + 2) as u16, ..s }, op, rnd),
        None => Err(EmuError::PcOutOfRange),
    }
}

/// Both timers one step nearer zero, stopping there.
pub open spec fn tick_time_spec(s: EmuState) -> EmuState {
    EmuState {
        dt: if s.dt > 0 { (s.dt - 1) as u8 } else { 0 },
        st: if s.st > 0 { (s.st - 1) as u8 } else { 0 },
        ..s
    }
}

} // verus!
