use vstd::prelude::*;
use crate::model::{decode, Instr};

verus! {

/// Split an opcode into its nibbles and name the instruction it encodes;
/// `None` for a word that matches no instruction.
pub fn decode_op(op: u16) -> (r: Option<Instr>)
    ensures
        r == decode(op),
        r matches Some(ins) ==> ins.wf(),
{
    let d1 = op / 4096;
    let d2 = ((op / 256) % 16) as u8;
    let d3 = ((op / 16) % 16) as u8;
    let d4 = (op % 16) as u8;
    let nnn = op % 4096;
    let nn = (op % 256) as u8;
    match d1 {
        0 => {
            if op == 0x0000 {
                Some(Instr::Idle)
            } else if op == 0x00E0 {
                Some(Instr::ClearScreen)
            } else if op == 0x00EE {
                Some(Instr::Return)
            } else {
                None
            }
        },
        1 => Some(Instr::Jump { nnn }),
        2 => Some(Instr::Call { nnn }),
        3 => Some(Instr::SkipEqImm { x: d2, nn }),
        4 => Some(Instr::SkipNeImm { x: d2, nn }),
        5 => if d4 == 0 { Some(Instr::SkipEqReg { x: d2, y: d3 }) } else { None },
        6 => Some(Instr::LoadImm { x: d2, nn }),
        7 => Some(Instr::AddImm { x: d2, nn }),
        8 => match d4 {
            0 => Some(Instr::Move { x: d2, y: d3 }),
            1 => Some(Instr::Or { x: d2, y: d3 }),
            2 => Some(Instr::And { x: d2, y: d3 }),
            3 => Some(Instr::Xor { x: d2, y: d3 }),
            4 => Some(Instr::Add { x: d2, y: d3 }),
            5 => Some(Instr::Sub { x: d2, y: d3 }),
            6 => Some(Instr::ShiftRight { x: d2 }),
            7 => Some(Instr::SubRev { x: d2, y: d3 }),
            0xE => Some(Instr::ShiftLeft { x: d2 }),
            _ => None,
        },
        9 => if d4 == 0 { Some(Instr::SkipNeReg { x: d2, y: d3 }) } else { None },
        0xA => Some(Instr::SetIndex { nnn }),
        0xB => Some(Instr::JumpOffset { nnn }),
        0xC => Some(Instr::Random { x: d2, nn }),
        0xD => Some(Instr::Draw { x: d2, y: d3, n: d4 }),
        0xE => {
            if d3 == 9 && d4 == 0xE {
                Some(Instr::SkipKey { x: d2 })
            } else if d3 == 0xA && d4 == 1 {
                Some(Instr::SkipNoKey { x: d2 })
            } else {
                None
            }
        },
        _ => match nn {
            0x07 => Some(Instr::GetDelay { x: d2 }),
            0x0A => Some(Instr::WaitKey { x: d2 }),
            0x15 => Some(Instr::SetDelay { x: d2 }),
            0x18 => Some(Instr::SetSound { x: d2 }),
            0x1E => Some(Instr::AddIndex { x: d2 }),
            0x29 => Some(Instr::FontChar { x: d2 }),
            0x33 => Some(Instr::Bcd { x: d2 }),
            0x55 => Some(Instr::StoreRegs { x: d2 }),
            0x65 => Some(Instr::LoadRegs { x: d2 }),
            _ => None,
        },
    }
}

} // verus!
