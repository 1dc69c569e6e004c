use vstd::prelude::*;

verus! {

/// One decoded CHIP-8 operation with its operand fields.
///
/// Register operands (`x`, `y`) are below 16, addresses below 4096 and the
/// sprite height `n` below 16 for every value that `decode` produces.
#[derive(Clone, Copy, Debug, PartialEq, Eq, Structural)]
pub enum Instruction {
    ClearScreen,
    Return,
    Jump { addr: u16 },
    Call { addr: u16 },
    SkipEqImm { x: usize, kk: u8 },
    SkipNeImm { x: usize, kk: u8 },
    SkipEqReg { x: usize, y: usize },
    LoadImm { x: usize, kk: u8 },
    AddImm { x: usize, kk: u8 },
    LoadReg { x: usize, y: usize },
    Or { x: usize, y: usize },
    And { x: usize, y: usize },
    Xor { x: usize, y: usize },
    AddReg { x: usize, y: usize },
    Sub { x: usize, y: usize },
    ShiftRight { x: usize },
    SubReverse { x: usize, y: usize },
    ShiftLeft { x: usize },
    SkipNeReg { x: usize, y: usize },
    LoadIndex { addr: u16 },
    JumpOffset { addr: u16 },
    Random { x: usize, kk: u8 },
    Draw { x: usize, y: usize, n: usize },
    SkipKey { x: usize },
    SkipNoKey { x: usize },
    LoadDelay { x: usize },
    WaitKey { x: usize },
    SetDelay { x: usize },
    SetSound { x: usize },
    AddIndex { x: usize },
    LoadFont { x: usize },
    Bcd { x: usize },
    StoreRegs { x: usize },
    LoadRegs { x: usize },
    Nop,
}

impl Instruction {
    /// Operands are within their fields' widths.
    pub open spec fn valid(self) -> bool {
        match self {
            Instruction::Jump { addr } | Instruction::Call { addr } | Instruction::LoadIndex { addr }
            | Instruction::JumpOffset { addr } => addr < 4096,
            Instruction::SkipEqImm { x, kk } | Instruction::SkipNeImm { x, kk }
            | Instruction::LoadImm { x, kk } | Instruction::AddImm { x, kk }
            | Instruction::Random { x, kk } => x < 16,
            Instruction::SkipEqReg { x, y } | Instruction::LoadReg { x, y } | Instruction::Or { x, y }
            | Instruction::And { x, y } | Instruction::Xor { x, y } | Instruction::AddReg { x, y }
            | Instruction::Sub { x, y } | Instruction::SubReverse { x, y }
            | Instruction::SkipNeReg { x, y } => x < 16 && y < 16,
            Instruction::Draw { x, y, n } => x < 16 && y < 16 && n < 16,
            Instruction::ShiftRight { x } | Instruction::ShiftLeft { x } | Instruction::SkipKey { x }
            | Instruction::SkipNoKey { x } | Instruction::LoadDelay { x } | Instruction::WaitKey { x }
            | Instruction::SetDelay { x } | Instruction::SetSound { x } | Instruction::AddIndex { x }
            | Instruction::LoadFont { x } | Instruction::Bcd { x } | Instruction::StoreRegs { x }
            | Instruction::LoadRegs { x } => x < 16,
            _ => true,
        }
    }
}

/// The `k`-th nibble of `w`, counted from the most significant (k in 0..4).
pub open spec fn nibble(w: u16, k: int) -> int {
    if k == 0 {
        w as int / 4096
    } else if k == 1 {
        (w as int / 256) % 16
    } else if k == 2 {
        (w as int / 16) % 16
    } else {
        w as int % 16
    }
}

/// The operation that the instruction word `w` encodes; unknown words are `Nop`.
pub open spec fn decoded(w: u16) -> Instruction {
    let (a, b, c, d) = (nibble(w, 0), nibble(w, 1), nibble(w, 2), nibble(w, 3));
    let x = b as usize;
    let y = c as usize;
    let addr = (w as int % 4096) as u16;
    let kk = (w as int % 256) as u8;
    if a == 0 && b == 0 && c == 0xe && d == 0 {
        Instruction::ClearScreen
    } else if a == 0 && b == 0 && c == 0xe && d == 0xe {
        Instruction::Return
    } else if a == 1 {
        Instruction::Jump { addr }
    } else if a == 2 {
        Instruction::Call { addr }
    } else if a == 3 {
        Instruction::SkipEqImm { x, kk }
    } else if a == 4 {
        Instruction::SkipNeImm { x, kk }
    } else if a == 5 && d == 0 {
        Instruction::SkipEqReg { x, y }
    } else if a == 6 {
        Instruction::LoadImm { x, kk }
    } else if a == 7 {
        Instruction::AddImm { x, kk }
    } else if a == 8 && d == 0 {
        Instruction::LoadReg { x, y }
    } else if a == 8 && d == 1 {
        Instruction::Or { x, y }
    } else if a == 8 && d == 2 {
        Instruction::And { x, y }
    } else if a == 8 && d == 3 {
        Instruction::Xor { x, y }
    } else if a == 8 && d == 4 {
        Instruction::AddReg { x, y }
    } else if a == 8 && d == 5 {
        Instruction::Sub { x, y }
    } else if a == 8 && d == 6 {
        Instruction::ShiftRight { x }
    } else if a == 8 && d == 7 {
        Instruction::SubReverse { x, y }
    } else if a == 8 && d == 0xe {
        Instruction::ShiftLeft { x }
    } else if a == 9 && d == 0 {
        Instruction::SkipNeReg { x, y }
    } else if a == 0xa {
        Instruction::LoadIndex { addr }
    } else if a == 0xb {
        Instruction::JumpOffset { addr }
    } else if a == 0xc {
        Instruction::Random { x, kk }
    } else if a == 0xd {
        Instruction::Draw { x, y, n: d as usize }
    } else if a == 0xe && c == 9 && d == 0xe {
        Instruction::SkipKey { x }
    } else if a == 0xe && c == 0xa && d == 1 {
        Instruction::SkipNoKey { x }
    } else if a == 0xf && c == 0 && d == 7 {
        Instruction::LoadDelay { x }
    } else if a == 0xf && c == 0 && d == 0xa {
        Instruction::WaitKey { x }
    } else if a == 0xf && c == 1 && d == 5 {
        Instruction::SetDelay { x }
    } else if a == 0xf && c == 1 && d == 8 {
        Instruction::SetSound { x }
    } else if a == 0xf && c == 1 && d == 0xe {
        Instruction::AddIndex { x }
    } else if a == 0xf && c == 2 && d == 9 {
        Instruction::LoadFont { x }
    } else if a == 0xf && c == 3 && d == 3 {
        Instruction::Bcd { x }
    } else if a == 0xf && c == 5 && d == 5 {
        Instruction::StoreRegs { x }
    } else if a == 0xf && c == 6 && d == 5 {
        Instruction::LoadRegs { x }
    } else {
        Instruction::Nop
    }
}

/// Splits an instruction word into its operation and operands.
pub fn decode(w: u16) -> (r: Instruction)
    ensures
        r == decoded(w),
        r.valid(),
{
    let a: u16 = w / 4096;
    let b: u16 = (w / 256) % 16;
    let c: u16 = (w / 16) % 16;
    let d: u16 = w % 16;
    let x: usize = b as usize;
    let y: usize = c as usize;
    let addr: u16 = w % 4096;
    let kk: u8 = (w % 256) as u8;
    if a == 0 && b == 0 && c == 0xe && d == 0 {
        Instruction::ClearScreen
    } else if a == 0 && b == 0 && c == 0xe && d == 0xe {
        Instruction::Return
    } else if a == 1 {
        Instruction::Jump { addr }
    } else if a == 2 {
        Instruction::Call { addr }
    } else if a == 3 {
        Instruction::SkipEqImm { x, kk }
    } else if a == 4 {
        Instruction::SkipNeImm { x, kk }
    } else if a == 5 && d == 0 {
        Instruction::SkipEqReg { x, y }
    } else if a == 6 {
        Instruction::LoadImm { x, kk }
    } else if a == 7 {
        Instruction::AddImm { x, kk }
    } else if a == 8 && d == 0 {
        Instruction::LoadReg { x, y }
    } else if a == 8 && d == 1 {
        Instruction::Or { x, y }
    } else if a == 8 && d == 2 {
        Instruction::And { x, y }
    } else if a == 8 && d == 3 {
        Instruction::Xor { x, y }
    } else if a == 8 && d == 4 {
        Instruction::AddReg { x, y }
    } else if a == 8 && d == 5 {
        Instruction::Sub { x, y }
    } else if a == 8 && d == 6 {
        Instruction::ShiftRight { x }
    } else if a == 8 && d == 7 {
        Instruction::SubReverse { x, y }
    } else if a == 8 && d == 0xe {
        Instruction::ShiftLeft { x }
    } else if a == 9 && d == 0 {
        Instruction::SkipNeReg { x, y }
    } else if a == 0xa {
        Instruction::LoadIndex { addr }
    } else if a == 0xb {
        Instruction::JumpOffset { addr }
    } else if a == 0xc {
        Instruction::Random { x, kk }
    } else if a == 0xd {
        Instruction::Draw { x, y, n: d as usize }
    } else if a == 0xe && c == 9 && d == 0xe {
        Instruction::SkipKey { x }
    } else if a == 0xe && c == 0xa && d == 1 {
        Instruction::SkipNoKey { x }
    } else if a == 0xf && c == 0 && d == 7 {
        Instruction::LoadDelay { x }
    } else if a == 0xf && c == 0 && d == 0xa {
        Instruction::WaitKey { x }
    } else if a == 0xf && c == 1 && d == 5 {
        Instruction::SetDelay { x }
    } else if a == 0xf && c == 1 && d == 8 {
        Instruction::SetSound { x }
    } else if a == 0xf && c == 1 && d == 0xe {
        Instruction::AddIndex { x }
    } else if a == 0xf && c == 2 && d == 9 {
        Instruction::LoadFont { x }
    } else if a == 0xf && c == 3 && d == 3 {
        Instruction::Bcd { x }
    } else if a == 0xf && c == 5 && d == 5 {
        Instruction::StoreRegs { x }
    } else if a == 0xf && c == 6 && d == 5 {
        Instruction::LoadRegs { x }
    } else {
        Instruction::Nop
    }
}

} // verus!
