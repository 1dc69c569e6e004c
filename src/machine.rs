use vstd::prelude::*;

use crate::instruction::{decode, decoded, Instruction};

verus! {

/// Bytes of addressable memory.
pub const MEMORY_SIZE: usize = 4096;
/// Framebuffer columns.
pub const SCREEN_WIDTH: usize = 64;
/// Framebuffer rows.
pub const SCREEN_HEIGHT: usize = 32;
/// Framebuffer cells, stored row by row.
pub const SCREEN_CELLS: usize = 2048;
/// Where a program is loaded, and where execution starts.
pub const PROGRAM_START: u16 = 0x200;
/// Return addresses the call stack can hold.
pub const STACK_DEPTH: usize = 16;

/// A condition raised by a call or a return that the stack cannot serve.
#[derive(Clone, Copy, Debug, PartialEq, Eq, Structural)]
pub enum Fault {
    StackOverflow,
    StackUnderflow,
}

/// What the host has to do in one tick besides executing an instruction.
#[derive(Clone, Copy, Debug, PartialEq, Eq, Structural)]
pub struct TickOutput {
    /// The framebuffer changed since the last render.
    pub render: bool,
    /// The tone should sound.
    pub tone: bool,
}

/// The whole state of the machine.
pub struct Chip8 {
    pc: u16,
    op: u16,
    ir: u16,
    sp: usize,
    delay_timer: u8,
    sound_timer: u8,
    registers: Vec<u8>,
    keypad: [bool; 16],
    ram: Vec<u8>,
    vram: Vec<u8>,
    stack: Vec<u16>,
    draw_flag: bool,
}

/// The machine state as mathematical values.
pub struct MachineView {
    pub pc: int,
    pub op: u16,
    pub ir: int,
    pub sp: int,
    pub delay: u8,
    pub sound: u8,
    pub regs: Seq<u8>,
    pub keypad: Seq<bool>,
    pub ram: Seq<u8>,
    pub vram: Seq<u8>,
    pub stack: Seq<u16>,
    pub dirty: bool,
}

impl MachineView {
    /// The invariant every reachable state satisfies.
    pub open spec fn valid(self) -> bool {
        &&& 0 <= self.pc < 4096
        &&& 0 <= self.ir < 4096
        &&& 0 <= self.sp <= 16
        &&& self.regs.len() == 16
        &&& self.keypad.len() == 16
        &&& self.ram.len() == 4096
        &&& self.vram.len() == 2048
        &&& self.stack.len() == 16
        &&& forall|i: int| 0 <= i < 16 ==> #[trigger] self.stack[i] < 4096
        &&& forall|p: int| 0 <= p < 2048 ==> #[trigger] self.vram[p] <= 1
    }
}

impl View for Chip8 {
    type V = MachineView;

    closed spec fn view(&self) -> MachineView {
        MachineView {
            pc: self.pc as int,
            op: self.op,
            ir: self.ir as int,
            sp: self.sp as int,
            delay: self.delay_timer,
            sound: self.sound_timer,
            regs: self.registers@,
            keypad: self.keypad@,
            ram: self.ram@,
            vram: self.vram@,
            stack: self.stack@,
            dirty: self.draw_flag,
        }
    }
}

/// An address moved forward by `k`, wrapping at the end of memory.
pub open spec fn addr_add(a: int, k: int) -> int {
    (a + k) % 4096
}

/// The state with register `x` set to `val`.
pub open spec fn with_reg(v: MachineView, x: int, val: u8) -> MachineView {
    MachineView { regs: v.regs.update(x, val), ..v }
}

/// The state with the program counter moved past one more instruction when `cond` holds.
pub open spec fn skip_if(v: MachineView, cond: bool) -> MachineView {
    if cond {
        MachineView { pc: addr_add(v.pc, 2), ..v }
    } else {
        v
    }
}

/// The next instruction word read and the program counter moved past it.
pub open spec fn fetched(v: MachineView) -> MachineView {
    MachineView {
        op: (v.ram[v.pc] as int * 256 + v.ram[addr_add(v.pc, 1)] as int) as u16,
        pc: addr_add(v.pc, 2),
        ..v
    }
}

/// Every framebuffer cell unset, and a render pending.
pub open spec fn cleared(v: MachineView) -> MachineView {
    MachineView { vram: Seq::new(2048, |p: int| 0u8), dirty: true, ..v }
}

/// Return: pop the top return address into the program counter.
pub open spec fn returned(v: MachineView) -> Result<MachineView, Fault> {
    if v.sp == 0 {
        Err(Fault::StackUnderflow)
    } else {
        Ok(MachineView { sp: v.sp - 1, pc: v.stack[v.sp - 1] as int, ..v })
    }
}

/// Call: push the program counter and jump to `addr`.
pub open spec fn called(v: MachineView, addr: int) -> Result<MachineView, Fault> {
    if v.sp == 16 {
        Err(Fault::StackOverflow)
    } else {
        Ok(MachineView { stack: v.stack.update(v.sp, v.pc as u16), sp: v.sp + 1, pc: addr, ..v })
    }
}

/// Sum of two registers into `x`; the flag is the carry out of eight bits.
pub open spec fn added(v: MachineView, x: int, y: int) -> MachineView {
    let sum = v.regs[x] as int + v.regs[y] as int;
    MachineView {
        regs: v.regs.update(x, (sum % 256) as u8).update(15, if sum > 255 { 1u8 } else { 0u8 }),
        ..v
    }
}

/// `a - b` wrapped to eight bits.
pub open spec fn wrapping_diff(a: u8, b: u8) -> u8 {
    ((a as int - b as int + 256) % 256) as u8
}

/// `x := x - y`; the flag is 1 exactly when `x` was greater than `y`.
pub open spec fn subtracted(v: MachineView, x: int, y: int) -> MachineView {
    MachineView {
        regs: v.regs.update(15, if v.regs[x] > v.regs[y] { 1u8 } else { 0u8 }).update(
            x,
            wrapping_diff(v.regs[x], v.regs[y]),
        ),
        ..v
    }
}

/// `x := y - x`; the flag is 1 exactly when `y` was greater than `x`.
pub open spec fn subtracted_reverse(v: MachineView, x: int, y: int) -> MachineView {
    MachineView {
        regs: v.regs.update(15, if v.regs[y] > v.regs[x] { 1u8 } else { 0u8 }).update(
            x,
            wrapping_diff(v.regs[y], v.regs[x]),
        ),
        ..v
    }
}

/// `x` halved; the flag holds the bit shifted out.
pub open spec fn shifted_right(v: MachineView, x: int) -> MachineView {
    MachineView { regs: v.regs.update(15, v.regs[x] % 2).update(x, v.regs[x] / 2), ..v }
}

/// `x` doubled modulo 256; the flag holds the bit shifted out.
pub open spec fn shifted_left(v: MachineView, x: int) -> MachineView {
    MachineView {
        regs: v.regs.update(15, v.regs[x] / 128).update(x, ((v.regs[x] as int * 2) % 256) as u8),
        ..v
    }
}

/// The key a register names: its low four bits.
pub open spec fn key_of(v: MachineView, x: int) -> int {
    v.regs[x] as int % 16
}

/// Some key of the snapshot is pressed.
pub open spec fn any_pressed(keys: Seq<bool>) -> bool {
    exists|k: int| 0 <= k < 16 && #[trigger] keys[k]
}

/// `k` is the lowest pressed key.
pub open spec fn first_pressed(keys: Seq<bool>, k: int) -> bool {
    &&& 0 <= k < 16
    &&& keys[k]
    &&& forall|j: int| 0 <= j < k ==> !#[trigger] keys[j]
}

/// Wait for a key: with a key down, `x` takes the lowest one; otherwise the
/// program counter steps back so that the same instruction runs again.
pub open spec fn waited(v: MachineView, x: int, w: MachineView) -> bool {
    if any_pressed(v.keypad) {
        exists|k: int| first_pressed(v.keypad, k) && w == with_reg(v, x, k as u8)
    } else {
        w == MachineView { pc: addr_add(v.pc, 4094), ..v }
    }
}

/// Decimal digits of register `x` at the index register and the two bytes after it.
pub open spec fn bcd_stored(v: MachineView, x: int) -> MachineView {
    let n = v.regs[x];
    MachineView {
        ram: v.ram.update(v.ir, n / 100).update(addr_add(v.ir, 1), (n / 10) % 10).update(
            addr_add(v.ir, 2),
            n % 10,
        ),
        ..v
    }
}

/// How far `a` lies past the index register, wrapping at the end of memory.
pub open spec fn offset_from_index(v: MachineView, a: int) -> int {
    (a - v.ir) % 4096
}

/// Registers 0..=x copied to memory from the index register on.
pub open spec fn regs_stored(v: MachineView, x: int) -> MachineView {
    MachineView {
        ram: Seq::new(
            4096,
            |a: int|
                if offset_from_index(v, a) <= x {
                    v.regs[offset_from_index(v, a)]
                } else {
                    v.ram[a]
                },
        ),
        ..v
    }
}

/// Registers 0..=x read from memory from the index register on.
pub open spec fn regs_loaded(v: MachineView, x: int) -> MachineView {
    MachineView {
        regs: Seq::new(
            16,
            |i: int|
                if i <= x {
                    v.ram[addr_add(v.ir, i)]
                } else {
                    v.regs[i]
                },
        ),
        ..v
    }
}

/// Bit `j` (0 is the most significant) of sprite row `i`.
pub open spec fn sprite_bit(v: MachineView, i: int, j: int) -> u8 {
    (v.ram[addr_add(v.ir, i)] >> ((7 - j) as u8)) & 1u8
}

/// Sprite row of framebuffer cell `p` for a sprite drawn at (`vx`, `vy`).
pub open spec fn sprite_row(vy: int, p: int) -> int {
    (p / 64 - vy) % 32
}

/// Sprite column of framebuffer cell `p` for a sprite drawn at (`vx`, `vy`).
pub open spec fn sprite_col(vx: int, p: int) -> int {
    (p % 64 - vx) % 64
}

/// Cell of the `k`-th sprite bit (row `k / 8`, column `k % 8`), coordinates wrapping.
pub open spec fn sprite_cell(vx: int, vy: int, k: int) -> int {
    ((vy + k / 8) % 32) * 64 + (vx + k % 8) % 64
}

/// Cell `p` after the first `k` sprite bits of an `n`-row sprite are composited.
pub open spec fn drawn_cell(v: MachineView, vx: int, vy: int, n: int, k: int, p: int) -> u8 {
    let i = sprite_row(vy, p);
    let j = sprite_col(vx, p);
    if i < n && j < 8 && i * 8 + j < k {
        v.vram[p] ^ sprite_bit(v, i, j)
    } else {
        v.vram[p]
    }
}

/// The framebuffer after the first `k` sprite bits are composited.
pub open spec fn drawn_upto(v: MachineView, vx: int, vy: int, n: int, k: int) -> Seq<u8> {
    Seq::new(2048, |p: int| drawn_cell(v, vx, vy, n, k, p))
}

/// One of the first `k` sprite bits is set over a set pixel.
pub open spec fn collides_upto(v: MachineView, vx: int, vy: int, k: int) -> bool {
    exists|m: int|
        0 <= m < k && #[trigger] sprite_bit(v, m / 8, m % 8) == 1 && v.vram[sprite_cell(vx, vy, m)]
            == 1
}

/// Draw an `n`-row sprite from the index register at the coordinates held by
/// registers `x` and `y`: XOR onto the framebuffer, the flag set exactly when a
/// set pixel was cleared, and a render pending.
pub open spec fn sprite_drawn(v: MachineView, x: int, y: int, n: int) -> MachineView {
    let vx = v.regs[x] as int;
    let vy = v.regs[y] as int;
    MachineView {
        vram: drawn_upto(v, vx, vy, n, n * 8),
        regs: v.regs.update(15, if collides_upto(v, vx, vy, n * 8) { 1u8 } else { 0u8 }),
        dirty: true,
        ..v
    }
}

/// `r` and `w` are the result and state of a fallible step whose outcome is
/// `res`: on an error the state is left as it was.
pub open spec fn outcome(
    v: MachineView,
    res: Result<MachineView, Fault>,
    w: MachineView,
    r: Result<(), Fault>,
) -> bool {
    match res {
        Ok(n) => r == Ok::<(), Fault>(()) && w == n,
        Err(e) => r == Err::<(), Fault>(e) && w == v,
    }
}

/// Executing `ins` on `v` may end in `w` with result `r`; `rnd` is the random
/// byte that a random-number instruction uses.
pub open spec fn executes(
    v: MachineView,
    ins: Instruction,
    rnd: u8,
    w: MachineView,
    r: Result<(), Fault>,
) -> bool {
    match ins {
        Instruction::Return => outcome(v, returned(v), w, r),
        Instruction::Call { addr } => outcome(v, called(v, addr as int), w, r),
        Instruction::WaitKey { x } => r is Ok && waited(v, x as int, w),
        _ => r is Ok && w == executed(v, ins, rnd),
    }
}

/// The state after an instruction that cannot fail and does not wait.
pub open spec fn executed(v: MachineView, ins: Instruction, rnd: u8) -> MachineView {
    match ins {
        Instruction::ClearScreen => cleared(v),
        Instruction::Jump { addr } => MachineView { pc: addr as int, ..v },
        Instruction::SkipEqImm { x, kk } => skip_if(v, v.regs[x as int] == kk),
        Instruction::SkipNeImm { x, kk } => skip_if(v, v.regs[x as int] != kk),
        Instruction::SkipEqReg { x, y } => skip_if(v, v.regs[x as int] == v.regs[y as int]),
        Instruction::LoadImm { x, kk } => with_reg(v, x as int, kk),
        Instruction::AddImm { x, kk } => with_reg(
            v,
            x as int,
            ((v.regs[x as int] as int + kk as int) % 256) as u8,
        ),
        Instruction::LoadReg { x, y } => with_reg(v, x as int, v.regs[y as int]),
        Instruction::Or { x, y } => with_reg(v, x as int, v.regs[x as int] | v.regs[y as int]),
        Instruction::And { x, y } => with_reg(v, x as int, v.regs[x as int] & v.regs[y as int]),
        Instruction::Xor { x, y } => with_reg(v, x as int, v.regs[x as int] ^ v.regs[y as int]),
        Instruction::AddReg { x, y } => added(v, x as int, y as int),
        Instruction::Sub { x, y } => subtracted(v, x as int, y as int),
        Instruction::ShiftRight { x } => shifted_right(v, x as int),
        Instruction::SubReverse { x, y } => subtracted_reverse(v, x as int, y as int),
        Instruction::ShiftLeft { x } => shifted_left(v, x as int),
        Instruction::SkipNeReg { x, y } => skip_if(v, v.regs[x as int] != v.regs[y as int]),
        Instruction::LoadIndex { addr } => MachineView { ir: addr as int, ..v },
        Instruction::JumpOffset { addr } => MachineView {
            pc: addr_add(addr as int, v.regs[0] as int),
            ..v
        },
        Instruction::Random { x, kk } => with_reg(v, x as int, rnd & kk),
        Instruction::Draw { x, y, n } => sprite_drawn(v, x as int, y as int, n as int),
        Instruction::SkipKey { x } => skip_if(v, v.keypad[key_of(v, x as int)]),
        Instruction::SkipNoKey { x } => skip_if(v, !v.keypad[key_of(v, x as int)]),
        Instruction::LoadDelay { x } => with_reg(v, x as int, v.delay),
        Instruction::SetDelay { x } => MachineView { delay: v.regs[x as int], ..v },
        Instruction::SetSound { x } => MachineView { sound: v.regs[x as int], ..v },
        Instruction::AddIndex { x } => MachineView {
            ir: addr_add(v.ir, v.regs[x as int] as int),
            ..v
        },
        Instruction::LoadFont { x } => MachineView { ir: v.regs[x as int] as int * 5, ..v },
        Instruction::Bcd { x } => bcd_stored(v, x as int),
        Instruction::StoreRegs { x } => regs_stored(v, x as int),
        Instruction::LoadRegs { x } => regs_loaded(v, x as int),
        _ => v,
    }
}

/// Timers counted down once, the keypad replaced by `keys`, and the pending
/// render taken.
pub open spec fn ticked(v: MachineView, keys: Seq<bool>) -> MachineView {
    MachineView {
        keypad: keys,
        dirty: false,
        delay: if v.delay > 0 { (v.delay - 1) as u8 } else { 0u8 },
        sound: if v.sound > 0 { (v.sound - 1) as u8 } else { 0u8 },
        ..v
    }
}

/// The state right after construction with the font table `font`.
pub open spec fn initial(font: Seq<u8>) -> MachineView {
    MachineView {
        pc: 0x200,
        op: 0,
        ir: 0,
        sp: 0,
        delay: 0,
        sound: 0,
        regs: Seq::new(16, |i: int| 0u8),
        keypad: Seq::new(16, |i: int| false),
        ram: Seq::new(4096, |a: int| if a < font.len() { font[a] } else { 0u8 }),
        vram: Seq::new(2048, |p: int| 0u8),
        stack: Seq::new(16, |i: int| 0u16),
        dirty: false,
    }
}

/// Memory after a program image is copied in at the program start; bytes that
/// would land past the end of memory are dropped.
pub open spec fn rom_loaded(v: MachineView, data: Seq<u8>) -> MachineView {
    MachineView {
        ram: Seq::new(
            4096,
            |a: int|
                if 0x200 <= a < 0x200 + data.len() {
                    data[a - 0x200]
                } else {
                    v.ram[a]
                },
        ),
        ..v
    }
}

/// A vector of `len` copies of `val`.
fn filled<T: Copy>(val: T, len: usize) -> (r: Vec<T>)
    ensures
        r@ == Seq::new(len as nat, |i: int| val),
{
    let mut r: Vec<T> = Vec::new();
    let mut i: usize = 0;
    while i < len
        invariant
            i <= len,
            r@ == Seq::new(i as nat, |j: int| val),
        decreases len - i,
    {
        r.push(val);
        i = i + 1;
        assert(r@ =~= Seq::new(i as nat, |j: int| val));
    }
    r
}

impl Chip8 {
    /// The invariant of the machine state.
    pub open spec fn wf(&self) -> bool {
        self@.valid()
    }

    /// A machine with `fontset` at the start of memory and everything else zero.
    pub fn new(fontset: &[u8]) -> (r: Self)
        requires
            fontset@.len() <= 4096,
        ensures
            r.wf(),
            r@ == initial(fontset@),
    {
        let mut ram: Vec<u8> = filled(0u8, MEMORY_SIZE);
        let mut i: usize = 0;
        while i < fontset.len()
            invariant
                i <= fontset@.len() <= 4096,
                ram@ == Seq::new(
                    4096,
                    |a: int|
                        if a < i {
                            fontset@[a]
                        } else {
                            0u8
                        },
                ),
            decreases fontset@.len() - i,
        {
            ram.set(i, fontset[i]);
            i = i + 1;
            assert(ram@ =~= Seq::new(4096, |a: int| if a < i { fontset@[a] } else { 0u8 }));
        }
        let r = Chip8 {
            pc: PROGRAM_START,
            op: 0,
            ir: 0,
            sp: 0,
            delay_timer: 0,
            sound_timer: 0,
            registers: filled(0u8, 16),
            keypad: [false; 16],
            ram,
            vram: filled(0u8, SCREEN_CELLS),
            stack: filled(0u16, STACK_DEPTH),
            draw_flag: false,
        };
        assert(r@.ram =~= initial(fontset@).ram);
        assert(r@.keypad =~= initial(fontset@).keypad);
        r
    }

    /// Copies a program image into memory from the program start on.
    pub fn load_rom(&mut self, data: &[u8])
        requires
            old(self).wf(),
        ensures
            final(self).wf(),
            final(self)@ == rom_loaded(old(self)@, data@),
    {
        let ghost v = self@;
        let mut i: usize = 0;
        assert(self@.ram =~= rom_loaded(v, data@.subrange(0, 0)).ram);
        while i < data.len() && i < MEMORY_SIZE - 0x200
            invariant
                self.wf(),
                i <= data@.len(),
                i <= 4096 - 0x200,
                self@ == rom_loaded(v, data@.subrange(0, i as int)),
            decreases data@.len() - i,
        {
            self.ram.set(i + 0x200, data[i]);
            i = i + 1;
            assert(self@.ram =~= rom_loaded(v, data@.subrange(0, i as int)).ram);
        }
        assert(self@.ram =~= rom_loaded(v, data@).ram);
    }
}

impl Chip8 {
    /// Clears the framebuffer.
    pub fn op_00e0(&mut self)
        requires
            old(self).wf(),
        ensures
            final(self).wf(),
            final(self)@ == executed(old(self)@, Instruction::ClearScreen, 0),
    {
        let mut p: usize = 0;
        while p < SCREEN_CELLS
            invariant
                self.wf(),
                p <= 2048,
                forall|q: int| 0 <= q < p ==> self.vram@[q] == 0,
                self@ == (MachineView { vram: self.vram@, ..old(self)@ }),
            decreases 2048 - p,
        {
            self.vram.set(p, 0);
            p = p + 1;
        }
        self.draw_flag = true;
        assert(self.vram@ =~= Seq::new(2048, |q: int| 0u8));
    }

    /// Jumps to `nnn`.
    pub fn op_1nnn(&mut self, nnn: u16)
        requires
            old(self).wf(),
            nnn < 4096,
        ensures
            final(self).wf(),
            final(self)@ == executed(old(self)@, (Instruction::Jump { addr: nnn }), 0),
    {
        self.pc = nnn;
    }

    /// Skips the next instruction when register `x` equals `kk`.
    pub fn op_3xkk(&mut self, x: usize, kk: u8)
        requires
            old(self).wf(),
            x < 16,
        ensures
            final(self).wf(),
            final(self)@ == executed(old(self)@, (Instruction::SkipEqImm { x, kk }), 0),
    {
        if self.registers[x] == kk {
            self.pc = (self.pc + 2) % 4096;
        }
    }

    /// Skips the next instruction when register `x` differs from `kk`.
    pub fn op_4xkk(&mut self, x: usize, kk: u8)
        requires
            old(self).wf(),
            x < 16,
        ensures
            final(self).wf(),
            final(self)@ == executed(old(self)@, (Instruction::SkipNeImm { x, kk }), 0),
    {
        if self.registers[x] != kk {
            self.pc = (self.pc + 2) % 4096;
        }
    }

    /// Skips the next instruction when registers `x` and `y` are equal.
    pub fn op_5xy0(&mut self, x: usize, y: usize)
        requires
            old(self).wf(),
            x < 16,
            y < 16,
        ensures
            final(self).wf(),
            final(self)@ == executed(old(self)@, (Instruction::SkipEqReg { x, y }), 0),
    {
        if self.registers[x] == self.registers[y] {
            self.pc = (self.pc + 2) % 4096;
        }
    }

    /// Sets register `x` to `kk`.
    pub fn op_6xkk(&mut self, x: usize, kk: u8)
        requires
            old(self).wf(),
            x < 16,
        ensures
            final(self).wf(),
            final(self)@ == executed(old(self)@, (Instruction::LoadImm { x, kk }), 0),
    {
        self.registers.set(x, kk);
    }

    /// Adds `kk` to register `x`, wrapping, with no flag.
    pub fn op_7xkk(&mut self, x: usize, kk: u8)
        requires
            old(self).wf(),
            x < 16,
        ensures
            final(self).wf(),
            final(self)@ == executed(old(self)@, (Instruction::AddImm { x, kk }), 0),
    {
        let val = self.registers[x].wrapping_add(kk);
        self.registers.set(x, val);
    }

    /// Copies register `y` into register `x`.
    pub fn op_8xy0(&mut self, x: usize, y: usize)
        requires
            old(self).wf(),
            x < 16,
            y < 16,
        ensures
            final(self).wf(),
            final(self)@ == executed(old(self)@, (Instruction::LoadReg { x, y }), 0),
    {
        let val = self.registers[y];
        self.registers.set(x, val);
    }

    /// Register `x` OR register `y` into register `x`.
    pub fn op_8xy1(&mut self, x: usize, y: usize)
        requires
            old(self).wf(),
            x < 16,
            y < 16,
        ensures
            final(self).wf(),
            final(self)@ == executed(old(self)@, (Instruction::Or { x, y }), 0),
    {
        let val = self.registers[x] | self.registers[y];
        self.registers.set(x, val);
    }

    /// Register `x` AND register `y` into register `x`.
    pub fn op_8xy2(&mut self, x: usize, y: usize)
        requires
            old(self).wf(),
            x < 16,
            y < 16,
        ensures
            final(self).wf(),
            final(self)@ == executed(old(self)@, (Instruction::And { x, y }), 0),
    {
        let val = self.registers[x] & self.registers[y];
        self.registers.set(x, val);
    }

    /// Register `x` XOR register `y` into register `x`.
    pub fn op_8xy3(&mut self, x: usize, y: usize)
        requires
            old(self).wf(),
            x < 16,
            y < 16,
        ensures
            final(self).wf(),
            final(self)@ == executed(old(self)@, (Instruction::Xor { x, y }), 0),
    {
        let val = self.registers[x] ^ self.registers[y];
        self.registers.set(x, val);
    }

    /// Adds register `y` to register `x`; the flag register gets the carry.
    pub fn op_8xy4(&mut self, x: usize, y: usize)
        requires
            old(self).wf(),
            x < 16,
            y < 16,
        ensures
            final(self).wf(),
            final(self)@ == executed(old(self)@, (Instruction::AddReg { x, y }), 0),
    {
        let sum: u16 = self.registers[x] as u16 + self.registers[y] as u16;
        self.registers.set(x, (sum % 256) as u8);
        self.registers.set(15, if sum > 255 { 1 } else { 0 });
    }

    /// Subtracts register `y` from register `x`; the flag is 1 when `x` was greater.
    pub fn op_8xy5(&mut self, x: usize, y: usize)
        requires
            old(self).wf(),
            x < 16,
            y < 16,
        ensures
            final(self).wf(),
            final(self)@ == executed(old(self)@, (Instruction::Sub { x, y }), 0),
    {
        let a = self.registers[x];
        let b = self.registers[y];
        self.registers.set(15, if a > b { 1 } else { 0 });
        self.registers.set(x, a.wrapping_sub(b));
    }

    /// Shifts register `x` right by one; the flag gets the bit shifted out.
    pub fn op_8xy6(&mut self, x: usize)
        requires
            old(self).wf(),
            x < 16,
        ensures
            final(self).wf(),
            final(self)@ == executed(old(self)@, (Instruction::ShiftRight { x }), 0),
    {
        let a = self.registers[x];
        self.registers.set(15, a % 2);
        self.registers.set(x, a / 2);
    }

    /// Sets register `x` to register `y` minus register `x`; the flag is 1 when `y` was greater.
    pub fn op_8xy7(&mut self, x: usize, y: usize)
        requires
            old(self).wf(),
            x < 16,
            y < 16,
        ensures
            final(self).wf(),
            final(self)@ == executed(old(self)@, (Instruction::SubReverse { x, y }), 0),
    {
        let a = self.registers[x];
        let b = self.registers[y];
        self.registers.set(15, if b > a { 1 } else { 0 });
        self.registers.set(x, b.wrapping_sub(a));
    }

    /// Shifts register `x` left by one; the flag gets the bit shifted out.
    pub fn op_8xye(&mut self, x: usize)
        requires
            old(self).wf(),
            x < 16,
        ensures
            final(self).wf(),
            final(self)@ == executed(old(self)@, (Instruction::ShiftLeft { x }), 0),
    {
        let a = self.registers[x];
        self.registers.set(15, a / 128);
        self.registers.set(x, a.wrapping_mul(2));
    }

    /// Skips the next instruction when registers `x` and `y` differ.
    pub fn op_9xy0(&mut self, x: usize, y: usize)
        requires
            old(self).wf(),
            x < 16,
            y < 16,
        ensures
            final(self).wf(),
            final(self)@ == executed(old(self)@, (Instruction::SkipNeReg { x, y }), 0),
    {
        if self.registers[x] != self.registers[y] {
            self.pc = (self.pc + 2) % 4096;
        }
    }

    /// Sets the index register to `nnn`.
    pub fn op_annn(&mut self, nnn: u16)
        requires
            old(self).wf(),
            nnn < 4096,
        ensures
            final(self).wf(),
            final(self)@ == executed(old(self)@, (Instruction::LoadIndex { addr: nnn }), 0),
    {
        self.ir = nnn;
    }

    /// Jumps to `nnn` plus register 0, wrapping at the end of memory.
    pub fn op_bnnn(&mut self, nnn: u16)
        requires
            old(self).wf(),
            nnn < 4096,
        ensures
            final(self).wf(),
            final(self)@ == executed(old(self)@, (Instruction::JumpOffset { addr: nnn }), 0),
    {
        self.pc = (nnn + self.registers[0] as u16) % 4096;
    }

    /// Skips the next instruction when the key named by the low four bits of register `x` is down.
    pub fn op_ex9e(&mut self, x: usize)
        requires
            old(self).wf(),
            x < 16,
        ensures
            final(self).wf(),
            final(self)@ == executed(old(self)@, (Instruction::SkipKey { x }), 0),
    {
        if self.keypad[(self.registers[x] % 16) as usize] {
            self.pc = (self.pc + 2) % 4096;
        }
    }

    /// Skips the next instruction when the key named by the low four bits of register `x` is up.
    pub fn op_exa1(&mut self, x: usize)
        requires
            old(self).wf(),
            x < 16,
        ensures
            final(self).wf(),
            final(self)@ == executed(old(self)@, (Instruction::SkipNoKey { x }), 0),
    {
        if !self.keypad[(self.registers[x] % 16) as usize] {
            self.pc = (self.pc + 2) % 4096;
        }
    }

    /// Copies the delay timer into register `x`.
    pub fn op_fx07(&mut self, x: usize)
        requires
            old(self).wf(),
            x < 16,
        ensures
            final(self).wf(),
            final(self)@ == executed(old(self)@, (Instruction::LoadDelay { x }), 0),
    {
        let val = self.delay_timer;
        self.registers.set(x, val);
    }

    /// Sets the delay timer from register `x`.
    pub fn op_fx15(&mut self, x: usize)
        requires
            old(self).wf(),
            x < 16,
        ensures
            final(self).wf(),
            final(self)@ == executed(old(self)@, (Instruction::SetDelay { x }), 0),
    {
        self.delay_timer = self.registers[x];
    }

    /// Sets the sound timer from register `x`.
    pub fn op_fx18(&mut self, x: usize)
        requires
            old(self).wf(),
            x < 16,
        ensures
            final(self).wf(),
            final(self)@ == executed(old(self)@, (Instruction::SetSound { x }), 0),
    {
        self.sound_timer = self.registers[x];
    }

    /// Adds register `x` to the index register, wrapping at the end of memory.
    pub fn op_fx1e(&mut self, x: usize)
        requires
            old(self).wf(),
            x < 16,
        ensures
            final(self).wf(),
            final(self)@ == executed(old(self)@, (Instruction::AddIndex { x }), 0),
    {
        self.ir = (self.ir + self.registers[x] as u16) % 4096;
    }

    /// Points the index register at the font sprite for the digit in register `x`.
    pub fn op_fx29(&mut self, x: usize)
        requires
            old(self).wf(),
            x < 16,
        ensures
            final(self).wf(),
            final(self)@ == executed(old(self)@, (Instruction::LoadFont { x }), 0),
    {
        self.ir = self.registers[x] as u16 * 5;
    }

    /// Stores the decimal digits of register `x` at the index register and the two bytes after it.
    pub fn op_fx33(&mut self, x: usize)
        requires
            old(self).wf(),
            x < 16,
        ensures
            final(self).wf(),
            final(self)@ == executed(old(self)@, (Instruction::Bcd { x }), 0),
    {
        let n = self.registers[x];
        let i = self.ir as usize;
        self.ram.set(i, n / 100);
        self.ram.set((i + 1) % 4096, (n / 10) % 10);
        self.ram.set((i + 2) % 4096, n % 10);
    }

    /// Stores registers 0 through `x` in memory from the index register on; the index register is kept.
    pub fn op_fx55(&mut self, x: usize)
        requires
            old(self).wf(),
            x < 16,
        ensures
            final(self).wf(),
            final(self)@ == executed(old(self)@, (Instruction::StoreRegs { x }), 0),
    {
        let ghost v = self@;
        let base = self.ir as usize;
        let mut i: usize = 0;
        assert(self.ram@ =~= Seq::new(
            4096,
            |a: int| if offset_from_index(v, a) < 0 { v.regs[offset_from_index(v, a)] } else { v.ram[a] },
        ));
        while i <= x
            invariant
                self.wf(),
                x < 16,
                i <= x + 1,
                base == v.ir,
                self@ == (MachineView { ram: self.ram@, ..v }),
                self.ram@ == Seq::new(
                    4096,
                    |a: int|
                        if offset_from_index(v, a) < i {
                            v.regs[offset_from_index(v, a)]
                        } else {
                            v.ram[a]
                        },
                ),
            decreases x + 1 - i,
        {
            let val = self.registers[i];
            self.ram.set((base + i) % 4096, val);
            i = i + 1;
            assert(self.ram@ =~= Seq::new(
                4096,
                |a: int|
                    if offset_from_index(v, a) < i {
                        v.regs[offset_from_index(v, a)]
                    } else {
                        v.ram[a]
                    },
            ));
        }
        assert(self.ram@ =~= regs_stored(v, x as int).ram);
    }

    /// Loads registers 0 through `x` from memory from the index register on; the index register is kept.
    pub fn op_fx65(&mut self, x: usize)
        requires
            old(self).wf(),
            x < 16,
        ensures
            final(self).wf(),
            final(self)@ == executed(old(self)@, (Instruction::LoadRegs { x }), 0),
    {
        let ghost v = self@;
        let base = self.ir as usize;
        let mut i: usize = 0;
        assert(self.registers@ =~= Seq::new(16, |j: int| if j < 0 { v.ram[addr_add(v.ir, j)] } else { v.regs[j] }));
        while i <= x
            invariant
                self.wf(),
                x < 16,
                i <= x + 1,
                base == v.ir,
                self@ == (MachineView { regs: self.registers@, ..v }),
                self.registers@ == Seq::new(
                    16,
                    |j: int|
                        if j < i {
                            v.ram[addr_add(v.ir, j)]
                        } else {
                            v.regs[j]
                        },
                ),
            decreases x + 1 - i,
        {
            let val = self.ram[(base + i) % 4096];
            self.registers.set(i, val);
            i = i + 1;
            assert(self.registers@ =~= Seq::new(
                16,
                |j: int|
                    if j < i {
                        v.ram[addr_add(v.ir, j)]
                    } else {
                        v.regs[j]
                    },
            ));
        }
        assert(self.registers@ =~= regs_loaded(v, x as int).regs);
    }
}

/// Relies on rand::random::<u8>, a byte drawn from the thread-local generator;
/// nothing is known of which byte comes.
#[verifier::external_body]
fn random_byte() -> (r: u8) {
    rand::random::<u8>()
}

/// The cell of the `k`-th sprite bit lies on the screen, at sprite row `k / 8`
/// and column `k % 8`.
pub(crate) proof fn lemma_sprite_cell(vx: int, vy: int, k: int)
    requires
        0 <= vx < 256,
        0 <= vy < 256,
        0 <= k < 128,
    ensures
        0 <= sprite_cell(vx, vy, k) < 2048,
        sprite_row(vy, sprite_cell(vx, vy, k)) == k / 8,
        sprite_col(vx, sprite_cell(vx, vy, k)) == k % 8,
{
    let row = (vy + k / 8) % 32;
    let col = (vx + k % 8) % 64;
    let p = row * 64 + col;
    assert(p / 64 == row && p % 64 == col) by (nonlinear_arith)
        requires
            p == row * 64 + col,
            0 <= col < 64,
            0 <= row < 32,
    ;
}

/// Only the `k`-th sprite bit lands on a cell at sprite row `k / 8` and column `k % 8`.
pub(crate) proof fn lemma_sprite_cell_unique(vx: int, vy: int, k: int, p: int)
    requires
        0 <= vx < 256,
        0 <= vy < 256,
        0 <= k < 128,
        0 <= p < 2048,
        sprite_col(vx, p) < 8,
        sprite_row(vy, p) * 8 + sprite_col(vx, p) == k,
    ensures
        p == sprite_cell(vx, vy, k),
{
    let row = p / 64;
    let col = p % 64;
    assert(p == row * 64 + col && 0 <= row < 32 && 0 <= col < 64) by (nonlinear_arith)
        requires
            0 <= p < 2048,
            row == p / 64,
            col == p % 64,
    ;
    assert(k / 8 == sprite_row(vy, p));
    assert(k % 8 == sprite_col(vx, p));
}

impl Chip8 {
    /// Returns from a subroutine: the program counter takes the top of the stack.
    pub fn op_00ee(&mut self) -> (r: Result<(), Fault>)
        requires
            old(self).wf(),
        ensures
            final(self).wf(),
            outcome(old(self)@, returned(old(self)@), final(self)@, r),
    {
        if self.sp == 0 {
            return Err(Fault::StackUnderflow);
        }
        self.sp = self.sp - 1;
        self.pc = self.stack[self.sp];
        Ok(())
    }

    /// Calls the subroutine at `nnn`, pushing the program counter.
    pub fn op_2nnn(&mut self, nnn: u16) -> (r: Result<(), Fault>)
        requires
            old(self).wf(),
            nnn < 4096,
        ensures
            final(self).wf(),
            outcome(old(self)@, called(old(self)@, nnn as int), final(self)@, r),
    {
        if self.sp == STACK_DEPTH {
            return Err(Fault::StackOverflow);
        }
        let pc = self.pc;
        self.stack.set(self.sp, pc);
        self.sp = self.sp + 1;
        self.pc = nnn;
        Ok(())
    }

    /// Sets register `x` to the random byte `rnd` masked by `kk`.
    pub fn store_random(&mut self, x: usize, kk: u8, rnd: u8)
        requires
            old(self).wf(),
            x < 16,
        ensures
            final(self).wf(),
            final(self)@ == executed(old(self)@, (Instruction::Random { x, kk }), rnd),
    {
        self.registers.set(x, rnd & kk);
    }

    /// Sets register `x` to a freshly drawn random byte masked by `kk`.
    pub fn op_cxkk(&mut self, x: usize, kk: u8)
        requires
            old(self).wf(),
            x < 16,
        ensures
            final(self).wf(),
            exists|rnd: u8| final(self)@ == executed(old(self)@, (Instruction::Random { x, kk }), rnd),
    {
        let rnd = random_byte();
        self.store_random(x, kk, rnd);
    }

    /// Waits for a key: with a key down, register `x` takes the lowest one;
    /// otherwise the program counter steps back so that this instruction runs
    /// again on the next cycle.
    pub fn op_fx0a(&mut self, x: usize)
        requires
            old(self).wf(),
            x < 16,
        ensures
            final(self).wf(),
            waited(old(self)@, x as int, final(self)@),
    {
        let mut key: usize = 0;
        while key < 16
            invariant
                key <= 16,
                x < 16,
                self.wf(),
                self@ == old(self)@,
                forall|j: int| 0 <= j < key ==> !#[trigger] self.keypad@[j],
            decreases 16 - key,
        {
            if self.keypad[key] {
                self.registers.set(x, key as u8);
                assert(first_pressed(old(self)@.keypad, key as int));
                return;
            }
            key = key + 1;
        }
        self.pc = (self.pc + 4094) % 4096;
    }

    /// Draws an `height`-row sprite from the index register at the coordinates
    /// held by registers `x` and `y`, XOR-ing it onto the framebuffer with
    /// coordinates wrapping; the flag register ends at 1 exactly when a set
    /// pixel was cleared.
    #[verifier::rlimit(50)]
    pub fn op_dxyn(&mut self, x: usize, y: usize, height: usize)
        requires
            old(self).wf(),
            x < 16,
            y < 16,
            height < 16,
        ensures
            final(self).wf(),
            final(self)@ == executed(old(self)@, (Instruction::Draw { x, y, n: height }), 0),
    {
        let ghost v = self@;
        let vx = self.registers[x] as usize;
        let vy = self.registers[y] as usize;
        let total: usize = height * 8;
        let mut collision: u8 = 0;
        let mut k: usize = 0;
        assert(self.vram@ =~= drawn_upto(v, vx as int, vy as int, height as int, 0));
        while k < total
            invariant
                self.wf(),
                vx == v.regs[x as int],
                vy == v.regs[y as int],
                total == height * 8,
                height < 16,
                k <= total,
                self@ == (MachineView { vram: self.vram@, ..v }),
                self.vram@ == drawn_upto(v, vx as int, vy as int, height as int, k as int),
                collision == (if collides_upto(v, vx as int, vy as int, k as int) { 1u8 } else { 0u8 }),
            decreases total - k,
        {
            let i = k / 8;
            let j = k % 8;
            let p = ((vy + i) % 32) * 64 + (vx + j) % 64;
            proof {
                lemma_sprite_cell(vx as int, vy as int, k as int);
            }
            let byte = self.ram[(self.ir as usize + i) % 4096];
            let bit: u8 = (byte >> ((7 - j) as u8)) & 1;
            let cell = self.vram[p];
            assert(cell == v.vram[p as int]);
            assert(bit == sprite_bit(v, i as int, j as int));
            assert(bit <= 1) by (bit_vector)
                requires bit == (byte >> ((7 - j) as u8)) & 1u8;
            assert(cell <= 1);
            assert((cell ^ bit) <= 1 && ((bit & cell) == 1 <==> (bit == 1 && cell == 1))
                && (collision | (bit & cell)) == (if collision == 1 || (bit & cell) == 1 { 1u8 } else { 0u8 }))
                by (bit_vector)
                requires cell <= 1, bit <= 1, collision <= 1;
            collision = collision | (bit & cell);
            self.vram.set(p, cell ^ bit);
            proof {
                let ghost kk = k as int + 1;
                assert forall|q: int| 0 <= q < 2048 implies self.vram@[q] == drawn_cell(
                    v,
                    vx as int,
                    vy as int,
                    height as int,
                    kk,
                    q,
                ) by {
                    if q != p as int && sprite_row(vy as int, q) < height && sprite_col(vx as int, q) < 8
                        && sprite_row(vy as int, q) * 8 + sprite_col(vx as int, q) == k as int {
                        lemma_sprite_cell_unique(vx as int, vy as int, k as int, q);
                    }
                }
                assert(self.vram@ =~= drawn_upto(v, vx as int, vy as int, height as int, kk));
                if collides_upto(v, vx as int, vy as int, kk) {
                    let m = choose|m: int|
                        0 <= m < kk && #[trigger] sprite_bit(v, m / 8, m % 8) == 1
                            && v.vram[sprite_cell(vx as int, vy as int, m)] == 1;
                    if m < k {
                        assert(collides_upto(v, vx as int, vy as int, k as int));
                    }
                }
                if collides_upto(v, vx as int, vy as int, k as int) {
                    let m = choose|m: int|
                        0 <= m < k && #[trigger] sprite_bit(v, m / 8, m % 8) == 1
                            && v.vram[sprite_cell(vx as int, vy as int, m)] == 1;
                    assert(0 <= m < kk);
                }
                if bit == 1 && cell == 1 {
                    assert(sprite_bit(v, (k as int) / 8, (k as int) % 8) == 1);
                }
            }
            k = k + 1;
        }
        self.registers.set(15, collision);
        self.draw_flag = true;
    }
}

impl Chip8 {
    /// Reads the instruction word at the program counter (big-endian, the
    /// second byte wrapping at the end of memory) and moves past it.
    pub fn fetch(&mut self)
        requires
            old(self).wf(),
        ensures
            final(self).wf(),
            final(self)@ == fetched(old(self)@),
    {
        let pc = self.pc as usize;
        let hi = self.ram[pc] as u16;
        let lo = self.ram[(pc + 1) % 4096] as u16;
        self.op = hi * 256 + lo;
        self.pc = ((pc + 2) % 4096) as u16;
    }

    /// Executes `ins`; a random-number instruction uses `rnd` as its random byte.
    pub fn execute(&mut self, ins: Instruction, rnd: u8) -> (r: Result<(), Fault>)
        requires
            old(self).wf(),
            ins.valid(),
        ensures
            final(self).wf(),
            executes(old(self)@, ins, rnd, final(self)@, r),
    {
        match ins {
            Instruction::ClearScreen => self.op_00e0(),
            Instruction::Return => {
                return self.op_00ee();
            },
            Instruction::Jump { addr } => self.op_1nnn(addr),
            Instruction::Call { addr } => {
                return self.op_2nnn(addr);
            },
            Instruction::SkipEqImm { x, kk } => self.op_3xkk(x, kk),
            Instruction::SkipNeImm { x, kk } => self.op_4xkk(x, kk),
            Instruction::SkipEqReg { x, y } => self.op_5xy0(x, y),
            Instruction::LoadImm { x, kk } => self.op_6xkk(x, kk),
            Instruction::AddImm { x, kk } => self.op_7xkk(x, kk),
            Instruction::LoadReg { x, y } => self.op_8xy0(x, y),
            Instruction::Or { x, y } => self.op_8xy1(x, y),
            Instruction::And { x, y } => self.op_8xy2(x, y),
            Instruction::Xor { x, y } => self.op_8xy3(x, y),
            Instruction::AddReg { x, y } => self.op_8xy4(x, y),
            Instruction::Sub { x, y } => self.op_8xy5(x, y),
            Instruction::ShiftRight { x } => self.op_8xy6(x),
            Instruction::SubReverse { x, y } => self.op_8xy7(x, y),
            Instruction::ShiftLeft { x } => self.op_8xye(x),
            Instruction::SkipNeReg { x, y } => self.op_9xy0(x, y),
            Instruction::LoadIndex { addr } => self.op_annn(addr),
            Instruction::JumpOffset { addr } => self.op_bnnn(addr),
            Instruction::Random { x, kk } => self.store_random(x, kk, rnd),
            Instruction::Draw { x, y, n } => self.op_dxyn(x, y, n),
            Instruction::SkipKey { x } => self.op_ex9e(x),
            Instruction::SkipNoKey { x } => self.op_exa1(x),
            Instruction::LoadDelay { x } => self.op_fx07(x),
            Instruction::WaitKey { x } => self.op_fx0a(x),
            Instruction::SetDelay { x } => self.op_fx15(x),
            Instruction::SetSound { x } => self.op_fx18(x),
            Instruction::AddIndex { x } => self.op_fx1e(x),
            Instruction::LoadFont { x } => self.op_fx29(x),
            Instruction::Bcd { x } => self.op_fx33(x),
            Instruction::StoreRegs { x } => self.op_fx55(x),
            Instruction::LoadRegs { x } => self.op_fx65(x),
            Instruction::Nop => {},
        }
        Ok(())
    }

    /// Decodes the fetched instruction word and executes it, drawing a random
    /// byte for a random-number instruction.
    pub fn decode_execute(&mut self) -> (r: Result<(), Fault>)
        requires
            old(self).wf(),
        ensures
            final(self).wf(),
            exists|rnd: u8| executes(old(self)@, decoded(old(self)@.op), rnd, final(self)@, r),
    {
        let ghost v = self@;
        let ins = decode(self.op);
        match ins {
            Instruction::Random { x, kk } => {
                self.op_cxkk(x, kk);
                proof {
                    let rnd = choose|rnd: u8|
                        self@ == executed(v, (Instruction::Random { x, kk }), rnd);
                    assert(executes(v, ins, rnd, self@, Ok(())));
                }
                Ok(())
            },
            _ => self.execute(ins, 0),
        }
    }

    /// One fetch-decode-execute cycle.
    pub fn cycle(&mut self) -> (r: Result<(), Fault>)
        requires
            old(self).wf(),
        ensures
            final(self).wf(),
            exists|rnd: u8|
                executes(
                    fetched(old(self)@),
                    decoded(fetched(old(self)@).op),
                    rnd,
                    final(self)@,
                    r,
                ),
    {
        self.fetch();
        self.decode_execute()
    }

    /// One fetch-decode-execute cycle in which a random-number instruction
    /// uses `rnd` as its random byte.
    pub fn step(&mut self, rnd: u8) -> (r: Result<(), Fault>)
        requires
            old(self).wf(),
        ensures
            final(self).wf(),
            executes(fetched(old(self)@), decoded(fetched(old(self)@).op), rnd, final(self)@, r),
    {
        self.fetch();
        let ins = decode(self.op);
        self.execute(ins, rnd)
    }

    /// The housekeeping of one tick: the keypad snapshot is replaced by `keys`,
    /// a pending render is taken, and both timers count down when non-zero. The
    /// result says whether to render now and whether the tone should sound.
    pub fn tick(&mut self, keys: [bool; 16]) -> (r: TickOutput)
        requires
            old(self).wf(),
        ensures
            final(self).wf(),
            final(self)@ == ticked(old(self)@, keys@),
            r.render == old(self)@.dirty,
            r.tone == (final(self)@.sound != 0),
    {
        self.keypad = keys;
        let render = self.draw_flag;
        self.draw_flag = false;
        if self.delay_timer > 0 {
            self.delay_timer = self.delay_timer - 1;
        }
        if self.sound_timer > 0 {
            self.sound_timer = self.sound_timer - 1;
        }
        TickOutput { render, tone: self.sound_timer != 0 }
    }

    /// The program counter.
    pub fn pc(&self) -> (r: u16)
        ensures
            r == self@.pc,
    {
        self.pc
    }

    /// The last instruction word fetched.
    pub fn opcode(&self) -> (r: u16)
        ensures
            r == self@.op,
    {
        self.op
    }

    /// The index register.
    pub fn index_register(&self) -> (r: u16)
        ensures
            r == self@.ir,
    {
        self.ir
    }

    /// Return addresses on the call stack.
    pub fn stack_pointer(&self) -> (r: usize)
        ensures
            r == self@.sp,
    {
        self.sp
    }

    /// Register `i`.
    pub fn register(&self, i: usize) -> (r: u8)
        requires
            self.wf(),
            i < 16,
        ensures
            r == self@.regs[i as int],
    {
        self.registers[i]
    }

    /// The memory byte at `addr`.
    pub fn memory(&self, addr: usize) -> (r: u8)
        requires
            self.wf(),
            addr < 4096,
        ensures
            r == self@.ram[addr as int],
    {
        self.ram[addr]
    }

    /// The framebuffer cell at column `x`, row `y`: 1 set, 0 unset.
    pub fn pixel(&self, x: usize, y: usize) -> (r: u8)
        requires
            self.wf(),
            x < 64,
            y < 32,
        ensures
            r == self@.vram[y * 64 + x],
    {
        self.vram[y * 64 + x]
    }

    /// A copy of the framebuffer, row by row.
    pub fn framebuffer(&self) -> (r: Vec<u8>)
        ensures
            r@ == self@.vram,
    {
        self.vram.clone()
    }

    /// The delay timer.
    pub fn delay_timer(&self) -> (r: u8)
        ensures
            r == self@.delay,
    {
        self.delay_timer
    }

    /// The sound timer.
    pub fn sound_timer(&self) -> (r: u8)
        ensures
            r == self@.sound,
    {
        self.sound_timer
    }

    /// The framebuffer changed since the last render.
    pub fn needs_redraw(&self) -> (r: bool)
        ensures
            r == self@.dirty,
    {
        self.draw_flag
    }
}

} // verus!
