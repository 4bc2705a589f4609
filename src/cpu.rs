use crate::display::{Display, MAX_SPRITE_ROWS};
use crate::error::Chip8Error;
use crate::key::{key_value, Key};
use crate::memory::{splice, Ram, FONT_START, GLYPH_BYTES, MEMORY_SIZE, PROGRAM_START};
use crate::opcode::{decode, decode_spec, well_formed, Instruction};
use vstd::prelude::*;

verus! {

/// Stack pointer of an empty stack. A call moves the pointer down one slot
/// and stores the return address there; a return reads the slot it points
/// at and moves it back up.
pub const STACK_EMPTY: u8 = 16;

/// Index of the flag register.
pub const FLAG: usize = 15;

/// The processor state as mathematical values.
pub ghost struct CpuView {
    pub v: Seq<u8>,
    pub i: u16,
    pub delay: u8,
    pub sound: u8,
    pub sp: u8,
    pub stack: Seq<u16>,
    pub pc: u16,
    pub running: bool,
}

/// Registers, program counter, call stack and the two timers.
#[derive(Clone, Copy, Debug)]
pub struct Cpu {
    /// General registers; the last one doubles as the flag register.
    pub v: [u8; 16],
    /// Index register.
    pub i: u16,
    pub delay_timer: u8,
    pub sound_timer: u8,
    /// Stack pointer, `STACK_EMPTY` when the stack is empty.
    pub sp: u8,
    pub stack: [u16; 16],
    /// Program counter.
    pub pc: u16,
    /// Whether the timer clock is running.
    pub is_start: bool,
}

/// A processor at power-on: registers and timers zero, empty stack,
/// program counter at the first program byte, timer clock stopped.
pub open spec fn is_power_on(c: CpuView) -> bool {
    &&& c.v == Seq::new(16, |k: int| 0u8)
    &&& c.i == 0
    &&& c.delay == 0
    &&& c.sound == 0
    &&& c.sp == STACK_EMPTY
    &&& c.stack == Seq::new(16, |k: int| 0u16)
    &&& c.pc == PROGRAM_START
    &&& !c.running
}

/// The processor with the program counter moved past the current instruction.
pub open spec fn advanced(c: CpuView) -> CpuView {
    CpuView { pc: (c.pc + 2) as u16, ..c }
}

/// `1` where `b` holds, else `0`.
pub open spec fn flag_of(b: bool) -> u8 {
    if b {
        1
    } else {
        0
    }
}

/// The program counter after a conditional skip.
pub open spec fn skip_if(c: CpuView, b: bool) -> CpuView {
    if b {
        CpuView { pc: (c.pc + 2) as u16, ..c }
    } else {
        c
    }
}

/// Sets the flag register to `flag`, then register `x` to `value`.
pub open spec fn set_with_flag(c: CpuView, x: u8, value: int, flag: bool) -> CpuView {
    CpuView { v: c.v.update(FLAG as int, flag_of(flag)).update(x as int, value as u8), ..c }
}

/// Sets register `x` to `value`.
pub open spec fn set_reg(c: CpuView, x: u8, value: u8) -> CpuView {
    CpuView { v: c.v.update(x as int, value), ..c }
}

/// The sprite of `n` rows that the index register points at.
pub open spec fn sprite_at(c: CpuView, mem: Seq<u8>, n: u8) -> Seq<u8> {
    mem.subrange(c.i as int, c.i + n)
}

/// The decimal digits of `b`: hundreds, tens, ones.
pub open spec fn bcd(b: u8) -> Seq<u8> {
    seq![b / 100, (b % 100) / 10, b % 10]
}

/// The error an instruction fails with on this state, if any. The program
/// counter has already moved past the instruction.
pub open spec fn instr_error(c: CpuView, instr: Instruction) -> Option<Chip8Error> {
    match instr {
        Instruction::Return => if c.sp >= STACK_EMPTY {
            Some(Chip8Error::StackUnderflow)
        } else {
            None
        },
        Instruction::Call { .. } => if c.sp == 0 {
            Some(Chip8Error::StackOverflow)
        } else {
            None
        },
        Instruction::Draw { n, .. } => if c.i + n > MEMORY_SIZE {
            Some(Chip8Error::OutOfBounds)
        } else {
            None
        },
        Instruction::AddIndex { x } => if c.i + c.v[x as int] > u16::MAX {
            Some(Chip8Error::OutOfBounds)
        } else {
            None
        },
        Instruction::StoreBcd { .. } => if c.i + 3 > MEMORY_SIZE {
            Some(Chip8Error::OutOfBounds)
        } else {
            None
        },
        Instruction::StoreRegs { x } | Instruction::LoadRegs { x } => if c.i + x + 1
            > MEMORY_SIZE {
            Some(Chip8Error::OutOfBounds)
        } else {
            None
        },
        _ => None,
    }
}

/// The processor after `instr` succeeds. The program counter has already
/// moved past the instruction; `d` is the frame buffer before it, `rnd` the
/// random byte drawn for it.
pub open spec fn cpu_after(
    c: CpuView,
    mem: Seq<u8>,
    d: Display,
    instr: Instruction,
    key: Option<Key>,
    rnd: u8,
) -> CpuView {
    match instr {
        Instruction::ClearScreen => c,
        Instruction::Return => CpuView {
            pc: c.stack[c.sp as int],
            sp: (c.sp + 1) as u8,
            ..c
        },
        Instruction::Jump { nnn } => CpuView { pc: nnn, ..c },
        Instruction::Call { nnn } => CpuView {
            sp: (c.sp - 1) as u8,
            stack: c.stack.update(c.sp - 1, c.pc),
            pc: nnn,
            ..c
        },
        Instruction::SkipIfEqualImm { x, kk } => skip_if(c, c.v[x as int] == kk),
        Instruction::SkipIfNotEqualImm { x, kk } => skip_if(c, c.v[x as int] != kk),
        Instruction::SkipIfEqualReg { x, y } => skip_if(c, c.v[x as int] == c.v[y as int]),
        Instruction::SkipIfNotEqualReg { x, y } => skip_if(c, c.v[x as int] != c.v[y as int]),
        Instruction::LoadImm { x, kk } => set_reg(c, x, kk),
        Instruction::AddImm { x, kk } => set_with_flag(
            c,
            x,
            (c.v[x as int] + kk) % 256,
            c.v[x as int] + kk > 255,
        ),
        Instruction::Assign { x, y } => set_reg(c, x, c.v[y as int]),
        Instruction::Or { x, y } => set_reg(c, x, c.v[x as int] | c.v[y as int]),
        Instruction::And { x, y } => set_reg(c, x, c.v[x as int] & c.v[y as int]),
        Instruction::Xor { x, y } => set_reg(c, x, c.v[x as int] ^ c.v[y as int]),
        Instruction::AddReg { x, y } => set_with_flag(
            c,
            x,
            (c.v[x as int] + c.v[y as int]) % 256,
            c.v[x as int] + c.v[y as int] > 255,
        ),
        Instruction::SubReg { x, y } => set_with_flag(
            c,
            x,
            (c.v[x as int] - c.v[y as int]) % 256,
            c.v[x as int] >= c.v[y as int],
        ),
        Instruction::ShiftRight { x } => set_with_flag(
            c,
            x,
            (c.v[x as int] / 2) as int,
            c.v[x as int] % 2 == 1,
        ),
        Instruction::SubReverse { x, y } => set_with_flag(
            c,
            x,
            (c.v[y as int] - c.v[x as int]) % 256,
            c.v[y as int] >= c.v[x as int],
        ),
        Instruction::ShiftLeft { x } => set_with_flag(
            c,
            x,
            (c.v[x as int] * 2) % 256,
            c.v[x as int] >= 128,
        ),
        Instruction::LoadIndex { nnn } => CpuView { i: nnn, ..c },
        Instruction::JumpOffset { nnn } => CpuView { pc: (c.v[0] + nnn) as u16, ..c },
        Instruction::Random { x, kk } => set_reg(c, x, rnd & kk),
        Instruction::Draw { x, y, n } => CpuView {
            v: c.v.update(
                FLAG as int,
                flag_of(d.collides(sprite_at(c, mem, n), c.v[x as int] as int, c.v[y as int] as int)),
            ),
            ..c
        },
        Instruction::SkipIfKey { x } => skip_if(
            c,
            key is Some && key_value(key.unwrap()) == c.v[x as int],
        ),
        Instruction::SkipIfNotKey { x } => skip_if(
            c,
            !(key is Some && key_value(key.unwrap()) == c.v[x as int]),
        ),
        Instruction::ReadDelay { x } => set_reg(c, x, c.delay),
        Instruction::WaitKey { x } => match key {
            Some(k) => set_reg(c, x, key_value(k)),
            None => CpuView { pc: (c.pc - 2) as u16, ..c },
        },
        Instruction::SetDelay { x } => CpuView { delay: c.v[x as int], ..c },
        Instruction::SetSound { x } => CpuView { sound: c.v[x as int], ..c },
        Instruction::AddIndex { x } => CpuView { i: (c.i + c.v[x as int]) as u16, ..c },
        Instruction::FontGlyph { x } => CpuView {
            i: (FONT_START + c.v[x as int] * GLYPH_BYTES) as u16,
            ..c
        },
        Instruction::StoreBcd { .. } => c,
        Instruction::StoreRegs { .. } => c,
        Instruction::LoadRegs { x } => CpuView {
            v: splice(c.v, 0, mem.subrange(c.i as int, c.i + x + 1)),
            ..c
        },
    }
}

/// Memory after `instr` succeeds.
pub open spec fn mem_after(c: CpuView, mem: Seq<u8>, instr: Instruction) -> Seq<u8> {
    match instr {
        Instruction::StoreBcd { x } => splice(mem, c.i as int, bcd(c.v[x as int])),
        Instruction::StoreRegs { x } => splice(mem, c.i as int, c.v.subrange(0, x + 1)),
        _ => mem,
    }
}

/// Whether `d1` is the frame buffer after `instr` succeeds on `d0`.
pub open spec fn display_after(
    c: CpuView,
    mem: Seq<u8>,
    d0: Display,
    instr: Instruction,
    d1: Display,
) -> bool {
    match instr {
        Instruction::ClearScreen => d1.is_blank(),
        Instruction::Draw { x, y, n } => forall|r: int, col: int|
            crate::display::on_grid(r, col) ==> #[trigger] d1.pixel(r, col) == d0.pixel_after_draw(
                sprite_at(c, mem, n),
                c.v[x as int] as int,
                c.v[y as int] as int,
                r,
                col,
            ),
        _ => d1 == d0,
    }
}

/// The processor after one cycle of the timer clock: while the clock runs,
/// each timer above zero goes down by one.
pub open spec fn timers_after_cycle(c: CpuView) -> CpuView {
    if c.running {
        CpuView {
            delay: if c.delay > 0 {
                (c.delay - 1) as u8
            } else {
                0
            },
            sound: if c.sound > 0 {
                (c.sound - 1) as u8
            } else {
                0
            },
            ..c
        }
    } else {
        c
    }
}

/// Whether both opcode bytes at the program counter lie in memory.
pub open spec fn fetch_in_range(c: CpuView) -> bool {
    c.pc + 1 < MEMORY_SIZE
}

/// The opcode at the program counter, high byte first.
pub open spec fn opcode_at(c: CpuView, mem: Seq<u8>) -> u16 {
    (mem[c.pc as int] * 256 + mem[c.pc + 1]) as u16
}

/// The error one step fails with, if any: the fetch, the decode, then the
/// instruction itself.
pub open spec fn step_error(c: CpuView, mem: Seq<u8>) -> Option<Chip8Error> {
    if !fetch_in_range(c) {
        Some(Chip8Error::OutOfBounds)
    } else {
        match decode_spec(opcode_at(c, mem)) {
            None => Some(Chip8Error::IllegalOpcode),
            Some(instr) => instr_error(advanced(c), instr),
        }
    }
}

/// Whether `(c1, m1, d1)` is the state after one successful step from
/// `(c0, m0, d0)` with pressed key `key` and random byte `rnd`.
pub open spec fn step_effect(
    c0: CpuView,
    m0: Seq<u8>,
    d0: Display,
    key: Option<Key>,
    rnd: u8,
    c1: CpuView,
    m1: Seq<u8>,
    d1: Display,
) -> bool {
    let instr = decode_spec(opcode_at(c0, m0)).unwrap();
    let c = advanced(c0);
    c1 == cpu_after(c, m0, d0, instr, key, rnd) && m1 == mem_after(c, m0, instr) && display_after(
        c,
        m0,
        d0,
        instr,
        d1,
    )
}

/// The outcome of one step: an error with the state unchanged, or success
/// with the step's effect.
pub open spec fn step_outcome(
    c0: CpuView,
    m0: Seq<u8>,
    d0: Display,
    key: Option<Key>,
    rnd: u8,
    r: Result<(), Chip8Error>,
    c1: CpuView,
    m1: Seq<u8>,
    d1: Display,
) -> bool {
    match step_error(c0, m0) {
        Some(e) => r == Err::<(), Chip8Error>(e) && c1 == c0 && m1 == m0 && d1 == d0,
        None => r is Ok && step_effect(c0, m0, d0, key, rnd, c1, m1, d1),
    }
}

/// Relies on `rand::random::<u8>`, a byte from the thread-local generator;
/// nothing is known of its value.
#[verifier::external_body]
fn random_byte() -> u8 {
    rand::random::<u8>()
}

impl Cpu {
    /// The processor state as mathematical values.
    pub open spec fn view(&self) -> CpuView {
        CpuView {
            v: self.v@,
            i: self.i,
            delay: self.delay_timer,
            sound: self.sound_timer,
            sp: self.sp,
            stack: self.stack@,
            pc: self.pc,
            running: self.is_start,
        }
    }

    /// The stack pointer is within its range.
    pub open spec fn wf(&self) -> bool {
        self.sp <= STACK_EMPTY
    }

    /// A processor at power-on.
    pub fn new() -> (r: Cpu)
        ensures
            r.wf(),
            is_power_on(r@),
    {
        let r = Cpu {
            v: [0u8; 16],
            i: 0,
            delay_timer: 0,
            sound_timer: 0,
            sp: STACK_EMPTY,
            stack: [0u16; 16],
            pc: PROGRAM_START as u16,
            is_start: false,
        };
        assert(r@.v =~= Seq::new(16, |k: int| 0u8));
        assert(r@.stack =~= Seq::new(16, |k: int| 0u16));
        r
    }

    /// Starts the timer clock.
    pub fn run(&mut self)
        ensures
            final(self)@ == (CpuView { running: true, ..old(self)@ }),
    {
        self.is_start = true;
    }

    /// Stops the timer clock; it halts at its next cycle.
    pub fn stop(&mut self)
        ensures
            final(self)@ == (CpuView { running: false, ..old(self)@ }),
    {
        self.is_start = false;
    }

    /// One cycle of the timer clock. Returns whether the clock is running;
    /// a stopped clock changes nothing.
    pub fn timer_cycle(&mut self) -> (running: bool)
        ensures
            final(self)@ == timers_after_cycle(old(self)@),
            running == old(self)@.running,
    {
        if !self.is_start {
            return false;
        }
        if self.delay_timer > 0 {
            self.delay_timer = self.delay_timer - 1;
        }
        if self.sound_timer > 0 {
            self.sound_timer = self.sound_timer - 1;
        }
        true
    }
    /// Sets the flag register to `flag`, then register `x` to `value`.
    fn set_with_flag(&mut self, x: u8, value: u8, flag: bool)
        requires
            x < 16,
        ensures
            final(self)@ == set_with_flag(old(self)@, x, value as int, flag),
    {
        self.v[FLAG] = if flag {
            1
        } else {
            0
        };
        self.v[x as usize] = value;
    }

    /// Executes one decoded instruction; the program counter has already
    /// moved past it. `rnd` is the random byte an instruction `Cxkk` uses.
    /// On failure nothing changes.
    #[verifier::rlimit(50)]
    pub fn execute(
        &mut self,
        ram: &mut Ram,
        display: &mut Display,
        instr: Instruction,
        key: Option<Key>,
        rnd: u8,
    ) -> (r: Result<(), Chip8Error>)
        requires
            old(self).wf(),
            well_formed(instr),
            2 <= old(self).pc <= MEMORY_SIZE,
        ensures
            final(self).wf(),
            instr_error(old(self)@, instr) is Some ==> r == Err::<(), Chip8Error>(
                instr_error(old(self)@, instr).unwrap(),
            ) && final(self)@ == old(self)@ && final(ram)@ == old(ram)@ && *final(display)
                == *old(display),
            instr_error(old(self)@, instr) is None ==> r is Ok && final(self)@ == cpu_after(
                old(self)@,
                old(ram)@,
                *old(display),
                instr,
                key,
                rnd,
            ) && final(ram)@ == mem_after(old(self)@, old(ram)@, instr) && display_after(
                old(self)@,
                old(ram)@,
                *old(display),
                instr,
                *final(display),
            ),
    {
        match instr {
            Instruction::ClearScreen => {
                display.clear();
            },
            Instruction::Return => {
                if self.sp >= STACK_EMPTY {
                    return Err(Chip8Error::StackUnderflow);
                }
                self.pc = self.stack[self.sp as usize];
                self.sp = self.sp + 1;
            },
            Instruction::Jump { nnn } => {
                self.pc = nnn;
            },
            Instruction::Call { nnn } => {
                if self.sp == 0 {
                    return Err(Chip8Error::StackOverflow);
                }
                self.sp = self.sp - 1;
                self.stack[self.sp as usize] = self.pc;
                self.pc = nnn;
            },
            Instruction::SkipIfEqualImm { x, kk } => {
                if self.v[x as usize] == kk {
                    self.pc = self.pc + 2;
                }
            },
            Instruction::SkipIfNotEqualImm { x, kk } => {
                if self.v[x as usize] != kk {
                    self.pc = self.pc + 2;
                }
            },
            Instruction::SkipIfEqualReg { x, y } => {
                if self.v[x as usize] == self.v[y as usize] {
                    self.pc = self.pc + 2;
                }
            },
            Instruction::SkipIfNotEqualReg { x, y } => {
                if self.v[x as usize] != self.v[y as usize] {
                    self.pc = self.pc + 2;
                }
            },
            Instruction::LoadImm { x, kk } => {
                self.v[x as usize] = kk;
            },
            Instruction::AddImm { x, kk } => {
                let sum: u16 = self.v[x as usize] as u16 + kk as u16;
                self.set_with_flag(x, (sum % 256) as u8, sum > 255);
            },
            Instruction::Assign { x, y } => {
                self.v[x as usize] = self.v[y as usize];
            },
            Instruction::Or { x, y } => {
                self.v[x as usize] = self.v[x as usize] | self.v[y as usize];
            },
            Instruction::And { x, y } => {
                self.v[x as usize] = self.v[x as usize] & self.v[y as usize];
            },
            Instruction::Xor { x, y } => {
                self.v[x as usize] = self.v[x as usize] ^ self.v[y as usize];
            },
            Instruction::AddReg { x, y } => {
                let sum: u16 = self.v[x as usize] as u16 + self.v[y as usize] as u16;
                self.set_with_flag(x, (sum % 256) as u8, sum > 255);
            },
            Instruction::SubReg { x, y } => {
                let vx = self.v[x as usize];
                let vy = self.v[y as usize];
                let diff: u8 = if vx >= vy {
                    vx - vy
                } else {
                    (vx as u16 + 256 - vy as u16) as u8
                };
                self.set_with_flag(x, diff, vx >= vy);
            },
            Instruction::ShiftRight { x } => {
                let vx = self.v[x as usize];
                self.set_with_flag(x, vx / 2, vx % 2 == 1);
            },
            Instruction::SubReverse { x, y } => {
                let vx = self.v[x as usize];
                let vy = self.v[y as usize];
                let diff: u8 = if vy >= vx {
                    vy - vx
                } else {
                    (vy as u16 + 256 - vx as u16) as u8
                };
                self.set_with_flag(x, diff, vy >= vx);
            },
            Instruction::ShiftLeft { x } => {
                let vx = self.v[x as usize];
                self.set_with_flag(x, ((vx as u16 * 2) % 256) as u8, vx >= 128);
            },
            Instruction::LoadIndex { nnn } => {
                self.i = nnn;
            },
            Instruction::JumpOffset { nnn } => {
                self.pc = self.v[0] as u16 + nnn;
            },
            Instruction::Random { x, kk } => {
                self.v[x as usize] = rnd & kk;
            },
            Instruction::Draw { x, y, n } => {
                if self.i as usize + n as usize > MEMORY_SIZE {
                    return Err(Chip8Error::OutOfBounds);
                }
                let ghost c = self@;
                let sprite = read_sprite(ram, self.i, n);
                let hit = display.draw(self.v[x as usize], self.v[y as usize], &sprite);
                self.v[FLAG] = if hit {
                    1
                } else {
                    0
                };
                assert(sprite@ == sprite_at(c, ram@, n));
            },
            Instruction::SkipIfKey { x } => {
                match key {
                    Some(k) => {
                        if k.value() == self.v[x as usize] {
                            self.pc = self.pc + 2;
                        }
                    },
                    None => {},
                }
            },
            Instruction::SkipIfNotKey { x } => {
                match key {
                    Some(k) => {
                        if k.value() != self.v[x as usize] {
                            self.pc = self.pc + 2;
                        }
                    },
                    None => {
                        self.pc = self.pc + 2;
                    },
                }
            },
            Instruction::ReadDelay { x } => {
                self.v[x as usize] = self.delay_timer;
            },
            Instruction::WaitKey { x } => {
                match key {
                    Some(k) => {
                        self.v[x as usize] = k.value();
                    },
                    None => {
                        self.pc = self.pc - 2;
                    },
                }
            },
            Instruction::SetDelay { x } => {
                self.delay_timer = self.v[x as usize];
            },
            Instruction::SetSound { x } => {
                self.sound_timer = self.v[x as usize];
            },
            Instruction::AddIndex { x } => {
                let vx = self.v[x as usize];
                if self.i as u32 + vx as u32 > u16::MAX as u32 {
                    return Err(Chip8Error::OutOfBounds);
                }
                self.i = self.i + vx as u16;
            },
            Instruction::FontGlyph { x } => {
                let digit = self.v[x as usize] as u16;
                assert(digit * 5 <= 1275) by (nonlinear_arith)
                    requires
                        digit <= 255,
                ;
                self.i = FONT_START as u16 + digit * GLYPH_BYTES as u16;
            },
            Instruction::StoreBcd { x } => {
                let i = self.i as usize;
                if i + 3 > MEMORY_SIZE {
                    return Err(Chip8Error::OutOfBounds);
                }
                let b = self.v[x as usize];
                ram.memory[i] = b / 100;
                ram.memory[i + 1] = (b % 100) / 10;
                ram.memory[i + 2] = b % 10;
                assert(ram@ =~= splice(old(ram)@, i as int, bcd(b)));
            },
            Instruction::StoreRegs { x } => {
                let i = self.i as usize;
                if i + x as usize + 1 > MEMORY_SIZE {
                    return Err(Chip8Error::OutOfBounds);
                }
                let ghost start = ram@;
                let mut k: usize = 0;
                while k <= x as usize
                    invariant
                        x < 16,
                        i + x + 1 <= MEMORY_SIZE,
                        k <= x + 1,
                        start == old(ram)@,
                        start.len() == MEMORY_SIZE,
                        ram@ == splice(start, i as int, self.v@.subrange(0, k as int)),
                    decreases x + 1 - k,
                {
                    ram.memory[i + k] = self.v[k];
                    k = k + 1;
                    assert(ram@ =~= splice(start, i as int, self.v@.subrange(0, k as int)));
                }
            },
            Instruction::LoadRegs { x } => {
                let i = self.i as usize;
                if i + x as usize + 1 > MEMORY_SIZE {
                    return Err(Chip8Error::OutOfBounds);
                }
                let ghost start = self.v@;
                let mut k: usize = 0;
                while k <= x as usize
                    invariant
                        x < 16,
                        i + x + 1 <= MEMORY_SIZE,
                        k <= x + 1,
                        start == old(self).v@,
                        start.len() == 16,
                        self.i == old(self).i,
                        self.pc == old(self).pc,
                        self.sp == old(self).sp,
                        self.stack == old(self).stack,
                        self.delay_timer == old(self).delay_timer,
                        self.sound_timer == old(self).sound_timer,
                        self.is_start == old(self).is_start,
                        self.v@ == splice(start, 0, ram@.subrange(i as int, i + k)),
                    decreases x + 1 - k,
                {
                    self.v[k] = ram.memory[i + k];
                    k = k + 1;
                    assert(self.v@ =~= splice(start, 0, ram@.subrange(i as int, i + k)));
                }
            },
        }
        Ok(())
    }
    /// Fetches the opcode at the program counter and decodes it. Fails, with
    /// nothing changed, where the opcode lies outside memory or matches no
    /// instruction.
    fn fetch_decode(&self, ram: &Ram) -> (r: Result<Instruction, Chip8Error>)
        ensures
            !fetch_in_range(self@) ==> r == Err::<Instruction, Chip8Error>(Chip8Error::OutOfBounds),
            fetch_in_range(self@) && decode_spec(opcode_at(self@, ram@)) is None ==> r == Err::<
                Instruction,
                Chip8Error,
            >(Chip8Error::IllegalOpcode),
            fetch_in_range(self@) && decode_spec(opcode_at(self@, ram@)) is Some ==> r == Ok::<
                Instruction,
                Chip8Error,
            >(decode_spec(opcode_at(self@, ram@)).unwrap()),
            r is Ok ==> well_formed(r.unwrap()),
    {
        if self.pc as usize + 1 >= MEMORY_SIZE {
            return Err(Chip8Error::OutOfBounds);
        }
        let hi = ram.memory[self.pc as usize];
        let lo = ram.memory[self.pc as usize + 1];
        let op: u16 = hi as u16 * 256 + lo as u16;
        match decode(op) {
            Some(instr) => Ok(instr),
            None => Err(Chip8Error::IllegalOpcode),
        }
    }

    /// Runs one instruction with `rnd` as the random byte for `Cxkk`.
    pub fn step(&mut self, ram: &mut Ram, display: &mut Display, key: Option<Key>, rnd: u8) -> (r:
        Result<(), Chip8Error>)
        requires
            old(self).wf(),
        ensures
            final(self).wf(),
            step_outcome(
                old(self)@,
                old(ram)@,
                *old(display),
                key,
                rnd,
                r,
                final(self)@,
                final(ram)@,
                *final(display),
            ),
    {
        let instr = match self.fetch_decode(ram) {
            Ok(instr) => instr,
            Err(e) => {
                return Err(e);
            },
        };
        self.pc = self.pc + 2;
        let r = self.execute(ram, display, instr, key, rnd);
        if r.is_err() {
            self.pc = self.pc - 2;
        }
        r
    }

    /// Runs one instruction, drawing a random byte where it is `Cxkk`.
    pub fn tick(&mut self, ram: &mut Ram, key: Option<Key>, display: &mut Display) -> (r: Result<
        (),
        Chip8Error,
    >)
        requires
            old(self).wf(),
        ensures
            final(self).wf(),
            exists|rnd: u8|
                step_outcome(
                    old(self)@,
                    old(ram)@,
                    *old(display),
                    key,
                    rnd,
                    r,
                    final(self)@,
                    final(ram)@,
                    *final(display),
                ),
    {
        let rnd = match self.fetch_decode(ram) {
            Ok(Instruction::Random { .. }) => random_byte(),
            _ => 0,
        };
        self.step(ram, display, key, rnd)
    }
}

/// Copies the `n`-byte sprite at `start` out of memory.
fn read_sprite(ram: &Ram, start: u16, n: u8) -> (r: Vec<u8>)
    requires
        start + n <= MEMORY_SIZE,
        n < 16,
    ensures
        r@ == ram@.subrange(start as int, start + n),
        r@.len() <= MAX_SPRITE_ROWS,
{
    let mut sprite: Vec<u8> = Vec::new();
    let mut k: usize = 0;
    while k < n as usize
        invariant
            start + n <= MEMORY_SIZE,
            k <= n,
            sprite@ == ram@.subrange(start as int, start + k),
        decreases n - k,
    {
        sprite.push(ram.memory[start as usize + k]);
        k = k + 1;
        assert(sprite@ =~= ram@.subrange(start as int, start + k));
    }
    sprite
}

} // verus!
