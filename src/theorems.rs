use crate::cpu::{
    advanced, cpu_after, fetch_in_range, instr_error, mem_after, opcode_at, step_outcome,
    timers_after_cycle, CpuView, FLAG, STACK_EMPTY,
};
use crate::display::{covers, on_grid, Display};
use crate::error::Chip8Error;
use crate::key::Key;
use crate::memory::MEMORY_SIZE;
use crate::opcode::{decode_spec, Instruction};
use vstd::prelude::*;

verus! {

/// `6xkk` followed by `7xkk`, for a register `x` other than the flag
/// register, leaves `Vx == (kk1 + kk2) mod 256` and sets the flag register
/// to 1 exactly when `kk1 + kk2` exceeds 255.
pub proof fn load_then_add_wraps_with_carry(
    c0: CpuView,
    m0: Seq<u8>,
    d0: Display,
    key: Option<Key>,
    rnd: u8,
    x: u8,
    kk1: u8,
    kk2: u8,
    r1: Result<(), Chip8Error>,
    c1: CpuView,
    m1: Seq<u8>,
    d1: Display,
    r2: Result<(), Chip8Error>,
    c2: CpuView,
    m2: Seq<u8>,
    d2: Display,
)
    requires
        x < 15,
        c0.v.len() == 16,
        m0.len() == MEMORY_SIZE,
        c0.pc + 3 < MEMORY_SIZE,
        m0[c0.pc as int] == 0x60 + x,
        m0[c0.pc + 1] == kk1,
        m0[c0.pc + 2] == 0x70 + x,
        m0[c0.pc + 3] == kk2,
        step_outcome(c0, m0, d0, key, rnd, r1, c1, m1, d1),
        step_outcome(c1, m1, d1, key, rnd, r2, c2, m2, d2),
    ensures
        r1 is Ok,
        r2 is Ok,
        c2.v[x as int] == (kk1 + kk2) % 256,
        c2.v[FLAG as int] == (if kk1 + kk2 > 255 {
            1u8
        } else {
            0u8
        }),
{
    assert(opcode_at(c0, m0) == 0x6000 + x * 256 + kk1);
    assert(decode_spec(opcode_at(c0, m0)) == Some(Instruction::LoadImm { x, kk: kk1 }));
    assert(c1.pc == c0.pc + 2);
    assert(m1 == m0);
    assert(opcode_at(c1, m1) == 0x7000 + x * 256 + kk2);
    assert(decode_spec(opcode_at(c1, m1)) == Some(Instruction::AddImm { x, kk: kk2 }));
    assert(c1.v[x as int] == kk1);
}

/// `8xy6` puts bit 0 of `Vx` as it was before the shift into the flag
/// register and halves `Vx`; `8xyE` puts bit 7 of `Vx` as it was before the
/// shift into the flag register and doubles `Vx` modulo 256.
pub proof fn shifts_flag_the_bit_shifted_out(
    c: CpuView,
    mem: Seq<u8>,
    d: Display,
    key: Option<Key>,
    rnd: u8,
    x: u8,
)
    requires
        x < 15,
        c.v.len() == 16,
    ensures
        cpu_after(c, mem, d, Instruction::ShiftRight { x }, key, rnd).v[FLAG as int] == c.v[x as int]
            % 2,
        cpu_after(c, mem, d, Instruction::ShiftRight { x }, key, rnd).v[x as int] == c.v[x as int]
            / 2,
        cpu_after(c, mem, d, Instruction::ShiftLeft { x }, key, rnd).v[FLAG as int] == c.v[x as int]
            / 128,
        cpu_after(c, mem, d, Instruction::ShiftLeft { x }, key, rnd).v[x as int] == (c.v[x as int]
            * 2) % 256,
{
}

/// A call `2nnn` followed by the return `00EE` at `nnn` brings the program
/// counter to the instruction after the call and the stack pointer back.
pub proof fn call_then_return_resumes_after_call(
    c0: CpuView,
    m0: Seq<u8>,
    d0: Display,
    key: Option<Key>,
    rnd: u8,
    nnn: u16,
    r1: Result<(), Chip8Error>,
    c1: CpuView,
    m1: Seq<u8>,
    d1: Display,
    r2: Result<(), Chip8Error>,
    c2: CpuView,
    m2: Seq<u8>,
    d2: Display,
)
    requires
        c0.sp <= STACK_EMPTY,
        c0.stack.len() == 16,
        m0.len() == MEMORY_SIZE,
        fetch_in_range(c0),
        nnn < 4096,
        m0[c0.pc as int] == 0x20 + nnn / 256,
        m0[c0.pc + 1] == nnn % 256,
        nnn + 1 < MEMORY_SIZE,
        m0[nnn as int] == 0x00,
        m0[nnn + 1] == 0xEE,
        step_outcome(c0, m0, d0, key, rnd, r1, c1, m1, d1),
        step_outcome(c1, m1, d1, key, rnd, r2, c2, m2, d2),
    ensures
        c0.sp > 0 ==> r1 is Ok && r2 is Ok && c2.pc == c0.pc + 2 && c2.sp == c0.sp,
        c0.sp == 0 ==> r1 == Err::<(), Chip8Error>(Chip8Error::StackOverflow),
{
    assert(opcode_at(c0, m0) == 0x2000 + nnn);
    assert(decode_spec(opcode_at(c0, m0)) == Some(Instruction::Call { nnn }));
    if c0.sp > 0 {
        assert(c1.pc == nnn);
        assert(opcode_at(c1, m1) == 0x00EE);
    }
}

/// The processor after `n` calls to `nnn`, each made from the same
/// program counter.
pub open spec fn after_calls(c: CpuView, mem: Seq<u8>, d: Display, nnn: u16, n: nat) -> CpuView
    decreases n,
{
    if n == 0 {
        c
    } else {
        cpu_after(
            advanced(after_calls(c, mem, d, nnn, (n - 1) as nat)),
            mem,
            d,
            Instruction::Call { nnn },
            None,
            0,
        )
    }
}

proof fn lemma_call_depth(c: CpuView, mem: Seq<u8>, d: Display, nnn: u16, n: nat)
    requires
        c.sp == STACK_EMPTY,
        n <= 16,
    ensures
        after_calls(c, mem, d, nnn, n).sp == STACK_EMPTY - n,
    decreases n,
{
    if n > 0 {
        lemma_call_depth(c, mem, d, nnn, (n - 1) as nat);
    }
}

/// From an empty stack, each of sixteen nested calls succeeds and takes one
/// stack slot; a seventeenth call fails with a stack overflow.
pub proof fn sixteen_calls_then_overflow(c: CpuView, mem: Seq<u8>, d: Display, nnn: u16, n: nat)
    requires
        c.sp == STACK_EMPTY,
        n <= 16,
    ensures
        n < 16 ==> instr_error(advanced(after_calls(c, mem, d, nnn, n)), Instruction::Call { nnn })
            is None,
        after_calls(c, mem, d, nnn, n).sp == STACK_EMPTY - n,
        instr_error(advanced(after_calls(c, mem, d, nnn, 16)), Instruction::Call { nnn }) == Some(
            Chip8Error::StackOverflow,
        ),
{
    lemma_call_depth(c, mem, d, nnn, n);
    lemma_call_depth(c, mem, d, nnn, 16);
}

/// A return with an empty stack fails with a stack underflow.
pub proof fn return_on_empty_stack_underflows(c: CpuView)
    requires
        c.sp == STACK_EMPTY,
    ensures
        instr_error(advanced(c), Instruction::Return) == Some(Chip8Error::StackUnderflow),
{
}

/// Drawing a sprite twice at the same place restores every pixel, and the
/// second draw reports a collision exactly when the sprite has a lit bit
/// over a pixel that was unset before the first draw.
pub proof fn draw_twice_restores(
    d0: Display,
    d1: Display,
    d2: Display,
    sprite: Seq<u8>,
    x: int,
    y: int,
)
    requires
        forall|r: int, c: int|
            on_grid(r, c) ==> #[trigger] d1.pixel(r, c) == d0.pixel_after_draw(sprite, x, y, r, c),
        forall|r: int, c: int|
            on_grid(r, c) ==> #[trigger] d2.pixel(r, c) == d1.pixel_after_draw(sprite, x, y, r, c),
    ensures
        forall|r: int, c: int| on_grid(r, c) ==> #[trigger] d2.pixel(r, c) == d0.pixel(r, c),
        d1.collides(sprite, x, y) <==> exists|r: int, c: int|
            on_grid(r, c) && !d0.pixel(r, c) && covers(sprite, x, y, r, c),
{
    if d1.collides(sprite, x, y) {
        let (r, c) = choose|r: int, c: int|
            on_grid(r, c) && d1.pixel(r, c) && covers(sprite, x, y, r, c);
        assert(on_grid(r, c) && !d0.pixel(r, c) && covers(sprite, x, y, r, c));
    }
    if exists|r: int, c: int| on_grid(r, c) && !d0.pixel(r, c) && covers(sprite, x, y, r, c) {
        let (r, c) = choose|r: int, c: int|
            on_grid(r, c) && !d0.pixel(r, c) && covers(sprite, x, y, r, c);
        assert(on_grid(r, c) && d1.pixel(r, c) && covers(sprite, x, y, r, c));
    }
}

/// A sprite with a lit bit drawn twice onto a blank buffer collides on the
/// second draw.
pub proof fn redraw_on_blank_collides(
    d0: Display,
    d1: Display,
    sprite: Seq<u8>,
    x: int,
    y: int,
    r: int,
    c: int,
)
    requires
        d0.is_blank(),
        on_grid(r, c),
        covers(sprite, x, y, r, c),
        forall|rr: int, cc: int|
            on_grid(rr, cc) ==> #[trigger] d1.pixel(rr, cc) == d0.pixel_after_draw(
                sprite,
                x,
                y,
                rr,
                cc,
            ),
    ensures
        d1.collides(sprite, x, y),
{
    assert(d1.pixel(r, c));
}

/// The processor after `n` cycles of the timer clock.
pub open spec fn after_cycles(c: CpuView, n: nat) -> CpuView
    decreases n,
{
    if n == 0 {
        c
    } else {
        timers_after_cycle(after_cycles(c, (n - 1) as nat))
    }
}

/// While the clock runs, `n` cycles take the delay timer down by `n`,
/// stopping at zero.
pub proof fn cycles_count_delay_down(c: CpuView, n: nat)
    requires
        c.running,
    ensures
        after_cycles(c, n).running,
        after_cycles(c, n).v == c.v,
        after_cycles(c, n).delay == (if n >= c.delay {
            0
        } else {
            c.delay - n
        }),
    decreases n,
{
    if n > 0 {
        cycles_count_delay_down(c, (n - 1) as nat);
    }
}

/// With the clock running, setting the delay timer to `Vx == N` with `Fx15`
/// and letting the clock run `N` cycles makes `Fy07` read zero.
pub proof fn delay_reads_zero_after_its_count(
    c: CpuView,
    mem: Seq<u8>,
    d: Display,
    key: Option<Key>,
    rnd: u8,
    x: u8,
    y: u8,
)
    requires
        c.running,
        c.v.len() == 16,
        x < 16,
        y < 16,
    ensures
        cpu_after(
            after_cycles(
                cpu_after(c, mem, d, Instruction::SetDelay { x }, key, rnd),
                c.v[x as int] as nat,
            ),
            mem,
            d,
            Instruction::ReadDelay { x: y },
            key,
            rnd,
        ).v[y as int] == 0,
{
    let c1 = cpu_after(c, mem, d, Instruction::SetDelay { x }, key, rnd);
    cycles_count_delay_down(c1, c.v[x as int] as nat);
}

/// `Fx55` writes exactly `V0..=Vx` to `I..=I+x` and leaves the rest of
/// memory alone; `Fx65` loads exactly `V0..=Vx` from `I..=I+x` and leaves
/// the other registers alone.
pub proof fn block_copies_registers_zero_to_x(
    c: CpuView,
    mem: Seq<u8>,
    d: Display,
    key: Option<Key>,
    rnd: u8,
    x: u8,
)
    requires
        x < 16,
        c.v.len() == 16,
        mem.len() == MEMORY_SIZE,
        c.i + x + 1 <= MEMORY_SIZE,
    ensures
        instr_error(c, Instruction::StoreRegs { x }) is None,
        instr_error(c, Instruction::LoadRegs { x }) is None,
        forall|a: int|
            0 <= a < MEMORY_SIZE ==> #[trigger] mem_after(c, mem, Instruction::StoreRegs { x })[a]
                == if c.i <= a <= c.i + x {
                c.v[a - c.i]
            } else {
                mem[a]
            },
        forall|k: int|
            0 <= k < 16 ==> #[trigger] cpu_after(c, mem, d, Instruction::LoadRegs { x }, key, rnd).v[k]
                == if k <= x {
                mem[c.i + k]
            } else {
                c.v[k]
            },
{
}

} // verus!
