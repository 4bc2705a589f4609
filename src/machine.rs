use crate::cpu::{step_outcome, Cpu, CpuView, is_power_on, timers_after_cycle};
use crate::display::{Display, HEIGHT, WIDTH};
use crate::error::Chip8Error;
use crate::key::Key;
use crate::memory::{font_glyphs, program_fits, splice, Ram, Rom, FONT_START, MEMORY_SIZE, PROGRAM_START};
use vstd::prelude::*;

verus! {

/// Memory of a machine freshly loaded with `program`: zero but for the font
/// and the program.
pub open spec fn loaded_memory(program: Seq<u8>) -> Seq<u8> {
    splice(
        splice(Seq::new(MEMORY_SIZE as nat, |a: int| 0u8), FONT_START as int, font_glyphs()),
        PROGRAM_START as int,
        program,
    )
}

/// A read-only copy of the processor state, for diagnostics.
#[derive(Clone, Copy, Debug)]
pub struct DebugSnapshot {
    pub v: [u8; 16],
    pub i: u16,
    pub pc: u16,
    pub sp: u8,
    pub stack: [u16; 16],
    pub delay_timer: u8,
    pub sound_timer: u8,
}

/// A whole machine: program image, memory, processor and frame buffer.
pub struct Chip8Core {
    pub rom: Rom,
    pub ram: Ram,
    pub cpu: Cpu,
    pub display: Display,
}

impl Chip8Core {
    /// The processor's stack pointer is within range.
    pub open spec fn wf(&self) -> bool {
        self.cpu.wf()
    }

    /// A machine with the font and `rom_bytes` loaded, in its power-on state.
    /// Fails where the program does not fit in memory.
    pub fn new(rom_bytes: Vec<u8>) -> (r: Result<Chip8Core, Chip8Error>)
        ensures
            program_fits(rom_bytes@.len() as int) <==> r is Ok,
            !program_fits(rom_bytes@.len() as int) ==> r == Err::<Chip8Core, Chip8Error>(
                Chip8Error::OutOfBounds,
            ),
            r is Ok ==> {
                let m = r.unwrap();
                &&& m.wf()
                &&& is_power_on(m.cpu@)
                &&& m.ram@ == loaded_memory(rom_bytes@)
                &&& m.display.is_blank()
                &&& m.rom.data@ == rom_bytes@
            },
    {
        let rom = Rom::new(rom_bytes);
        let mut ram = Ram::new();
        proof {
            assert(ram@ =~= Seq::new(MEMORY_SIZE as nat, |a: int| 0u8));
        }
        match ram.load_rom(&rom) {
            Ok(()) => {},
            Err(e) => {
                return Err(e);
            },
        }
        Ok(Chip8Core { rom: rom, ram: ram, cpu: Cpu::new(), display: Display::new() })
    }

    /// Runs one instruction with `rnd` as the random byte for `Cxkk`.
    /// On failure nothing changes.
    pub fn step(&mut self, key: Option<Key>, rnd: u8) -> (r: Result<(), Chip8Error>)
        requires
            old(self).wf(),
        ensures
            final(self).wf(),
            final(self).rom == old(self).rom,
            step_outcome(
                old(self).cpu@,
                old(self).ram@,
                old(self).display,
                key,
                rnd,
                r,
                final(self).cpu@,
                final(self).ram@,
                final(self).display,
            ),
    {
        self.cpu.step(&mut self.ram, &mut self.display, key, rnd)
    }

    /// Runs one instruction, drawing a random byte where it is `Cxkk`.
    /// On failure nothing changes.
    pub fn tick(&mut self, key: Option<Key>) -> (r: Result<(), Chip8Error>)
        requires
            old(self).wf(),
        ensures
            final(self).wf(),
            final(self).rom == old(self).rom,
            exists|rnd: u8|
                step_outcome(
                    old(self).cpu@,
                    old(self).ram@,
                    old(self).display,
                    key,
                    rnd,
                    r,
                    final(self).cpu@,
                    final(self).ram@,
                    final(self).display,
                ),
    {
        let ghost c0 = self.cpu@;
        let ghost m0 = self.ram@;
        let ghost d0 = self.display;
        let r = self.cpu.tick(&mut self.ram, key, &mut self.display);
        proof {
            let rnd = choose|rnd: u8|
                step_outcome(c0, m0, d0, key, rnd, r, self.cpu@, self.ram@, self.display);
            assert(step_outcome(c0, m0, d0, key, rnd, r, self.cpu@, self.ram@, self.display));
        }
        r
    }

    /// Starts the timer clock.
    pub fn run(&mut self)
        ensures
            final(self).cpu@ == (CpuView { running: true, ..old(self).cpu@ }),
            final(self).ram@ == old(self).ram@,
            final(self).display == old(self).display,
            final(self).rom == old(self).rom,
    {
        self.cpu.run();
    }

    /// Stops the timer clock; it halts at its next cycle.
    pub fn stop(&mut self)
        ensures
            final(self).cpu@ == (CpuView { running: false, ..old(self).cpu@ }),
            final(self).ram@ == old(self).ram@,
            final(self).display == old(self).display,
            final(self).rom == old(self).rom,
    {
        self.cpu.stop();
    }

    /// One cycle of the timer clock. Returns whether the clock is still
    /// running; the host's clock loop ends when it is not.
    pub fn timer_cycle(&mut self) -> (running: bool)
        ensures
            final(self).cpu@ == timers_after_cycle(old(self).cpu@),
            running == old(self).cpu@.running,
            final(self).ram@ == old(self).ram@,
            final(self).display == old(self).display,
            final(self).rom == old(self).rom,
    {
        self.cpu.timer_cycle()
    }

    /// The frame buffer, row by row.
    pub fn get_display_data(&self) -> (r: [[bool; WIDTH]; HEIGHT])
        ensures
            r == self.display.data,
    {
        self.display.data
    }

    /// Whether the sound timer is above zero.
    pub fn sound_active(&self) -> (r: bool)
        ensures
            r == (self.cpu@.sound != 0),
    {
        self.cpu.sound_timer != 0
    }

    /// A copy of registers, program counter, stack and timers.
    pub fn debug_snapshot(&self) -> (r: DebugSnapshot)
        ensures
            r.v@ == self.cpu@.v,
            r.i == self.cpu@.i,
            r.pc == self.cpu@.pc,
            r.sp == self.cpu@.sp,
            r.stack@ == self.cpu@.stack,
            r.delay_timer == self.cpu@.delay,
            r.sound_timer == self.cpu@.sound,
    {
        DebugSnapshot {
            v: self.cpu.v,
            i: self.cpu.i,
            pc: self.cpu.pc,
            sp: self.cpu.sp,
            stack: self.cpu.stack,
            delay_timer: self.cpu.delay_timer,
            sound_timer: self.cpu.sound_timer,
        }
    }
}

} // verus!
