//! The processor: register file, arithmetic unit, instruction set and the
//! interrupt protocol.

use vstd::prelude::*;
use crate::bits::{bit_of, clear_bit, test_bit, without_bit};
use crate::mem::{lemma_same_memory, lemma_write_keeps_intf, next_addr, Memory, MemoryView, Speed,
    SystemRegs};
use crate::Target;

pub mod alu;
pub mod decode;
pub mod instructions;
pub mod registers;

use instructions::{exec_spec, Outcome};
use registers::{wrap16, Registers};

verus! {

/// The five interrupt sources, in order of priority.
#[derive(Debug, Clone, Copy, PartialEq, Eq, Structural)]
pub enum Interrupts {
    VBlank,
    LCDStat,
    Timer,
    Serial,
    Joypad,
}

impl Interrupts {
    /// Index of the source's bit in the pending and enable masks.
    pub open spec fn index(self) -> u8 {
        match self {
            Interrupts::VBlank => 0,
            Interrupts::LCDStat => 1,
            Interrupts::Timer => 2,
            Interrupts::Serial => 3,
            Interrupts::Joypad => 4,
        }
    }

    /// The source's bit as a mask.
    pub open spec fn spec_mask(self) -> u8 {
        match self {
            Interrupts::VBlank => 0x01,
            Interrupts::LCDStat => 0x02,
            Interrupts::Timer => 0x04,
            Interrupts::Serial => 0x08,
            Interrupts::Joypad => 0x10,
        }
    }

    /// The source's bit in the pending and enable masks.
    #[verifier::when_used_as_spec(spec_mask)]
    pub fn mask(self) -> (m: u8)
        ensures
            m == self.spec_mask(),
    {
        match self {
            Interrupts::VBlank => 0x01,
            Interrupts::LCDStat => 0x02,
            Interrupts::Timer => 0x04,
            Interrupts::Serial => 0x08,
            Interrupts::Joypad => 0x10,
        }
    }

    /// Address of the routine that serves the source.
    pub open spec fn vector(self) -> u16 {
        (0x40 + 8 * self.index()) as u16
    }
}

/// Index of the lowest bit that is set in `v`; 8 if none is.
pub open spec fn lowest_bit(v: u8) -> u8 {
    if bit_of(v, 0) {
        0
    } else if bit_of(v, 1) {
        1
    } else if bit_of(v, 2) {
        2
    } else if bit_of(v, 3) {
        3
    } else if bit_of(v, 4) {
        4
    } else if bit_of(v, 5) {
        5
    } else if bit_of(v, 6) {
        6
    } else if bit_of(v, 7) {
        7
    } else {
        8
    }
}

/// A byte that is not zero has a bit set.
pub proof fn lemma_nonzero_has_bit(v: u8)
    by (bit_vector)
    requires
        v != 0,
    ensures
        bit_of(v, 0) || bit_of(v, 1) || bit_of(v, 2) || bit_of(v, 3) || bit_of(v, 4) || bit_of(v, 5)
            || bit_of(v, 6) || bit_of(v, 7),
{
}

/// Finds the lowest bit that is set in a byte; 8 if none is.
pub fn find_lowest_bit(v: u8) -> (i: u8)
    ensures
        i == lowest_bit(v),
        v != 0 ==> i < 8,
{
    proof {
        if v != 0 {
            lemma_nonzero_has_bit(v);
        }
    }
    let mut i: u8 = 0;
    while i < 8 && !test_bit(v, i)
        invariant
            i <= 8,
            forall|j: u8| j < i ==> !bit_of(v, j),
        decreases 8 - i,
    {
        i += 1;
    }
    i
}

/// The interrupts that are both pending and enabled.
pub open spec fn requested(mem: MemoryView) -> u8 {
    mem.sys.intf & mem.sys.inte
}

/// Whether the processor takes an interrupt: it serves them or waits for
/// one, and one is pending and enabled.
pub open spec fn takes_interrupt(regs: Registers, mem: MemoryView) -> bool {
    (regs.ime != 0 || regs.halt != 0) && requested(mem) != 0
}

/// The registers and the bus after the processor looked for an interrupt.
/// If it takes one, it is the one with the lowest bit: the processor wakes
/// up, serves no further interrupt, and calls the routine of the source; the
/// source is no longer pending if interrupts were served before. This takes
/// one machine cycle.
pub open spec fn service_spec(regs: Registers, mem: MemoryView) -> Outcome {
    if takes_interrupt(regs, mem) {
        let i = lowest_bit(requested(mem));
        let cleared = if regs.ime != 0 {
            MemoryView { sys: SystemRegs { intf: without_bit(mem.sys.intf, i), ..mem.sys }, ..mem }
        } else {
            mem
        };
        let awake = Registers { ime: 0, halt: 0, stop: 0, ..regs };
        if i < 5 {
            Outcome {
                regs: awake.spec_rst((0x40 + 8 * i) as u16),
                mem: cleared.write_word(wrap16(regs.sp - 2), regs.pc),
                ticks: 1,
            }
        } else {
            Outcome { regs: awake, mem: cleared, ticks: 1 }
        }
    } else {
        Outcome { regs, mem, ticks: 0 }
    }
}

/// The registers and the bus after the processor ran an instruction or, if
/// it is halted or stopped, idled for one machine cycle. A stopped
/// processor carries out a change of speed that the program asked for and
/// goes on.
pub open spec fn run_spec(regs: Registers, mem: MemoryView) -> Outcome {
    if regs.halt == 0 && regs.stop == 0 {
        exec_spec(mem.read_byte(regs.pc), regs.skip(1), mem)
    } else if regs.stop != 0 && mem.sys.speed_switch {
        Outcome { regs: Registers { stop: 0, ..regs }, mem: mem.switch_speed(), ticks: 1 }
    } else {
        Outcome { regs, mem, ticks: 1 }
    }
}

/// Base-clock cycles in one machine cycle.
pub open spec fn cycles_per_tick(speed: Speed) -> u32 {
    match speed {
        Speed::Normal => 4,
        Speed::Double => 2,
    }
}

/// One step of the processor: the delay that enables interrupts moves on,
/// an instruction runs or the processor idles, and an interrupt is taken
/// if one is due. The cycles are base-clock cycles.
#[verifier::opaque]
pub open spec fn cpu_step_spec(regs: Registers, mem: MemoryView) -> Outcome {
    let ran = run_spec(regs.spec_interrupt_step(), mem);
    let served = service_spec(ran.regs, ran.mem);
    Outcome {
        regs: served.regs,
        mem: served.mem,
        ticks: ((ran.ticks + served.ticks) * cycles_per_tick(served.mem.sys.speed)) as u32,
    }
}

/// The processor.
pub struct CPU {
    pub regs: Registers,
}

impl CPU {
    /// A processor with its registers as the boot program leaves them.
    pub fn new(_target: Target) -> (cpu: CPU)
        ensures
            cpu.regs == Registers::initial(),
            cpu.regs.wf(),
    {
        CPU { regs: Registers::new() }
    }

    /// Sends the processor back to the start of the address space.
    pub fn reset(&mut self)
        ensures
            final(self).regs == (Registers { pc: 0, ..old(self).regs }),
    {
        self.regs.pc = 0;
    }

    /// Runs one instruction, or idles for one machine cycle if the
    /// processor is halted or stopped.
    pub fn run_cycle(&mut self, mem: &mut Memory) -> (ticks: u32)
        requires
            old(self).regs.wf(),
            old(mem).wf(),
        ensures
            final(self).regs.wf(),
            final(mem).wf(),
            final(self).regs == run_spec(old(self).regs, old(mem)@).regs,
            final(mem)@ == run_spec(old(self).regs, old(mem)@).mem,
            ticks == run_spec(old(self).regs, old(mem)@).ticks,
            ticks <= 8,
    {
        if self.regs.halt == 0 && self.regs.stop == 0 {
            let pc: u16 = self.regs.adv();
            let opcode: u8 = mem.read_byte(pc);
            instructions::exec(opcode, &mut self.regs, mem)
        } else {
            if self.regs.stop != 0 && mem.sys.speed_switch {
                mem.switch_speed();
                self.regs.stop = 0;
            }
            1
        }
    }

    /// Takes the interrupt of the highest priority that is pending and
    /// enabled, if the processor serves interrupts or waits for one.
    pub fn service_interrupts(&mut self, mem: &mut Memory) -> (ticks: u32)
        requires
            old(self).regs.wf(),
            old(mem).wf(),
        ensures
            final(self).regs.wf(),
            final(mem).wf(),
            final(self).regs == service_spec(old(self).regs, old(mem)@).regs,
            final(mem)@ == service_spec(old(self).regs, old(mem)@).mem,
            ticks == service_spec(old(self).regs, old(mem)@).ticks,
            ticks <= 1,
    {
        if self.regs.ime == 0 && self.regs.halt == 0 {
            return 0;
        }
        let ints: u8 = mem.sys.intf & mem.sys.inte;
        if ints == 0 {
            return 0;
        }
        let i: u8 = find_lowest_bit(ints);
        if self.regs.ime != 0 {
            let sys = mem.sys;
            mem.sys = SystemRegs { intf: clear_bit(sys.intf, i), ..sys };
        }
        proof {
            let cleared = if old(self).regs.ime != 0 {
                MemoryView {
                    sys: SystemRegs { intf: without_bit(old(mem)@.sys.intf, i), ..old(mem)@.sys },
                    ..old(mem)@
                }
            } else {
                old(mem)@
            };
            lemma_same_memory(mem@, cleared);
        }
        self.regs.ime = 0;
        self.regs.halt = 0;
        self.regs.stop = 0;
        if i < 5 {
            self.regs.rst(0x40 + 8 * i as u16, mem);
        }
        1
    }

    /// Runs the processor for one step and returns the base-clock cycles
    /// that went by.
    pub fn exec(&mut self, mem: &mut Memory) -> (ticks: u32)
        requires
            old(self).regs.wf(),
            old(mem).wf(),
        ensures
            final(self).regs.wf(),
            final(mem).wf(),
            final(self).regs == cpu_step_spec(old(self).regs, old(mem)@).regs,
            final(mem)@ == cpu_step_spec(old(self).regs, old(mem)@).mem,
            ticks == cpu_step_spec(old(self).regs, old(mem)@).ticks,
            ticks <= 36,
    {
        reveal(cpu_step_spec);
        self.regs.interrupt_step();
        let ran: u32 = self.run_cycle(mem);
        let served: u32 = self.service_interrupts(mem);
        match mem.sys.speed {
            Speed::Normal => (ran + served) * 4,
            Speed::Double => (ran + served) * 2,
        }
    }
}

/// A byte that stands for no instruction stalls the processor: running it
/// leaves the registers and the bus as they were, with the program counter
/// on that byte again, and takes no cycle.
pub proof fn law_undefined_opcode_stalls(regs: Registers, mem: MemoryView)
    requires
        regs.halt == 0,
        regs.stop == 0,
        decode::decode_spec(mem.read_byte(regs.pc)) == decode::Instr::Undefined,
    ensures
        run_spec(regs, mem) == (Outcome { regs, mem, ticks: 0 }),
{
    reveal(instructions::undefined_spec);
    let fetched = regs.skip(1);
    assert(fetched.skip(-1) == regs);
}

/// Between two interrupts that are pending and enabled the one with the
/// lower bit is taken first, and taking it leaves the other pending: with
/// interrupts served, the processor jumps to the routine of the lower
/// source and takes only that source's bit out of the pending mask. The
/// stack must not lie on the register of the pending interrupts, where the
/// pushed program counter would overwrite the mask.
pub proof fn law_interrupt_priority(regs: Registers, mem: MemoryView, first: Interrupts, second: Interrupts)
    requires
        regs.ime != 0,
        wrap16(regs.sp - 2) != 0xFF0F,
        wrap16(regs.sp - 1) != 0xFF0F,
        first.index() < second.index(),
        bit_of(mem.sys.intf, first.index()),
        bit_of(mem.sys.inte, first.index()),
        bit_of(mem.sys.intf, second.index()),
        bit_of(mem.sys.inte, second.index()),
        forall|j: u8| j < first.index() ==> !(bit_of(mem.sys.intf, j) && bit_of(mem.sys.inte, j)),
    ensures
        takes_interrupt(regs, mem),
        lowest_bit(requested(mem)) == first.index(),
        service_spec(regs, mem).regs.pc == first.vector(),
        service_spec(regs, mem).regs.ime == 0,
        service_spec(regs, mem).mem.sys.intf == without_bit(mem.sys.intf, first.index()),
        bit_of(service_spec(regs, mem).mem.sys.intf, second.index()),
        !bit_of(service_spec(regs, mem).mem.sys.intf, first.index()),
{
    let intf = mem.sys.intf;
    let inte = mem.sys.inte;
    let i = first.index();
    lemma_and_bits(intf, inte, 0);
    lemma_and_bits(intf, inte, 1);
    lemma_and_bits(intf, inte, 2);
    lemma_and_bits(intf, inte, 3);
    lemma_and_bits(intf, inte, 4);
    lemma_bit_means_nonzero(intf & inte, i);
    crate::bits::lemma_without_bit(intf, i, second.index());
    crate::bits::lemma_without_bit(intf, i, i);
    let cleared = MemoryView { sys: SystemRegs { intf: without_bit(intf, i), ..mem.sys }, ..mem };
    let at = wrap16(regs.sp - 2);
    lemma_write_keeps_intf(cleared, at, (regs.pc % 256) as u8);
    lemma_write_keeps_intf(
        cleared.write_byte(at, (regs.pc % 256) as u8),
        next_addr(at),
        (regs.pc / 256) as u8,
    );
}

/// A bit of the conjunction of two bytes is set where it is set in both.
pub proof fn lemma_and_bits(a: u8, b: u8, k: u8)
    by (bit_vector)
    requires
        k < 8,
    ensures
        bit_of(a & b, k) == (bit_of(a, k) && bit_of(b, k)),
{
}

/// A byte with a bit set is not zero.
pub proof fn lemma_bit_means_nonzero(v: u8, k: u8)
    by (bit_vector)
    requires
        k < 8,
        bit_of(v, k),
    ensures
        v != 0,
{
}

} // verus!
