//! The whole machine: processor and bus, stepped together one frame at a time.

use vstd::prelude::*;
use crate::cpu::registers::Registers;
use crate::cpu::{cpu_step_spec, Interrupts, CPU};
use crate::gpu::palette::Color;
use crate::gpu::render::pixel_at;
use crate::gpu::{HEIGHT, WIDTH};
use crate::cpu::decode::{decode, decode_spec, Instr};
use crate::mem::cartridge::{load_error, loaded, save_view, title_chars, Cartridge, LoadError, TITLE};
use crate::mem::{lemma_same_memory, Memory, MemoryView, SystemRegs};
use crate::{Button, Target};

verus! {

/// Base-clock cycles in one frame: 154 lines of 456 cycles.
pub const FRAME_CYCLES: u32 = 70224;

/// An emulated console with a cartridge in its slot.
pub struct Gameboy {
    cpu: CPU,
    mem: Memory,
    fps: u32,
    cycles: u32,
    /// Title of the game, from the header of the cartridge.
    pub title: String,
}

/// The mathematical model of the machine.
pub struct GameboyView {
    pub regs: Registers,
    pub mem: MemoryView,
    /// Frames counted since the count was last read.
    pub fps: u32,
    /// Cycles of the current frame that have gone by.
    pub cycles: int,
    /// Title of the game.
    pub title: Seq<char>,
}

impl View for Gameboy {
    type V = GameboyView;

    closed spec fn view(&self) -> GameboyView {
        GameboyView {
            regs: self.cpu.regs,
            mem: self.mem@,
            fps: self.fps,
            cycles: self.cycles as int,
            title: self.title@,
        }
    }
}

/// The registers that the boot program sets, in the order in which it
/// writes them, each with its value.
pub open spec fn power_on_writes() -> Seq<(u16, u8)> {
    seq![
        (0xFF05u16, 0x00u8),
        (0xFF06u16, 0x00u8),
        (0xFF07u16, 0x00u8),
        (0xFF10u16, 0x80u8),
        (0xFF11u16, 0xBFu8),
        (0xFF12u16, 0xF3u8),
        (0xFF14u16, 0xBFu8),
        (0xFF16u16, 0x3Fu8),
        (0xFF17u16, 0x00u8),
        (0xFF19u16, 0xBFu8),
        (0xFF1Au16, 0x7Fu8),
        (0xFF1Bu16, 0xFFu8),
        (0xFF1Cu16, 0x9Fu8),
        (0xFF1Eu16, 0xBFu8),
        (0xFF20u16, 0xFFu8),
        (0xFF21u16, 0x00u8),
        (0xFF22u16, 0x00u8),
        (0xFF23u16, 0xBFu8),
        (0xFF24u16, 0x77u8),
        (0xFF25u16, 0xF3u8),
        (0xFF26u16, 0xF1u8),
        (0xFF40u16, 0x91u8),
        (0xFF42u16, 0x00u8),
        (0xFF43u16, 0x00u8),
        (0xFF45u16, 0x00u8),
        (0xFF47u16, 0xFCu8),
        (0xFF48u16, 0xFFu8),
        (0xFF49u16, 0xFFu8),
        (0xFF4Au16, 0x00u8),
        (0xFF4Bu16, 0x00u8),
        (0xFFFFu16, 0x00u8),
    ]
}

/// The two palette index registers that the boot program of the color
/// machine sets on top.
pub open spec fn power_on_color_writes() -> Seq<(u16, u8)> {
    seq![(0xFF68u16, 0xC0u8), (0xFF6Au16, 0xC0u8)]
}

/// The bus after the first `n` of a sequence of writes.
pub open spec fn written(mem: MemoryView, writes: Seq<(u16, u8)>, n: int) -> MemoryView
    decreases n,
{
    if n <= 0 {
        mem
    } else {
        written(mem, writes, n - 1).write_byte(writes[n - 1].0, writes[n - 1].1)
    }
}

/// The bus after the boot program set the registers.
pub open spec fn powered_on(mem: MemoryView) -> MemoryView {
    let basic = written(mem, power_on_writes(), 31);
    if mem.sys.target == Target::GameBoyColor {
        written(basic, power_on_color_writes(), 2)
    } else {
        basic
    }
}

/// Cycles that the current frame still has to run after `cycles` of it.
pub open spec fn cycles_left(cycles: int) -> int {
    if cycles < FRAME_CYCLES {
        FRAME_CYCLES - cycles
    } else {
        0
    }
}

impl GameboyView {
    /// The machine after one step of the processor, with the timer and the
    /// pixel unit moved on by the cycles that the step took.
    pub open spec fn stepped(self) -> GameboyView {
        let o = cpu_step_spec(self.regs, self.mem);
        GameboyView { regs: o.regs, mem: o.mem.step(o.ticks), cycles: self.cycles + o.ticks, ..self }
    }

    /// Whether the next step of the processor takes no time, which it does
    /// where it meets a byte that stands for no instruction.
    pub open spec fn stalls(self) -> bool {
        cpu_step_spec(self.regs, self.mem).ticks == 0
    }

    /// The machine after it ran to the end of the current frame: it steps
    /// until the cycles of a frame have gone by, and carries the cycles
    /// beyond into the next frame. A step that takes no time ends the run
    /// early, with the cycles so far kept.
    pub open spec fn ran(self) -> GameboyView
        decreases cycles_left(self.cycles),
    {
        if self.cycles >= FRAME_CYCLES {
            GameboyView { cycles: self.cycles - FRAME_CYCLES, ..self }
        } else if cpu_step_spec(self.regs, self.mem).ticks == 0 {
            self.stepped()
        } else {
            self.stepped().ran()
        }
    }

    /// The color of the pixel in column `x` of line `y`, if there is one.
    pub open spec fn pixel(self, x: int, y: int) -> Option<Color> {
        if 0 <= x < 160 && 0 <= y < 144 {
            Some(pixel_at(self.mem.gpu.image, y * 160 + x))
        } else {
            None
        }
    }
}

impl Gameboy {
    /// The processor and the bus are well formed and the cycles of the
    /// current frame fit within one frame and one step.
    pub closed spec fn wf(&self) -> bool {
        self.cpu.regs.wf() && self.mem.wf() && self.cycles < FRAME_CYCLES + 36
    }

    /// Builds the machine for the cartridge that a ROM image and, where a
    /// save file exists, a saved RAM make. The machine is the one that the
    /// header asks for; the boot program has set its registers.
    pub fn new(rom: Vec<u8>, save: Option<Vec<u8>>) -> (r: Result<Gameboy, LoadError>)
        ensures
            match r {
                Ok(gb) => {
                    let cart = loaded(rom@, save_view(save));
                    &&& load_error(rom@, save_view(save)) is None
                    &&& gb.wf()
                    &&& gb@.regs == Registers::initial()
                    &&& gb@.mem == powered_on(MemoryView::initial(cart.target())).with_cartridge(cart)
                    &&& gb@.cycles == 0
                    &&& gb@.fps == 0
                    &&& gb@.title == title_chars(cart.rom.subrange(TITLE as int, TITLE + 16), 0)
                },
                Err(e) => load_error(rom@, save_view(save)) == Some(e),
            },
    {
        let cart = match Cartridge::from_bytes(rom, save) {
            Ok(cart) => cart,
            Err(e) => {
                return Err(e);
            },
        };
        let target = cart.get_target();
        let title = cart.get_title();
        let ghost model = cart@;
        let mut mem = Memory::new(target);
        power_on(&mut mem);
        proof {
            crate::mem::lemma_with_cartridge(mem@, model);
        }
        mem.insert_cartridge(cart);
        Ok(Gameboy { cpu: CPU::new(target), mem, fps: 0, cycles: 0, title })
    }

    /// Sets the registers as the boot program does.
    pub fn power_on(&mut self)
        requires
            old(self).wf(),
        ensures
            final(self).wf(),
            final(self)@ == (GameboyView { mem: powered_on(old(self)@.mem), ..old(self)@ }),
    {
        power_on(&mut self.mem);
    }

    /// Runs the processor for one step and moves the timer and the pixel
    /// unit on by the cycles it took. Tells whether the step took no time.
    fn step(&mut self) -> (stalled: bool)
        requires
            old(self).wf(),
            old(self)@.cycles < FRAME_CYCLES,
        ensures
            final(self).wf(),
            final(self)@ == old(self)@.stepped(),
            stalled == old(self)@.stalls(),
    {
        let time: u32 = self.cpu.exec(&mut self.mem);
        self.mem.step(time);
        self.cycles = self.cycles + time;
        proof {
            let goal = old(self)@.stepped();
            assert(self@.regs == goal.regs);
            assert(self@.mem == goal.mem);
            assert(self@.cycles == goal.cycles);
            assert(self@.fps == goal.fps);
            assert(self@.title == goal.title);
        }
        time == 0
    }

    /// Runs the machine to the end of the current frame.
    pub fn run(&mut self)
        requires
            old(self).wf(),
        ensures
            final(self).wf(),
            final(self)@ == old(self)@.ran(),
    {
        let ghost goal = self@.ran();
        while self.cycles < FRAME_CYCLES
            invariant
                self.wf(),
                goal == old(self)@.ran(),
                self@.ran() == goal,
            decreases cycles_left(self.cycles as int),
        {
            let ghost before = self@;
            let stalled = self.step();
            proof {
                assert(before.ran() == if stalled {
                    before.stepped()
                } else {
                    before.stepped().ran()
                });
            }
            if stalled {
                return ;
            }
        }
        self.cycles = self.cycles - FRAME_CYCLES;
    }

    /// The framebuffer: 160 by 144 pixels, line by line, four bytes each for
    /// red, green, blue and alpha.
    pub fn get_image_data(&self) -> (image: &[u8])
        ensures
            image@ == self@.mem.gpu.image,
    {
        self.mem.gpu.image_data().as_slice()
    }

    /// The color of the pixel in column `x` of line `y`, if there is one.
    pub fn get_pixel_color(&self, x: usize, y: usize) -> (c: Option<Color>)
        requires
            self.wf(),
        ensures
            c == self@.pixel(x as int, y as int),
    {
        if x < WIDTH && y < HEIGHT {
            let image = self.mem.gpu.image_data();
            let at: usize = (y * WIDTH + x) * 4;
            Some(Color { r: image[at], g: image[at + 1], b: image[at + 2], a: image[at + 3] })
        } else {
            None
        }
    }

    /// Records that a key went down and raises the joypad interrupt.
    pub fn key_down(&mut self, key: Button)
        requires
            old(self).wf(),
        ensures
            final(self).wf(),
            final(self)@ == old(self)@.with_key_down(key),
    {
        let sys = self.mem.sys;
        let mut intf: u8 = sys.intf;
        self.mem.keypad.key_down(key, &mut intf);
        self.mem.sys = SystemRegs { intf, ..sys };
        proof {
            lemma_same_memory(self.mem@, old(self)@.with_key_down(key).mem);
        }
    }

    /// Records that a key came up.
    pub fn key_up(&mut self, key: Button)
        requires
            old(self).wf(),
        ensures
            final(self).wf(),
            final(self)@ == old(self)@.with_key_up(key),
    {
        self.mem.keypad.key_up(key);
        proof {
            lemma_same_memory(self.mem@, old(self)@.with_key_up(key).mem);
        }
    }

    /// The frames counted since the count was last read; reading it sets
    /// it back to zero.
    pub fn fps(&mut self) -> (n: u32)
        requires
            old(self).wf(),
        ensures
            final(self).wf(),
            n == old(self)@.fps,
            final(self)@ == (GameboyView { fps: 0, ..old(self)@ }),
    {
        let n: u32 = self.fps;
        self.fps = 0;
        n
    }

    /// The content of the cartridge's RAM, as a save file holds it; empty
    /// where the cartridge has no RAM.
    pub fn ram_image(&self) -> (bytes: &Vec<u8>)
        ensures
            bytes@ == self@.mem.cart.ram,
    {
        self.mem.cart.ram_image()
    }

    /// Whether a battery keeps the cartridge's RAM, so that it is worth
    /// saving.
    pub fn has_battery(&self) -> (b: bool)
        ensures
            b == self@.mem.cart.battery,
    {
        self.mem.cart.has_battery()
    }

    /// Whether the processor stands before a byte that stands for no
    /// instruction, so that it makes no progress.
    pub fn is_stalled(&self) -> (b: bool)
        requires
            self.wf(),
        ensures
            b == self@.stands_before_undefined(),
    {
        self.cpu.regs.halt == 0 && self.cpu.regs.stop == 0 && decode(
            self.mem.read_byte(self.cpu.regs.pc),
        ) == Instr::Undefined
    }

    /// The registers of the processor.
    pub fn registers(&self) -> (regs: Registers)
        ensures
            regs == self@.regs,
    {
        self.cpu.regs
    }

    /// Reads a byte from the bus.
    pub fn read_byte(&self, addr: u16) -> (b: u8)
        requires
            self.wf(),
        ensures
            b == self@.mem.read_byte(addr),
    {
        self.mem.read_byte(addr)
    }
}

impl GameboyView {
    /// Whether the processor runs and the byte at the program counter
    /// stands for no instruction.
    pub open spec fn stands_before_undefined(self) -> bool {
        self.regs.halt == 0 && self.regs.stop == 0 && decode_spec(self.mem.read_byte(self.regs.pc))
            == Instr::Undefined
    }

    /// The machine after a key went down: the keypad holds the key and the
    /// joypad interrupt is pending.
    pub open spec fn with_key_down(self, key: Button) -> GameboyView {
        GameboyView {
            mem: MemoryView {
                keypad: self.mem.keypad.spec_key_down(key),
                sys: SystemRegs {
                    intf: self.mem.sys.intf | Interrupts::Joypad.spec_mask(),
                    ..self.mem.sys
                },
                ..self.mem
            },
            ..self
        }
    }

    /// The machine after a key came up.
    pub open spec fn with_key_up(self, key: Button) -> GameboyView {
        GameboyView {
            mem: MemoryView { keypad: self.mem.keypad.spec_key_up(key), ..self.mem },
            ..self
        }
    }
}

/// The registers that the boot program sets, with their values: those of
/// every machine, and on the color machine two more.
pub fn power_on_sequence(target: Target) -> (writes: Vec<(u16, u8)>)
    ensures
        writes@ == if target == Target::GameBoyColor {
            power_on_writes() + power_on_color_writes()
        } else {
            power_on_writes()
        },
{
    let mut writes: Vec<(u16, u8)> = vec![
        (0xFF05u16, 0x00u8),
        (0xFF06u16, 0x00u8),
        (0xFF07u16, 0x00u8),
        (0xFF10u16, 0x80u8),
        (0xFF11u16, 0xBFu8),
        (0xFF12u16, 0xF3u8),
        (0xFF14u16, 0xBFu8),
        (0xFF16u16, 0x3Fu8),
        (0xFF17u16, 0x00u8),
        (0xFF19u16, 0xBFu8),
        (0xFF1Au16, 0x7Fu8),
        (0xFF1Bu16, 0xFFu8),
        (0xFF1Cu16, 0x9Fu8),
        (0xFF1Eu16, 0xBFu8),
        (0xFF20u16, 0xFFu8),
        (0xFF21u16, 0x00u8),
        (0xFF22u16, 0x00u8),
        (0xFF23u16, 0xBFu8),
        (0xFF24u16, 0x77u8),
        (0xFF25u16, 0xF3u8),
        (0xFF26u16, 0xF1u8),
        (0xFF40u16, 0x91u8),
        (0xFF42u16, 0x00u8),
        (0xFF43u16, 0x00u8),
        (0xFF45u16, 0x00u8),
        (0xFF47u16, 0xFCu8),
        (0xFF48u16, 0xFFu8),
        (0xFF49u16, 0xFFu8),
        (0xFF4Au16, 0x00u8),
        (0xFF4Bu16, 0x00u8),
        (0xFFFFu16, 0x00u8),
    ];
    assert(writes@ =~= power_on_writes());
    if target == Target::GameBoyColor {
        writes.push((0xFF68u16, 0xC0u8));
        writes.push((0xFF6Au16, 0xC0u8));
        assert(writes@ =~= power_on_writes() + power_on_color_writes());
    }
    writes
}

/// Sets the registers of a bus as the boot program does.
pub fn power_on(mem: &mut Memory)
    requires
        old(mem).wf(),
    ensures
        final(mem).wf(),
        final(mem)@ == powered_on(old(mem)@),
        final(mem)@.sys.target == old(mem)@.sys.target,
{
    let writes = power_on_sequence(mem.sys.target);
    let ghost all = writes@;
    let mut i: usize = 0;
    while i < writes.len()
        invariant
            i <= writes.len(),
            writes@ == all,
            mem.wf(),
            mem@ == written(old(mem)@, all, i as int),
            mem@.sys.target == old(mem)@.sys.target,
        decreases writes.len() - i,
    {
        let (addr, val) = writes[i];
        proof {
            crate::mem::lemma_write_keeps_target(mem@, addr, val);
        }
        mem.write_byte(addr, val);
        i += 1;
    }
    proof {
        lemma_written_prefix(old(mem)@, power_on_writes(), power_on_color_writes(), 31);
        if old(mem)@.sys.target == Target::GameBoyColor {
            lemma_written_suffix(old(mem)@, power_on_writes(), power_on_color_writes(), 2);
        }
    }
}

/// The first writes of two sequences in a row are those of the first.
pub proof fn lemma_written_prefix(mem: MemoryView, a: Seq<(u16, u8)>, b: Seq<(u16, u8)>, n: int)
    requires
        0 <= n <= a.len(),
    ensures
        written(mem, a + b, n) == written(mem, a, n),
    decreases n,
{
    if n > 0 {
        lemma_written_prefix(mem, a, b, n - 1);
    }
}

/// The writes of two sequences in a row are those of the second after
/// those of the first.
pub proof fn lemma_written_suffix(mem: MemoryView, a: Seq<(u16, u8)>, b: Seq<(u16, u8)>, n: int)
    requires
        0 <= n <= b.len(),
    ensures
        written(mem, a + b, a.len() + n) == written(written(mem, a, a.len() as int), b, n),
    decreases n,
{
    if n > 0 {
        lemma_written_suffix(mem, a, b, n - 1);
    } else {
        lemma_written_prefix(mem, a, b, a.len() as int);
    }
}

} // verus!
