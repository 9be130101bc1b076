//! The cycle of modes: 80 cycles of scanning the sprite table, 172 of
//! reading video memory and the rest of 456 of horizontal blank for each of
//! 144 lines, then ten lines of vertical blank.

use vstd::prelude::*;
use crate::cpu::Interrupts;
use crate::gpu::{lemma_same_view, GpuView, LcdRegs, Mode, FRAME_LINES, GPU};

verus! {

/// The mode of a line of the screen after `clock` cycles of the line.
pub open spec fn mode_for(clock: u32) -> Mode {
    if clock <= 80 {
        Mode::RdOAM
    } else if clock <= 252 {
        Mode::RdVRAM
    } else {
        Mode::HBlank
    }
}

/// `intf` with the bit of the status interrupt set if `on` holds.
pub open spec fn with_stat_if(intf: u8, on: bool) -> u8 {
    if on {
        intf | Interrupts::LCDStat.spec_mask()
    } else {
        intf
    }
}

impl GpuView {
    /// The unit after it entered a mode: entering the horizontal blank
    /// paints the line.
    pub open spec fn entered(self, mode: Mode) -> GpuView {
        let g = GpuView { regs: LcdRegs { mode, ..self.regs }, ..self };
        if mode == Mode::HBlank {
            g.render_line()
        } else {
            g
        }
    }

    /// The pending interrupts after the unit entered a mode: entering the
    /// vertical blank raises its interrupt, and each mode but the reading
    /// of video memory raises the status interrupt if the program selected it.
    pub open spec fn raised(self, mode: Mode, intf: u8) -> u8 {
        match mode {
            Mode::HBlank => with_stat_if(intf, self.regs.mode0_int),
            Mode::VBlank => with_stat_if(intf | Interrupts::VBlank.spec_mask(), self.regs.mode1_int),
            Mode::RdOAM => with_stat_if(intf, self.regs.mode2_int),
            Mode::RdVRAM => intf,
        }
    }

    /// The unit and the pending interrupts after the unit entered a mode.
    pub open spec fn switch_mode(self, mode: Mode, intf: u8) -> (GpuView, u8) {
        (self.entered(mode), self.raised(mode, intf))
    }

    /// The unit and the pending interrupts after a line ended: the line
    /// counter moves on, from 153 back to 0, the vertical blank begins with
    /// line 144, and a line that equals the compare register raises the
    /// status interrupt if the program selected that.
    pub open spec fn next_line(self, intf: u8) -> (GpuView, u8) {
        let ly = ((self.regs.ly + 1) % 154) as u8;
        let moved = GpuView { regs: LcdRegs { ly, ..self.regs }, ..self };
        let (g, i) = if ly >= 144 && self.regs.mode != Mode::VBlank {
            moved.switch_mode(Mode::VBlank, intf)
        } else {
            (moved, intf)
        };
        (g, with_stat_if(i, ly == self.regs.lyc && self.regs.lycly))
    }

    /// The unit and the pending interrupts after `n` lines ended.
    pub open spec fn advance_lines(self, n: int, intf: u8) -> (GpuView, u8)
        decreases n,
    {
        if n <= 0 {
            (self, intf)
        } else {
            let (g, i) = self.advance_lines(n - 1, intf);
            g.next_line(i)
        }
    }

    /// The unit and the pending interrupts after `ticks` base-clock cycles:
    /// every 456 cycles a line ends, and on a line of the screen the unit
    /// enters the mode that the cycles of the line ask for.
    #[verifier::opaque]
    pub open spec fn step(self, ticks: u32, intf: u8) -> (GpuView, u8) {
        let total = self.regs.clock + ticks;
        let clocked = GpuView { regs: LcdRegs { clock: (total % 456) as u32, ..self.regs }, ..self };
        let (g, i) = clocked.advance_lines(total / 456, intf);
        if g.regs.ly < 144 && g.regs.mode != mode_for(g.regs.clock) {
            g.switch_mode(mode_for(g.regs.clock), i)
        } else {
            (g, i)
        }
    }
}

impl GPU {
    /// The pending interrupts after the unit entered a mode.
    fn raised(&self, mode: Mode, intf: u8) -> (r: u8)
        ensures
            r == self@.raised(mode, intf),
    {
        let stat: u8 = Interrupts::LCDStat.mask();
        match mode {
            Mode::HBlank => if self.regs.mode0_int {
                intf | stat
            } else {
                intf
            },
            Mode::VBlank => if self.regs.mode1_int {
                (intf | Interrupts::VBlank.mask()) | stat
            } else {
                intf | Interrupts::VBlank.mask()
            },
            Mode::RdOAM => if self.regs.mode2_int {
                intf | stat
            } else {
                intf
            },
            Mode::RdVRAM => intf,
        }
    }

    /// Enters a mode.
    fn switch_mode(&mut self, mode: Mode, intf: &mut u8)
        requires
            old(self).wf(),
        ensures
            final(self).wf(),
            final(self)@ == old(self)@.entered(mode),
            *final(intf) == old(self)@.raised(mode, *old(intf)),
    {
        *intf = self.raised(mode, *intf);
        let regs = self.regs;
        self.regs = LcdRegs { mode, ..regs };
        proof {
            lemma_same_view(self@, GpuView { regs: LcdRegs { mode, ..regs }, ..old(self)@ });
        }
        if mode == Mode::HBlank {
            self.render_line();
        }
    }

    /// Ends the current line.
    fn next_line(&mut self, intf: &mut u8)
        requires
            old(self).wf(),
        ensures
            final(self).wf(),
            final(self)@ == old(self)@.next_line(*old(intf)).0,
            *final(intf) == old(self)@.next_line(*old(intf)).1,
    {
        let regs = self.regs;
        let ly: u8 = (regs.ly + 1) % FRAME_LINES;
        self.regs = LcdRegs { ly, ..regs };
        proof {
            lemma_same_view(self@, GpuView { regs: LcdRegs { ly, ..regs }, ..old(self)@ });
        }
        if ly >= 144 && regs.mode != Mode::VBlank {
            self.switch_mode(Mode::VBlank, intf);
        }
        if ly == regs.lyc && regs.lycly {
            *intf = *intf | Interrupts::LCDStat.mask();
        }
    }

    /// Advances the unit by `ticks` base-clock cycles and sets in `intf`
    /// the interrupts that it raises.
    pub fn step(&mut self, ticks: u32, intf: &mut u8)
        requires
            old(self).wf(),
        ensures
            final(self).wf(),
            final(self)@ == old(self)@.step(ticks, *old(intf)).0,
            *final(intf) == old(self)@.step(ticks, *old(intf)).1,
    {
        reveal(GpuView::step);
        let regs = self.regs;
        let total: u64 = regs.clock as u64 + ticks as u64;
        let lines: u64 = total / 456;
        self.regs = LcdRegs { clock: (total % 456) as u32, ..regs };
        let ghost clocked = self@;
        proof {
            lemma_same_view(
                clocked,
                GpuView { regs: LcdRegs { clock: (total % 456) as u32, ..regs }, ..old(self)@ },
            );
        }
        let mut n: u64 = 0;
        while n < lines
            invariant
                n <= lines,
                self.wf(),
                self@ == clocked.advance_lines(n as int, *old(intf)).0,
                *intf == clocked.advance_lines(n as int, *old(intf)).1,
            decreases lines - n,
        {
            self.next_line(intf);
            n += 1;
        }
        if self.regs.ly < 144 {
            let clock: u32 = self.regs.clock;
            let mode = if clock <= 80 {
                Mode::RdOAM
            } else if clock <= 252 {
                Mode::RdVRAM
            } else {
                Mode::HBlank
            };
            if self.regs.mode != mode {
                self.switch_mode(mode, intf);
            }
        }
    }
}

/// The sum of a sequence of cycle counts.
pub open spec fn total_ticks(ticks: Seq<u32>) -> int
    decreases ticks.len(),
{
    if ticks.len() == 0 {
        0
    } else {
        total_ticks(ticks.drop_last()) + ticks.last()
    }
}

/// The unit and the pending interrupts after one step for each element of
/// a sequence of cycle counts.
pub open spec fn steps(g: GpuView, ticks: Seq<u32>, intf: u8) -> (GpuView, u8)
    decreases ticks.len(),
{
    if ticks.len() == 0 {
        (g, intf)
    } else {
        let (before, pending) = steps(g, ticks.drop_last(), intf);
        before.step(ticks.last(), pending)
    }
}

/// Whether the mode is the one that the line and its cycles ask for: on a
/// line of the screen the scan of the sprite table, the reading of video
/// memory or the horizontal blank, below the screen the vertical blank.
pub open spec fn mode_in_step(regs: LcdRegs) -> bool {
    if regs.ly < 144 {
        regs.mode == mode_for(regs.clock)
    } else {
        regs.mode == Mode::VBlank
    }
}

/// Entering a mode changes the mode and, in the horizontal blank, the
/// framebuffer, and nothing else.
pub proof fn lemma_entered(g: GpuView, mode: Mode)
    ensures
        g.entered(mode).regs == (LcdRegs { mode, ..g.regs }),
        g.entered(mode).vram == g.vram,
        g.entered(mode).oam == g.oam,
        g.entered(mode).pal == g.pal,
{
    reveal(GpuView::render_line);
}

/// The end of a line moves the line counter on by one and leaves the
/// cycles of the line alone; below the screen the mode is the vertical
/// blank, if the mode was in step before.
pub proof fn lemma_next_line(g: GpuView, intf: u8)
    requires
        g.regs.ly < 154,
    ensures
        g.next_line(intf).0.regs.ly == (g.regs.ly + 1) % 154,
        g.next_line(intf).0.regs.clock == g.regs.clock,
        g.next_line(intf).0.regs.ly >= 144 ==> g.next_line(intf).0.regs.mode == Mode::VBlank,
        g.next_line(intf).0.regs.ly < 144 ==> g.next_line(intf).0.regs.mode == g.regs.mode,
{
    let ly = ((g.regs.ly + 1) % 154) as u8;
    let moved = GpuView { regs: LcdRegs { ly, ..g.regs }, ..g };
    lemma_entered(moved, Mode::VBlank);
}

/// The end of `n` lines moves the line counter on by `n`, from 153 back
/// to 0, and leaves the cycles of the line alone.
pub proof fn lemma_advance_lines(g: GpuView, n: int, intf: u8)
    requires
        g.regs.ly < 154,
        n >= 0,
    ensures
        g.advance_lines(n, intf).0.regs.ly == (g.regs.ly + n) % 154,
        g.advance_lines(n, intf).0.regs.clock == g.regs.clock,
        n > 0 && g.advance_lines(n, intf).0.regs.ly >= 144 ==> g.advance_lines(n, intf).0.regs.mode
            == Mode::VBlank,
        n == 0 ==> g.advance_lines(n, intf).0.regs.mode == g.regs.mode,
    decreases n,
{
    if n > 0 {
        lemma_advance_lines(g, n - 1, intf);
        let (before, pending) = g.advance_lines(n - 1, intf);
        lemma_next_line(before, pending);
    }
}

/// One step adds its cycles to those of the line, ends a line for every
/// 456 of them, and leaves the mode in step with the line and its cycles.
pub proof fn law_step_counts_lines(g: GpuView, ticks: u32, intf: u8)
    requires
        g.regs.ly < 154,
        g.regs.clock < 456,
    ensures
        g.step(ticks, intf).0.regs.clock == (g.regs.clock + ticks) % 456,
        g.step(ticks, intf).0.regs.ly == (g.regs.ly + (g.regs.clock + ticks) / 456) % 154,
        mode_in_step(g.regs) || (g.regs.clock + ticks) / 456 > 0 || g.regs.ly < 144 ==> mode_in_step(
            g.step(ticks, intf).0.regs,
        ),
{
    reveal(GpuView::step);
    let total = g.regs.clock + ticks;
    let clocked = GpuView { regs: LcdRegs { clock: (total % 456) as u32, ..g.regs }, ..g };
    lemma_advance_lines(clocked, total / 456, intf);
    let (after, pending) = clocked.advance_lines(total / 456, intf);
    lemma_entered(after, mode_for(after.regs.clock));
}

/// A run of steps adds up: the cycles of the line are the sum of all
/// cycles modulo 456, and the line counter has moved on by one for every
/// 456 cycles, from 153 back to 0.
pub proof fn law_steps_count_lines(g: GpuView, ticks: Seq<u32>, intf: u8)
    requires
        g.regs.ly < 154,
        g.regs.clock < 456,
    ensures
        steps(g, ticks, intf).0.regs.clock == (g.regs.clock + total_ticks(ticks)) % 456,
        steps(g, ticks, intf).0.regs.ly == (g.regs.ly + (g.regs.clock + total_ticks(ticks)) / 456)
            % 154,
        total_ticks(ticks) >= 0,
    decreases ticks.len(),
{
    if ticks.len() > 0 {
        law_steps_count_lines(g, ticks.drop_last(), intf);
        let (before, pending) = steps(g, ticks.drop_last(), intf);
        law_step_counts_lines(before, ticks.last(), pending);
    }
}

/// One line takes 456 cycles: steps that add up to 456 cycles from the
/// start of a line of the screen end that line and no other, and steps
/// that add up to less leave the unit on the line, in the mode that the
/// cycles so far ask for: the scan of the sprite table up to 80, the
/// reading of video memory up to 252, then the horizontal blank.
pub proof fn law_one_line_is_456_cycles(g: GpuView, ticks: Seq<u32>, intf: u8)
    requires
        g.regs.ly < 144,
        g.regs.clock == 0,
        ticks.len() > 0,
        total_ticks(ticks) <= 456,
    ensures
        total_ticks(ticks) < 456 ==> steps(g, ticks, intf).0.regs.ly == g.regs.ly && steps(
            g,
            ticks,
            intf,
        ).0.regs.mode == mode_for(total_ticks(ticks) as u32),
        total_ticks(ticks) == 456 ==> steps(g, ticks, intf).0.regs.ly == (g.regs.ly + 1) % 154
            && steps(g, ticks, intf).0.regs.clock == 0,
{
    law_steps_count_lines(g, ticks, intf);
    law_steps_count_lines(g, ticks.drop_last(), intf);
    let (before, pending) = steps(g, ticks.drop_last(), intf);
    law_step_counts_lines(before, ticks.last(), pending);
}

/// One frame takes 154 lines: steps that add up to 154 times 456 cycles
/// bring the line counter back to where it was.
pub proof fn law_one_frame_is_154_lines(g: GpuView, ticks: Seq<u32>, intf: u8)
    requires
        g.regs.ly < 154,
        g.regs.clock < 456,
        total_ticks(ticks) == 154 * 456,
    ensures
        steps(g, ticks, intf).0.regs.ly == g.regs.ly,
        steps(g, ticks, intf).0.regs.clock == g.regs.clock,
{
    law_steps_count_lines(g, ticks, intf);
}

} // verus!
