use vstd::prelude::*;
use crate::io::lcd::LcdView;
use super::{PpuView, FRAME_CYCLES_LENGTH};

verus! {

/// The sum of the first `count` numbers of `cycles`.
pub open spec fn total_cycles(cycles: Seq<usize>, count: nat) -> int
    decreases count,
{
    if count == 0 {
        0
    } else {
        total_cycles(cycles, (count - 1) as nat) + cycles[count - 1]
    }
}

/// The unit and the display registers after the first `count` steps of a
/// run in which step `i` takes `cycles[i]` clock cycles.
pub open spec fn after_steps(ppu: PpuView, lcd: LcdView, cycles: Seq<usize>, count: nat) -> (
    PpuView,
    LcdView,
)
    decreases count,
{
    if count == 0 {
        (ppu, lcd)
    } else {
        let before = after_steps(ppu, lcd, cycles, (count - 1) as nat);
        let step = before.0.step(before.1, cycles[count - 1]);
        (step.ppu, step.lcd)
    }
}

/// While the display is on, the position in the frame moves on by exactly
/// the clock cycles of the steps, and starts over every 70224 cycles: so
/// the steps between one completed frame and the next add up to the length
/// of a frame, give or take the cycles by which a step runs past the start
/// of the vertical blank.
pub proof fn frame_position_adds_up(ppu: PpuView, lcd: LcdView, cycles: Seq<usize>, count: nat)
    requires
        lcd.control.lcd_and_ppu_enable,
        0 < count <= cycles.len(),
    ensures
        after_steps(ppu, lcd, cycles, count).1.control == lcd.control,
        after_steps(ppu, lcd, cycles, count).0.current_cycles == (ppu.current_cycles
            + total_cycles(cycles, count)) % (FRAME_CYCLES_LENGTH as int),
    decreases count,
{
    let last = cycles[count - 1] as int;
    let length = FRAME_CYCLES_LENGTH as int;
    if count == 1 {
        assert(total_cycles(cycles, 1) == total_cycles(cycles, 0) + cycles[0]);
        assert(after_steps(ppu, lcd, cycles, 0) == (ppu, lcd));
    } else {
        frame_position_adds_up(ppu, lcd, cycles, (count - 1) as nat);
        let sum = ppu.current_cycles + total_cycles(cycles, (count - 1) as nat);
        vstd::arithmetic::div_mod::lemma_add_mod_noop_right(last, sum, length);
        assert((last + sum % length) % length == (last + sum) % length);
        assert((sum % length + last) % length == (sum + last) % length);
    }
}

/// A step completes a frame exactly when it takes the unit into the
/// vertical blank, which starts 65664 cycles into the frame.
pub proof fn frame_completes_at_vertical_blank(ppu: PpuView, lcd: LcdView, cycles: usize)
    requires
        lcd.control.lcd_and_ppu_enable,
    ensures
        ppu.step(lcd, cycles).new_frame == (lcd.status.ppu_mode != super::PpuMode::VBlank && (
        ppu.current_cycles + cycles) % (FRAME_CYCLES_LENGTH as int) >= 65664),
        ppu.step(lcd, cycles).new_frame == (ppu.step(lcd, cycles).vblank is Some),
{
}

} // verus!
