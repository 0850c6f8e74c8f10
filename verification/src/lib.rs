//! An emulation core for the first, monochrome Game Boy (DMG).
//!
//! The crate models the console as a composition of plain state machines: an
//! SM83 processor, a memory bus with memory-mapped I/O, a scanline based pixel
//! processing unit, a timer, a DMA engine, a joypad port and an interrupt
//! controller. Every component exposes a mathematical view of its state, and
//! every operation is specified as a function over those views.
use vstd::prelude::*;
use vstd::std_specs::ops::BitOrSpecImpl;
use boot::BootRom;
use bus::{Bus, BusView};
use cartridge::{Cartridge, CartridgeView};
use cpu::error::Error;
use cpu::execution_state::ExecutionState;
use cpu::{Cpu, CpuView};
use io::interrupts::{Interrupt, Interrupts};
use io::joypad::JoypadInput;
use io::timer::Timer;
use io::IOView;
use ppu::Shade;

pub mod boot;
pub mod bus;
pub mod cartridge;
pub mod cpu;
pub mod io;
pub mod memory;
pub mod ppu;
pub mod text;

verus! {

/// The four directions of the pad, each pressed or not.
#[derive(Clone, Copy, PartialEq, Eq, Structural)]
pub struct DPadButtonState {
    pub up: bool,
    pub down: bool,
    pub left: bool,
    pub right: bool,
}

impl DPadButtonState {
    pub fn new(up: bool, down: bool, left: bool, right: bool) -> (state: Self)
        ensures
            state == (DPadButtonState { up, down, left, right }),
    {
        Self { up, down, left, right }
    }

    pub fn empty() -> (state: Self)
        ensures
            state == (DPadButtonState { up: false, down: false, left: false, right: false }),
    {
        Self { up: false, down: false, left: false, right: false }
    }
}

impl core::ops::BitOr for DPadButtonState {
    type Output = Self;

    fn bitor(self, rhs: Self) -> (state: Self) {
        Self {
            up: self.up || rhs.up,
            down: self.down || rhs.down,
            left: self.left || rhs.left,
            right: self.right || rhs.right,
        }
    }
}

impl BitOrSpecImpl for DPadButtonState {
    open spec fn obeys_bitor_spec() -> bool {
        true
    }

    open spec fn bitor_req(self, rhs: Self) -> bool {
        true
    }

    open spec fn bitor_spec(self, rhs: Self) -> Self {
        DPadButtonState {
            up: self.up || rhs.up,
            down: self.down || rhs.down,
            left: self.left || rhs.left,
            right: self.right || rhs.right,
        }
    }
}

/// The direction that the pad points in.
#[derive(Clone, Copy, PartialEq, Eq, Structural)]
pub enum DPadState {
    Centered,
    Left,
    Up,
    Right,
    Down,
    LeftUp,
    RightUp,
    LeftDown,
    RightDown,
}

impl DPadState {
    pub open spec fn points_left(self) -> bool {
        self == Self::Left || self == Self::LeftDown || self == Self::LeftUp
    }

    pub open spec fn points_right(self) -> bool {
        self == Self::Right || self == Self::RightDown || self == Self::RightUp
    }

    pub open spec fn points_up(self) -> bool {
        self == Self::Up || self == Self::LeftUp || self == Self::RightUp
    }

    pub open spec fn points_down(self) -> bool {
        self == Self::Down || self == Self::LeftDown || self == Self::RightDown
    }

    /// The direction that pressed buttons give. Two opposite buttons pressed
    /// together cancel each other on their axis.
    pub fn from_buttons(state: DPadButtonState) -> (direction: Self)
        ensures
            direction.points_left() == (state.left && !state.right),
            direction.points_right() == (state.right && !state.left),
            direction.points_up() == (state.up && !state.down),
            direction.points_down() == (state.down && !state.up),
    {
        let left = state.left && !state.right;
        let right = state.right && !state.left;
        let up = state.up && !state.down;
        let down = state.down && !state.up;
        if left {
            if up {
                Self::LeftUp
            } else if down {
                Self::LeftDown
            } else {
                Self::Left
            }
        } else if right {
            if up {
                Self::RightUp
            } else if down {
                Self::RightDown
            } else {
                Self::Right
            }
        } else if up {
            Self::Up
        } else if down {
            Self::Down
        } else {
            Self::Centered
        }
    }

    pub fn is_left(self) -> (left: bool)
        ensures
            left == self.points_left(),
    {
        self == Self::Left || self == Self::LeftDown || self == Self::LeftUp
    }

    pub fn is_right(self) -> (right: bool)
        ensures
            right == self.points_right(),
    {
        self == Self::Right || self == Self::RightDown || self == Self::RightUp
    }

    pub fn is_up(self) -> (up: bool)
        ensures
            up == self.points_up(),
    {
        self == Self::Up || self == Self::LeftUp || self == Self::RightUp
    }

    pub fn is_down(self) -> (down: bool)
        ensures
            down == self.points_down(),
    {
        self == Self::Down || self == Self::LeftDown || self == Self::RightDown
    }
}

/// What the player holds down during a frame.
#[derive(Clone, Copy, PartialEq, Eq, Structural)]
pub struct InputState {
    pub a_pressed: bool,
    pub b_pressed: bool,
    pub start_pressed: bool,
    pub select_pressed: bool,
    pub dpad_state: DPadState,
}

impl InputState {
    /// Nothing pressed.
    pub open spec fn released() -> Self {
        InputState {
            a_pressed: false,
            b_pressed: false,
            start_pressed: false,
            select_pressed: false,
            dpad_state: DPadState::Centered,
        }
    }

    pub fn empty() -> (state: Self)
        ensures
            state == Self::released(),
    {
        Self {
            a_pressed: false,
            b_pressed: false,
            start_pressed: false,
            select_pressed: false,
            dpad_state: DPadState::Centered,
        }
    }
}

/// The console: a processor on its bus, and the addresses at which a
/// debugger wants it to stop.
pub struct Emulator {
    cpu: Cpu,
    breakpoints: Vec<u16>,
}

/// What an [`Emulator`] holds.
pub struct EmulatorView {
    pub cpu: CpuView,
    /// The breakpoints in the order in which they were added.
    pub breakpoints: Seq<u16>,
}

/// The interrupt `interrupt` where `raised` holds.
pub open spec fn raised(raised: bool, interrupt: Interrupt) -> Option<Interrupt> {
    if raised {
        Some(interrupt)
    } else {
        None
    }
}

impl EmulatorView {
    /// The console at power on, with the given boot program and cartridge.
    pub open spec fn power_on(boot_rom: Seq<u8>, cartridge: CartridgeView) -> Self {
        EmulatorView {
            cpu: CpuView::power_on(BusView::power_on(boot_rom, cartridge)),
            breakpoints: Seq::empty(),
        }
    }

    /// The bus after the devices have caught up with `cycles` clock cycles
    /// of the processor, and whether a frame is complete. The timer ticks
    /// first, then the joypad looks at `input`, then the pixel processing
    /// unit moves on. What they ask for is latched in the interrupt
    /// controller.
    pub open spec fn devices_stepped(bus: BusView, cycles: usize, input: InputState) -> (
        BusView,
        bool,
    ) {
        let timer = bus.io.timer.step(cycles);
        let joypad = bus.io.joypad_input.update(input);
        let ppu = bus.ppu.step(bus.io.lcd, cycles);
        let interrupts = bus.io.interrupts.request_optional(
            raised(timer.1, Interrupt::Timer),
        ).request_optional(raised(joypad.changed(), Interrupt::Joypad)).request_optional(
            ppu.vblank,
        ).request_optional(ppu.lcd_interrupt);
        (
            BusView {
                ppu: ppu.ppu,
                io: IOView {
                    timer: timer.0,
                    joypad_input: joypad,
                    interrupts,
                    lcd: ppu.lcd,
                    ..bus.io
                },
                ..bus
            },
            ppu.new_frame,
        )
    }

    /// The console after one step with the inputs `input`, the clock cycles
    /// that the step took, and whether it completed a frame: the processor
    /// steps, the devices catch up, and last the DMA engine moves on.
    pub open spec fn step(self, input: InputState) -> Result<(EmulatorView, usize, bool), Error> {
        match self.cpu.step() {
            Err(error) => Err(error),
            Ok((cpu, cycles)) => {
                let devices = Self::devices_stepped(cpu.bus, cycles, input);
                match (CpuView { bus: devices.0, ..cpu }).step_dma(cycles) {
                    Err(error) => Err(error),
                    Ok(cpu) => Ok((EmulatorView { cpu, ..self }, cycles, devices.1)),
                }
            },
        }
    }

    /// The breakpoint that the program counter has reached, if any.
    pub open spec fn breakpoint_reached(self) -> Option<u16> {
        if self.breakpoints.contains(self.cpu.state.instruction_pointer) {
            Some(self.cpu.state.instruction_pointer)
        } else {
            None
        }
    }
}

impl View for Emulator {
    type V = EmulatorView;

    closed spec fn view(&self) -> EmulatorView {
        EmulatorView { cpu: self.cpu@, breakpoints: self.breakpoints@ }
    }
}

impl Emulator {
    pub fn new(boot_rom: BootRom, cartridge: Cartridge) -> (emulator: Self)
        ensures
            emulator@ == EmulatorView::power_on(boot_rom@, cartridge@),
    {
        let bus = Bus::new(boot_rom, cartridge);
        Self { cpu: Cpu::new(bus), breakpoints: Vec::new() }
    }

    pub fn add_breakpoint(&mut self, address: u16)
        ensures
            final(self)@ == (EmulatorView {
                breakpoints: old(self)@.breakpoints.push(address),
                ..old(self)@
            }),
    {
        self.breakpoints.push(address);
    }

    pub fn execution_state(&self) -> (state: &ExecutionState)
        ensures
            state@ == self@.cpu.state,
    {
        self.cpu.execution_state()
    }

    /// The processor with its bus.
    pub fn cpu(&self) -> (cpu: &Cpu)
        ensures
            cpu@ == self@.cpu,
    {
        &self.cpu
    }

    /// The processor with its bus, to set the console up.
    pub fn cpu_mut(&mut self) -> (cpu: &mut Cpu)
        ensures
            cpu@ == old(self)@.cpu,
            final(self)@ == (EmulatorView { cpu: final(cpu)@, ..old(self)@ }),
    {
        &mut self.cpu
    }

    /// Runs one step with the inputs `input_state`. Returns the clock
    /// cycles that the step took and whether it completed a frame.
    pub fn step(&mut self, input_state: InputState) -> (result: Result<(usize, bool), Error>)
        ensures
            match old(self)@.step(input_state) {
                Ok((emulator, cycles, new_frame)) => result == Ok::<(usize, bool), Error>(
                    (cycles, new_frame),
                ) && final(self)@ == emulator,
                Err(error) => result == Err::<(usize, bool), Error>(error),
            },
    {
        let cycles = self.cpu.step()?;
        let new_frame = self.step_devices(cycles, input_state);
        self.cpu.step_dma(cycles)?;
        Ok((cycles, new_frame))
    }

    /// Lets the timer, the joypad and the pixel processing unit catch up
    /// with `cycles` clock cycles and latches the interrupts that they ask
    /// for. Returns whether a frame is complete.
    fn step_devices(&mut self, cycles: usize, input_state: InputState) -> (new_frame: bool)
        ensures
            final(self)@ == (EmulatorView {
                cpu: CpuView {
                    bus: EmulatorView::devices_stepped(old(self)@.cpu.bus, cycles, input_state).0,
                    ..old(self)@.cpu
                },
                ..old(self)@
            }),
            new_frame == EmulatorView::devices_stepped(old(self)@.cpu.bus, cycles, input_state).1,
    {
        let overflowed = self.timer().step(cycles);
        let pressed = self.joypad().step(input_state);
        let (vblank, lcd, new_frame) = self.cpu.bus_mut().step_ppu(cycles);
        let timer = if overflowed {
            Some(Interrupt::Timer)
        } else {
            None
        };
        let joypad = if pressed {
            Some(Interrupt::Joypad)
        } else {
            None
        };
        self.interrupts().request_optional(timer);
        self.interrupts().request_optional(joypad);
        self.interrupts().request_optional(vblank);
        self.interrupts().request_optional(lcd);
        new_frame
    }

    fn timer(&mut self) -> (timer: &mut Timer)
        ensures
            timer@ == old(self)@.cpu.bus.io.timer,
            final(self)@ == (EmulatorView {
                cpu: CpuView {
                    bus: BusView {
                        io: IOView { timer: final(timer)@, ..old(self)@.cpu.bus.io },
                        ..old(self)@.cpu.bus
                    },
                    ..old(self)@.cpu
                },
                ..old(self)@
            }),
    {
        self.cpu.bus_mut().io_mut().timer_mut()
    }

    fn joypad(&mut self) -> (joypad: &mut JoypadInput)
        ensures
            joypad@ == old(self)@.cpu.bus.io.joypad_input,
            final(self)@ == (EmulatorView {
                cpu: CpuView {
                    bus: BusView {
                        io: IOView { joypad_input: final(joypad)@, ..old(self)@.cpu.bus.io },
                        ..old(self)@.cpu.bus
                    },
                    ..old(self)@.cpu
                },
                ..old(self)@
            }),
    {
        self.cpu.bus_mut().io_mut().joypad_mut()
    }

    fn interrupts(&mut self) -> (interrupts: &mut Interrupts)
        ensures
            interrupts@ == old(self)@.cpu.bus.io.interrupts,
            final(self)@ == (EmulatorView {
                cpu: CpuView {
                    bus: BusView {
                        io: IOView { interrupts: final(interrupts)@, ..old(self)@.cpu.bus.io },
                        ..old(self)@.cpu.bus
                    },
                    ..old(self)@.cpu
                },
                ..old(self)@
            }),
    {
        self.cpu.bus_mut().io_mut().interrupts_mut()
    }

    /// The frame as the screen shows it, line after line.
    pub fn get_pixels(&mut self) -> (pixels: &[Shade])
        ensures
            pixels@ == old(self)@.cpu.bus.ppu.shown(old(self)@.cpu.bus.io.lcd),
            final(self)@ == old(self)@,
    {
        self.cpu.bus_mut().render().as_slice()
    }

    /// The breakpoint that the program counter has reached, if any.
    pub fn breakpoint_reached(&self) -> (breakpoint: Option<u16>)
        ensures
            breakpoint == self@.breakpoint_reached(),
    {
        let pc = self.cpu.execution_state().instruction_pointer();
        let mut i: usize = 0;
        while i < self.breakpoints.len()
            invariant
                i <= self.breakpoints@.len(),
                pc == self@.cpu.state.instruction_pointer,
                forall|k: int| 0 <= k < i ==> self.breakpoints@[k] != pc,
            decreases self.breakpoints@.len() - i,
        {
            if self.breakpoints[i] == pc {
                return Some(pc);
            }
            i += 1;
        }
        None
    }
}

} // verus!
