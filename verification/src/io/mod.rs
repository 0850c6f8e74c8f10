use vstd::prelude::*;
use crate::cpu::error::Error;
use audio::{
    Audio, AudioChannel1View, AudioChannel2View, AudioChannel3View, AudioChannel4View, AudioView,
};
use dma::{DMAController, DMAControllerView};
use interrupts::{Interrupts, InterruptsView};
use joypad::{InputSelection, JoypadInput, JoypadInputView};
use lcd::{Lcd, LcdControlView, LcdView, Palette};
use serial::{Serial, SerialView};
use timer::{Timer, TimerView};

pub mod audio;
pub mod dma;
pub mod interrupts;
pub mod joypad;
pub mod lcd;
pub mod serial;
pub mod timer;

verus! {

/// One byte of register storage.
#[derive(Clone, Copy, Debug)]
pub struct IORegister(u8);

impl View for IORegister {
    type V = u8;

    closed spec fn view(&self) -> u8 {
        self.0
    }
}

impl IORegister {
    pub fn new() -> (register: Self)
        ensures
            register@ == 0,
    {
        Self(0)
    }

    #[inline(always)]
    pub fn write(&mut self, value: u8)
        ensures
            final(self)@ == value,
    {
        self.0 = value;
    }

    #[inline(always)]
    pub fn read(&self) -> (value: u8)
        ensures
            value == self@,
    {
        self.0
    }
}

/// The memory-mapped registers at 0xFF00 to 0xFF7F and at 0xFFFF.
#[derive(Clone, Copy)]
pub struct IO {
    joypad_input: JoypadInput,
    lcd: Lcd,
    serial: Serial,
    audio: Audio,
    timer: Timer,
    interrupts: Interrupts,
    dma: DMAController,
    boot_rom_enable: IORegister,
    boot_rom_disabled: bool,
}

/// What an [`IO`] holds.
pub struct IOView {
    /// The joypad port.
    pub joypad_input: JoypadInputView,
    /// The display registers.
    pub lcd: LcdView,
    /// The serial port.
    pub serial: SerialView,
    /// The sound registers.
    pub audio: AudioView,
    /// The divider and the timer.
    pub timer: TimerView,
    /// The interrupt controller.
    pub interrupts: InterruptsView,
    /// The DMA engine.
    pub dma: DMAControllerView,
    /// The byte last written to the boot switch at 0xFF50.
    pub boot_rom_enable: u8,
    /// Whether a byte other than zero was ever written to the boot switch.
    /// From then on the boot program is out of the address space.
    pub boot_rom_disabled: bool,
}

/// Whether `address` belongs to the register block.
pub open spec fn is_register_address(address: u16) -> bool {
    0xFF00 <= address <= 0xFF7F || address == 0xFFFF
}

/// Whether a register stands at `address`.
pub open spec fn is_register(address: u16) -> bool {
    match address {
        0xFF00
        | 0xFF01
        | 0xFF02
        | 0xFF04
        | 0xFF05
        | 0xFF06
        | 0xFF07
        | 0xFF0F
        | 0xFF10
        | 0xFF11
        | 0xFF12
        | 0xFF13
        | 0xFF14
        | 0xFF16
        | 0xFF17
        | 0xFF18
        | 0xFF19
        | 0xFF1A
        | 0xFF1B
        | 0xFF1C
        | 0xFF1D
        | 0xFF1E
        | 0xFF20
        | 0xFF21
        | 0xFF22
        | 0xFF23
        | 0xFF24
        | 0xFF25
        | 0xFF26
        | 0xFF40
        | 0xFF41
        | 0xFF42
        | 0xFF43
        | 0xFF44
        | 0xFF45
        | 0xFF46
        | 0xFF47
        | 0xFF48
        | 0xFF49
        | 0xFF4A
        | 0xFF4B
        | 0xFF50
        | 0xFFFF => true,
        _ => 0xFF30 <= address <= 0xFF3F,
    }
}

impl IOView {
    pub open spec fn power_on() -> Self {
        IOView {
            joypad_input: JoypadInputView::power_on(),
            lcd: LcdView::power_on(),
            serial: SerialView::power_on(),
            audio: AudioView::power_on(),
            timer: TimerView::power_on(),
            interrupts: InterruptsView::power_on(),
            dma: DMAControllerView::power_on(),
            boot_rom_enable: 0,
            boot_rom_disabled: false,
        }
    }

    /// What the register at `address` reads as. An address of the block
    /// without a register reads as 0xFF.
    #[verifier::opaque]
    pub open spec fn register(self, address: u16) -> u8 {
        match address {
            0xFF00 => self.joypad_input.register(),
            0xFF01 => self.serial.data,
            0xFF02 => self.serial.control,
            0xFF04 => self.timer.divider_register(),
            0xFF05 => self.timer.timer_counter,
            0xFF06 => self.timer.timer_modulo,
            0xFF07 => self.timer.timer_control,
            0xFF0F => self.interrupts.flag_register(),
            0xFF10 => self.audio.channel_1.sweep,
            0xFF11 => self.audio.channel_1.length_timer_and_duty_cycle,
            0xFF12 => self.audio.channel_1.volume_and_envelope,
            0xFF13 => self.audio.channel_1.period_low,
            0xFF14 => self.audio.channel_1.period_high_and_control,
            0xFF16 => self.audio.channel_2.length_timer_and_duty_cycle,
            0xFF17 => self.audio.channel_2.volume_and_envelope,
            0xFF18 => self.audio.channel_2.period_low,
            0xFF19 => self.audio.channel_2.period_high_and_control,
            0xFF1A => self.audio.channel_3.dac_enable,
            0xFF1B => self.audio.channel_3.length_timer,
            0xFF1C => self.audio.channel_3.output_level,
            0xFF1D => self.audio.channel_3.period_low,
            0xFF1E => self.audio.channel_3.period_high_and_control,
            0xFF20 => self.audio.channel_4.length_timer,
            0xFF21 => self.audio.channel_4.volume_and_envelope,
            0xFF22 => self.audio.channel_4.frequency_and_randomness,
            0xFF23 => self.audio.channel_4.control,
            0xFF24 => self.audio.master_volume_vin_panning,
            0xFF25 => self.audio.sound_panning,
            0xFF26 => self.audio.audio_master_control,
            0xFF40 => self.lcd.control.byte(),
            0xFF41 => self.lcd.status.register(),
            0xFF42 => self.lcd.scroll_y,
            0xFF43 => self.lcd.scroll_x,
            0xFF44 => self.lcd.lcd_y,
            0xFF45 => self.lcd.lcd_y_compare,
            0xFF46 => self.dma.source,
            0xFF47 => self.lcd.background_palette.byte(),
            0xFF48 => self.lcd.obj_palette_0.byte(),
            0xFF49 => self.lcd.obj_palette_1.byte(),
            0xFF4A => self.lcd.window_y,
            0xFF4B => self.lcd.window_x,
            0xFF50 => self.boot_rom_enable,
            0xFFFF => self.interrupts.enable_register(),
            _ => if 0xFF30 <= address <= 0xFF3F {
                self.audio.channel_3.wave_pattern_ram[address - 0xFF30]
            } else {
                0xFF
            },
        }
    }

    /// The result of a read at `address`: the register, or a fault where the
    /// address lies outside the block.
    pub open spec fn read(self, address: u16) -> Result<u8, Error> {
        if is_register_address(address) {
            Ok(self.register(address))
        } else {
            Err(Error::MemoryReadFault(address))
        }
    }

    /// The block after a write of `data` to the register at `address`.
    #[verifier::opaque]
    pub open spec fn written(self, address: u16, data: u8) -> IOView {
        match address {
            0xFF00 => IOView { joypad_input: JoypadInputView { selection: InputSelection::of_byte(data), ..self.joypad_input }, ..self },
            0xFF01 => IOView { serial: SerialView { data, ..self.serial }, ..self },
            0xFF02 => IOView { serial: SerialView { control: data, ..self.serial }, ..self },
            0xFF04 => IOView { timer: TimerView { divider: 0, ..self.timer }, ..self },
            0xFF05 => IOView { timer: TimerView { timer_counter: data, ..self.timer }, ..self },
            0xFF06 => IOView { timer: TimerView { timer_modulo: data, ..self.timer }, ..self },
            0xFF07 => IOView { timer: TimerView { timer_control: data, ..self.timer }, ..self },
            0xFF0F => IOView { interrupts: InterruptsView { interrupt_flag: data & 0b0001_1111, ..self.interrupts }, ..self },
            0xFF10 => IOView { audio: AudioView { channel_1: AudioChannel1View { sweep: data, ..self.audio.channel_1 }, ..self.audio }, ..self },
            0xFF11 => IOView { audio: AudioView { channel_1: AudioChannel1View { length_timer_and_duty_cycle: data, ..self.audio.channel_1 }, ..self.audio }, ..self },
            0xFF12 => IOView { audio: AudioView { channel_1: AudioChannel1View { volume_and_envelope: data, ..self.audio.channel_1 }, ..self.audio }, ..self },
            0xFF13 => IOView { audio: AudioView { channel_1: AudioChannel1View { period_low: data, ..self.audio.channel_1 }, ..self.audio }, ..self },
            0xFF14 => IOView { audio: AudioView { channel_1: AudioChannel1View { period_high_and_control: data, ..self.audio.channel_1 }, ..self.audio }, ..self },
            0xFF16 => IOView { audio: AudioView { channel_2: AudioChannel2View { length_timer_and_duty_cycle: data, ..self.audio.channel_2 }, ..self.audio }, ..self },
            0xFF17 => IOView { audio: AudioView { channel_2: AudioChannel2View { volume_and_envelope: data, ..self.audio.channel_2 }, ..self.audio }, ..self },
            0xFF18 => IOView { audio: AudioView { channel_2: AudioChannel2View { period_low: data, ..self.audio.channel_2 }, ..self.audio }, ..self },
            0xFF19 => IOView { audio: AudioView { channel_2: AudioChannel2View { period_high_and_control: data, ..self.audio.channel_2 }, ..self.audio }, ..self },
            0xFF1A => IOView { audio: AudioView { channel_3: AudioChannel3View { dac_enable: data, ..self.audio.channel_3 }, ..self.audio }, ..self },
            0xFF1B => IOView { audio: AudioView { channel_3: AudioChannel3View { length_timer: data, ..self.audio.channel_3 }, ..self.audio }, ..self },
            0xFF1C => IOView { audio: AudioView { channel_3: AudioChannel3View { output_level: data, ..self.audio.channel_3 }, ..self.audio }, ..self },
            0xFF1D => IOView { audio: AudioView { channel_3: AudioChannel3View { period_low: data, ..self.audio.channel_3 }, ..self.audio }, ..self },
            0xFF1E => IOView { audio: AudioView { channel_3: AudioChannel3View { period_high_and_control: data, ..self.audio.channel_3 }, ..self.audio }, ..self },
            0xFF20 => IOView { audio: AudioView { channel_4: AudioChannel4View { length_timer: data, ..self.audio.channel_4 }, ..self.audio }, ..self },
            0xFF21 => IOView { audio: AudioView { channel_4: AudioChannel4View { volume_and_envelope: data, ..self.audio.channel_4 }, ..self.audio }, ..self },
            0xFF22 => IOView { audio: AudioView { channel_4: AudioChannel4View { frequency_and_randomness: data, ..self.audio.channel_4 }, ..self.audio }, ..self },
            0xFF23 => IOView { audio: AudioView { channel_4: AudioChannel4View { control: data, ..self.audio.channel_4 }, ..self.audio }, ..self },
            0xFF24 => IOView { audio: AudioView { master_volume_vin_panning: data, ..self.audio }, ..self },
            0xFF25 => IOView { audio: AudioView { sound_panning: data, ..self.audio }, ..self },
            0xFF26 => IOView { audio: AudioView { audio_master_control: data, ..self.audio }, ..self },
            0xFF40 => IOView { lcd: LcdView { control: LcdControlView::of_byte(data), ..self.lcd }, ..self },
            0xFF41 => IOView { lcd: LcdView { status: self.lcd.status.written(data), ..self.lcd }, ..self },
            0xFF42 => IOView { lcd: LcdView { scroll_y: data, ..self.lcd }, ..self },
            0xFF43 => IOView { lcd: LcdView { scroll_x: data, ..self.lcd }, ..self },
            0xFF44 => self,
            0xFF45 => IOView { lcd: LcdView { lcd_y_compare: data, ..self.lcd }, ..self },
            0xFF46 => IOView { dma: self.dma.start(data), ..self },
            0xFF47 => IOView { lcd: LcdView { background_palette: Palette::of_byte(data), ..self.lcd }, ..self },
            0xFF48 => IOView { lcd: LcdView { obj_palette_0: Palette::of_byte(data), ..self.lcd }, ..self },
            0xFF49 => IOView { lcd: LcdView { obj_palette_1: Palette::of_byte(data), ..self.lcd }, ..self },
            0xFF4A => IOView { lcd: LcdView { window_y: data, ..self.lcd }, ..self },
            0xFF4B => IOView { lcd: LcdView { window_x: data, ..self.lcd }, ..self },
            0xFF50 => IOView { boot_rom_enable: data, boot_rom_disabled: self.boot_rom_disabled || data != 0, ..self },
            0xFFFF => IOView { interrupts: InterruptsView { interrupt_enable: data & 0b0001_1111, ..self.interrupts }, ..self },
            _ => if 0xFF30 <= address <= 0xFF3F {
                IOView { audio: AudioView { channel_3: AudioChannel3View { wave_pattern_ram: self.audio.channel_3.wave_pattern_ram.update(address - 0xFF30, data), ..self.audio.channel_3 }, ..self.audio }, ..self }
            } else {
                self
            },
        }
    }

    /// The result of a write of `data` at `address`: the block after it, or a
    /// fault where no register stands at the address.
    pub open spec fn write(self, address: u16, data: u8) -> Result<IOView, Error> {
        if is_register(address) {
            Ok(self.written(address, data))
        } else {
            Err(Error::MemoryWriteFault(address, data))
        }
    }
}

impl View for IO {
    type V = IOView;

    closed spec fn view(&self) -> IOView {
        IOView {
            joypad_input: self.joypad_input@,
            lcd: self.lcd@,
            serial: self.serial@,
            audio: self.audio@,
            timer: self.timer@,
            interrupts: self.interrupts@,
            dma: self.dma@,
            boot_rom_enable: self.boot_rom_enable@,
            boot_rom_disabled: self.boot_rom_disabled,
        }
    }
}

impl IO {
    pub fn new() -> (io: Self)
        ensures
            io@ == IOView::power_on(),
    {
        Self {
            joypad_input: JoypadInput::new(),
            lcd: Lcd::new(),
            serial: Serial::new(),
            audio: Audio::new(),
            timer: Timer::new(),
            interrupts: Interrupts::new(),
            dma: DMAController::new(),
            boot_rom_enable: IORegister::new(),
            boot_rom_disabled: false,
        }
    }

    /// The byte last written to the boot switch.
    pub fn boot_rom_enable(&self) -> (value: u8)
        ensures
            value == self@.boot_rom_enable,
    {
        self.boot_rom_enable.read()
    }

    /// Whether the boot program has been switched out of the address space.
    pub fn boot_rom_disabled(&self) -> (disabled: bool)
        ensures
            disabled == self@.boot_rom_disabled,
    {
        self.boot_rom_disabled
    }

    pub fn joypad(&self) -> (joypad: &JoypadInput)
        ensures
            joypad@ == self@.joypad_input,
    {
        &self.joypad_input
    }

    pub fn joypad_mut(&mut self) -> (joypad: &mut JoypadInput)
        ensures
            joypad@ == old(self)@.joypad_input,
            final(self)@ == (IOView { joypad_input: final(joypad)@, ..old(self)@ }),
    {
        &mut self.joypad_input
    }

    pub fn lcd(&self) -> (lcd: &Lcd)
        ensures
            lcd@ == self@.lcd,
    {
        &self.lcd
    }

    pub fn lcd_mut(&mut self) -> (lcd: &mut Lcd)
        ensures
            lcd@ == old(self)@.lcd,
            final(self)@ == (IOView { lcd: final(lcd)@, ..old(self)@ }),
    {
        &mut self.lcd
    }

    pub fn serial(&self) -> (serial: &Serial)
        ensures
            serial@ == self@.serial,
    {
        &self.serial
    }

    pub fn serial_mut(&mut self) -> (serial: &mut Serial)
        ensures
            serial@ == old(self)@.serial,
            final(self)@ == (IOView { serial: final(serial)@, ..old(self)@ }),
    {
        &mut self.serial
    }

    pub fn audio(&self) -> (audio: &Audio)
        ensures
            audio@ == self@.audio,
    {
        &self.audio
    }

    pub fn audio_mut(&mut self) -> (audio: &mut Audio)
        ensures
            audio@ == old(self)@.audio,
            final(self)@ == (IOView { audio: final(audio)@, ..old(self)@ }),
    {
        &mut self.audio
    }

    pub fn timer(&self) -> (timer: &Timer)
        ensures
            timer@ == self@.timer,
    {
        &self.timer
    }

    pub fn timer_mut(&mut self) -> (timer: &mut Timer)
        ensures
            timer@ == old(self)@.timer,
            final(self)@ == (IOView { timer: final(timer)@, ..old(self)@ }),
    {
        &mut self.timer
    }

    pub fn interrupts(&self) -> (interrupts: &Interrupts)
        ensures
            interrupts@ == self@.interrupts,
    {
        &self.interrupts
    }

    pub fn interrupts_mut(&mut self) -> (interrupts: &mut Interrupts)
        ensures
            interrupts@ == old(self)@.interrupts,
            final(self)@ == (IOView { interrupts: final(interrupts)@, ..old(self)@ }),
    {
        &mut self.interrupts
    }

    pub fn dma(&self) -> (dma: &DMAController)
        ensures
            dma@ == self@.dma,
    {
        &self.dma
    }

    pub fn dma_mut(&mut self) -> (dma: &mut DMAController)
        ensures
            dma@ == old(self)@.dma,
            final(self)@ == (IOView { dma: final(dma)@, ..old(self)@ }),
    {
        &mut self.dma
    }

    /// Reads the register at `address`.
    pub fn read_u8(&self, address: u16) -> (value: Result<u8, Error>)
        ensures
            value == self@.read(address),
    {
        reveal(IOView::register);
        if !(0xFF00 <= address && address <= 0xFF7F || address == 0xFFFF) {
            return Err(Error::MemoryReadFault(address));
        }
        Ok(
            match address {
                0xFF00 => self.joypad_input.read(),
                0xFF01 => self.serial.read_data(),
                0xFF02 => self.serial.read_control(),
                0xFF04 => self.timer.read_divider(),
                0xFF05 => self.timer.read_timer_counter(),
                0xFF06 => self.timer.read_timer_modulo(),
                0xFF07 => self.timer.read_timer_control(),
                0xFF0F => self.interrupts.read_interrupt_flag(),
                0xFF10 => self.audio.channel_1().read_sweep(),
                0xFF11 => self.audio.channel_1().read_length_timer_and_duty_cycle(),
                0xFF12 => self.audio.channel_1().read_volume_and_envelope(),
                0xFF13 => self.audio.channel_1().read_period_low(),
                0xFF14 => self.audio.channel_1().read_period_high_and_control(),
                0xFF16 => self.audio.channel_2().read_length_timer_and_duty_cycle(),
                0xFF17 => self.audio.channel_2().read_volume_and_envelope(),
                0xFF18 => self.audio.channel_2().read_period_low(),
                0xFF19 => self.audio.channel_2().read_period_high_and_control(),
                0xFF1A => self.audio.channel_3().read_dac_enable(),
                0xFF1B => self.audio.channel_3().read_length_timer(),
                0xFF1C => self.audio.channel_3().read_output_level(),
                0xFF1D => self.audio.channel_3().read_period_low(),
                0xFF1E => self.audio.channel_3().read_period_high_and_control(),
                0xFF20 => self.audio.channel_4().read_length_timer(),
                0xFF21 => self.audio.channel_4().read_volume_and_envelope(),
                0xFF22 => self.audio.channel_4().read_frequency_and_randomness(),
                0xFF23 => self.audio.channel_4().read_control(),
                0xFF24 => self.audio.read_master_volume_vin_panning(),
                0xFF25 => self.audio.read_sound_panning(),
                0xFF26 => self.audio.read_audio_master_control(),
                0xFF30..=0xFF3F => self.audio.channel_3().read_wave_pattern_ram(address - 0xFF30),
                0xFF40 => self.lcd.read_control(),
                0xFF41 => self.lcd.read_status(),
                0xFF42 => self.lcd.read_scroll_y(),
                0xFF43 => self.lcd.read_scroll_x(),
                0xFF44 => self.lcd.read_lcd_y(),
                0xFF45 => self.lcd.read_lcd_y_compare(),
                0xFF46 => self.dma.read_source_address(),
                0xFF47 => self.lcd.read_background_palette(),
                0xFF48 => self.lcd.read_obj_palette_0(),
                0xFF49 => self.lcd.read_obj_palette_1(),
                0xFF4A => self.lcd.read_window_y(),
                0xFF4B => self.lcd.read_window_x(),
                0xFF50 => self.boot_rom_enable.read(),
                0xFFFF => self.interrupts.read_interrupt_enable(),
                _ => 0xFF,
            },
        )
    }

    /// Writes `data` to the register at `address`.
    pub fn write_u8(&mut self, address: u16, data: u8) -> (result: Result<(), Error>)
        ensures
            result is Ok ==> old(self)@.write(address, data) == Ok::<IOView, Error>(final(self)@),
            result matches Err(error) ==> old(self)@.write(address, data) == Err::<IOView, Error>(
                error,
            ) && final(self)@ == old(self)@,
    {
        reveal(IOView::written);
        match address {
            0xFF00 => {
                self.joypad_input.write(data);
            },
            0xFF01 => {
                self.serial.write_data(data);
            },
            0xFF02 => {
                self.serial.write_control(data);
            },
            0xFF04 => {
                self.timer.write_divider(data);
            },
            0xFF05 => {
                self.timer.write_timer_counter(data);
            },
            0xFF06 => {
                self.timer.write_timer_modulo(data);
            },
            0xFF07 => {
                self.timer.write_timer_control(data);
            },
            0xFF0F => {
                self.interrupts.write_interrupt_flag(data);
            },
            0xFF10 => {
                self.audio.channel_1_mut().write_sweep(data);
            },
            0xFF11 => {
                self.audio.channel_1_mut().write_length_timer_and_duty_cycle(data);
            },
            0xFF12 => {
                self.audio.channel_1_mut().write_volume_and_envelope(data);
            },
            0xFF13 => {
                self.audio.channel_1_mut().write_period_low(data);
            },
            0xFF14 => {
                self.audio.channel_1_mut().write_period_high_and_control(data);
            },
            0xFF16 => {
                self.audio.channel_2_mut().write_length_timer_and_duty_cycle(data);
            },
            0xFF17 => {
                self.audio.channel_2_mut().write_volume_and_envelope(data);
            },
            0xFF18 => {
                self.audio.channel_2_mut().write_period_low(data);
            },
            0xFF19 => {
                self.audio.channel_2_mut().write_period_high_and_control(data);
            },
            0xFF1A => {
                self.audio.channel_3_mut().write_dac_enable(data);
            },
            0xFF1B => {
                self.audio.channel_3_mut().write_length_timer(data);
            },
            0xFF1C => {
                self.audio.channel_3_mut().write_output_level(data);
            },
            0xFF1D => {
                self.audio.channel_3_mut().write_period_low(data);
            },
            0xFF1E => {
                self.audio.channel_3_mut().write_period_high_and_control(data);
            },
            0xFF20 => {
                self.audio.channel_4_mut().write_length_timer(data);
            },
            0xFF21 => {
                self.audio.channel_4_mut().write_volume_and_envelope(data);
            },
            0xFF22 => {
                self.audio.channel_4_mut().write_frequency_and_randomness(data);
            },
            0xFF23 => {
                self.audio.channel_4_mut().write_control(data);
            },
            0xFF24 => {
                self.audio.write_master_volume_vin_panning(data);
            },
            0xFF25 => {
                self.audio.write_sound_panning(data);
            },
            0xFF26 => {
                self.audio.write_audio_master_control(data);
            },
            0xFF30..=0xFF3F => {
                self.audio.channel_3_mut().write_wave_pattern_ram(address - 0xFF30, data);
            },
            0xFF40 => {
                self.lcd.write_control(data);
            },
            0xFF41 => {
                self.lcd.write_status(data);
            },
            0xFF42 => {
                self.lcd.write_scroll_y(data);
            },
            0xFF43 => {
                self.lcd.write_scroll_x(data);
            },
            0xFF44 => {},
            0xFF45 => {
                self.lcd.write_lcd_y_compare(data);
            },
            0xFF46 => {
                self.dma.start_new_transfer(data);
            },
            0xFF47 => {
                self.lcd.write_background_palette(data);
            },
            0xFF48 => {
                self.lcd.write_obj_palette_0(data);
            },
            0xFF49 => {
                self.lcd.write_obj_palette_1(data);
            },
            0xFF4A => {
                self.lcd.write_window_y(data);
            },
            0xFF4B => {
                self.lcd.write_window_x(data);
            },
            0xFF50 => {
                self.boot_rom_enable.write(data);
                if data != 0 {
                    self.boot_rom_disabled = true;
                }
            },
            0xFFFF => {
                self.interrupts.write_interrupt_enable(data);
            },
            _ => {
                return Err(Error::MemoryWriteFault(address, data));
            },
        }
        Ok(())
    }
}

} // verus!
