use vstd::prelude::*;
use super::IORegister;

verus! {

/// The registers of the first pulse channel. They are storage: nothing is synthesised.
#[derive(Clone, Copy, Debug)]
pub struct AudioChannel1 {
    sweep: IORegister,
    length_timer_and_duty_cycle: IORegister,
    volume_and_envelope: IORegister,
    period_low: IORegister,
    period_high_and_control: IORegister,
}

/// What an [`AudioChannel1`] holds.
pub struct AudioChannel1View {
    /// NR10
    pub sweep: u8,
    /// NR11
    pub length_timer_and_duty_cycle: u8,
    /// NR12
    pub volume_and_envelope: u8,
    /// NR13
    pub period_low: u8,
    /// NR14
    pub period_high_and_control: u8,
}

impl View for AudioChannel1 {
    type V = AudioChannel1View;

    closed spec fn view(&self) -> AudioChannel1View {
        AudioChannel1View {
            sweep: self.sweep@,
            length_timer_and_duty_cycle: self.length_timer_and_duty_cycle@,
            volume_and_envelope: self.volume_and_envelope@,
            period_low: self.period_low@,
            period_high_and_control: self.period_high_and_control@,
        }
    }
}

impl AudioChannel1View {
    /// The block at power on: every register zero.
    pub open spec fn power_on() -> Self {
        AudioChannel1View {
            sweep: 0,
            length_timer_and_duty_cycle: 0,
            volume_and_envelope: 0,
            period_low: 0,
            period_high_and_control: 0,
        }
    }
}

impl AudioChannel1 {
    pub fn new() -> (block: Self)
        ensures
            block@ == AudioChannel1View::power_on(),
    {
        let block = Self {
            sweep: IORegister::new(),
            length_timer_and_duty_cycle: IORegister::new(),
            volume_and_envelope: IORegister::new(),
            period_low: IORegister::new(),
            period_high_and_control: IORegister::new(),
        };
        block
    }

    pub fn read_sweep(&self) -> (value: u8)
        ensures
            value == self@.sweep,
    {
        self.sweep.read()
    }

    pub fn write_sweep(&mut self, value: u8)
        ensures
            final(self)@ == (AudioChannel1View { sweep: value, ..old(self)@ }),
    {
        self.sweep.write(value);
    }

    pub fn read_length_timer_and_duty_cycle(&self) -> (value: u8)
        ensures
            value == self@.length_timer_and_duty_cycle,
    {
        self.length_timer_and_duty_cycle.read()
    }

    pub fn write_length_timer_and_duty_cycle(&mut self, value: u8)
        ensures
            final(self)@ == (AudioChannel1View { length_timer_and_duty_cycle: value, ..old(self)@ }),
    {
        self.length_timer_and_duty_cycle.write(value);
    }

    pub fn read_volume_and_envelope(&self) -> (value: u8)
        ensures
            value == self@.volume_and_envelope,
    {
        self.volume_and_envelope.read()
    }

    pub fn write_volume_and_envelope(&mut self, value: u8)
        ensures
            final(self)@ == (AudioChannel1View { volume_and_envelope: value, ..old(self)@ }),
    {
        self.volume_and_envelope.write(value);
    }

    pub fn read_period_low(&self) -> (value: u8)
        ensures
            value == self@.period_low,
    {
        self.period_low.read()
    }

    pub fn write_period_low(&mut self, value: u8)
        ensures
            final(self)@ == (AudioChannel1View { period_low: value, ..old(self)@ }),
    {
        self.period_low.write(value);
    }

    pub fn read_period_high_and_control(&self) -> (value: u8)
        ensures
            value == self@.period_high_and_control,
    {
        self.period_high_and_control.read()
    }

    pub fn write_period_high_and_control(&mut self, value: u8)
        ensures
            final(self)@ == (AudioChannel1View { period_high_and_control: value, ..old(self)@ }),
    {
        self.period_high_and_control.write(value);
    }

}

/// The registers of the second pulse channel.
#[derive(Clone, Copy, Debug)]
pub struct AudioChannel2 {
    length_timer_and_duty_cycle: IORegister,
    volume_and_envelope: IORegister,
    period_low: IORegister,
    period_high_and_control: IORegister,
}

/// What an [`AudioChannel2`] holds.
pub struct AudioChannel2View {
    /// NR21
    pub length_timer_and_duty_cycle: u8,
    /// NR22
    pub volume_and_envelope: u8,
    /// NR23
    pub period_low: u8,
    /// NR24
    pub period_high_and_control: u8,
}

impl View for AudioChannel2 {
    type V = AudioChannel2View;

    closed spec fn view(&self) -> AudioChannel2View {
        AudioChannel2View {
            length_timer_and_duty_cycle: self.length_timer_and_duty_cycle@,
            volume_and_envelope: self.volume_and_envelope@,
            period_low: self.period_low@,
            period_high_and_control: self.period_high_and_control@,
        }
    }
}

impl AudioChannel2View {
    /// The block at power on: every register zero.
    pub open spec fn power_on() -> Self {
        AudioChannel2View {
            length_timer_and_duty_cycle: 0,
            volume_and_envelope: 0,
            period_low: 0,
            period_high_and_control: 0,
        }
    }
}

impl AudioChannel2 {
    pub fn new() -> (block: Self)
        ensures
            block@ == AudioChannel2View::power_on(),
    {
        let block = Self {
            length_timer_and_duty_cycle: IORegister::new(),
            volume_and_envelope: IORegister::new(),
            period_low: IORegister::new(),
            period_high_and_control: IORegister::new(),
        };
        block
    }

    pub fn read_length_timer_and_duty_cycle(&self) -> (value: u8)
        ensures
            value == self@.length_timer_and_duty_cycle,
    {
        self.length_timer_and_duty_cycle.read()
    }

    pub fn write_length_timer_and_duty_cycle(&mut self, value: u8)
        ensures
            final(self)@ == (AudioChannel2View { length_timer_and_duty_cycle: value, ..old(self)@ }),
    {
        self.length_timer_and_duty_cycle.write(value);
    }

    pub fn read_volume_and_envelope(&self) -> (value: u8)
        ensures
            value == self@.volume_and_envelope,
    {
        self.volume_and_envelope.read()
    }

    pub fn write_volume_and_envelope(&mut self, value: u8)
        ensures
            final(self)@ == (AudioChannel2View { volume_and_envelope: value, ..old(self)@ }),
    {
        self.volume_and_envelope.write(value);
    }

    pub fn read_period_low(&self) -> (value: u8)
        ensures
            value == self@.period_low,
    {
        self.period_low.read()
    }

    pub fn write_period_low(&mut self, value: u8)
        ensures
            final(self)@ == (AudioChannel2View { period_low: value, ..old(self)@ }),
    {
        self.period_low.write(value);
    }

    pub fn read_period_high_and_control(&self) -> (value: u8)
        ensures
            value == self@.period_high_and_control,
    {
        self.period_high_and_control.read()
    }

    pub fn write_period_high_and_control(&mut self, value: u8)
        ensures
            final(self)@ == (AudioChannel2View { period_high_and_control: value, ..old(self)@ }),
    {
        self.period_high_and_control.write(value);
    }

}

/// The registers of the wave channel and its sixteen bytes of wave pattern.
#[derive(Clone, Copy, Debug)]
pub struct AudioChannel3 {
    dac_enable: IORegister,
    length_timer: IORegister,
    output_level: IORegister,
    period_low: IORegister,
    period_high_and_control: IORegister,
    wave_pattern_ram: [u8; 16],
}

/// What an [`AudioChannel3`] holds.
pub struct AudioChannel3View {
    /// NR30
    pub dac_enable: u8,
    /// NR31
    pub length_timer: u8,
    /// NR32
    pub output_level: u8,
    /// NR33
    pub period_low: u8,
    /// NR34
    pub period_high_and_control: u8,
    /// The wave pattern, sixteen bytes.
    pub wave_pattern_ram: Seq<u8>,
}

impl View for AudioChannel3 {
    type V = AudioChannel3View;

    closed spec fn view(&self) -> AudioChannel3View {
        AudioChannel3View {
            dac_enable: self.dac_enable@,
            length_timer: self.length_timer@,
            output_level: self.output_level@,
            period_low: self.period_low@,
            period_high_and_control: self.period_high_and_control@,
            wave_pattern_ram: self.wave_pattern_ram@,
        }
    }
}

impl AudioChannel3View {
    /// The block at power on: every register zero.
    pub open spec fn power_on() -> Self {
        AudioChannel3View {
            dac_enable: 0,
            length_timer: 0,
            output_level: 0,
            period_low: 0,
            period_high_and_control: 0,
            wave_pattern_ram: Seq::new(16, |i: int| 0u8),
        }
    }
}

impl AudioChannel3 {
    pub fn new() -> (block: Self)
        ensures
            block@ == AudioChannel3View::power_on(),
    {
        let block = Self {
            dac_enable: IORegister::new(),
            length_timer: IORegister::new(),
            output_level: IORegister::new(),
            period_low: IORegister::new(),
            period_high_and_control: IORegister::new(),
            wave_pattern_ram: [0u8; 16],
        };
        assert(block@.wave_pattern_ram =~= Seq::new(16, |i: int| 0u8));
        block
    }

    pub fn read_dac_enable(&self) -> (value: u8)
        ensures
            value == self@.dac_enable,
    {
        self.dac_enable.read()
    }

    pub fn write_dac_enable(&mut self, value: u8)
        ensures
            final(self)@ == (AudioChannel3View { dac_enable: value, ..old(self)@ }),
    {
        self.dac_enable.write(value);
    }

    pub fn read_length_timer(&self) -> (value: u8)
        ensures
            value == self@.length_timer,
    {
        self.length_timer.read()
    }

    pub fn write_length_timer(&mut self, value: u8)
        ensures
            final(self)@ == (AudioChannel3View { length_timer: value, ..old(self)@ }),
    {
        self.length_timer.write(value);
    }

    pub fn read_output_level(&self) -> (value: u8)
        ensures
            value == self@.output_level,
    {
        self.output_level.read()
    }

    pub fn write_output_level(&mut self, value: u8)
        ensures
            final(self)@ == (AudioChannel3View { output_level: value, ..old(self)@ }),
    {
        self.output_level.write(value);
    }

    pub fn read_period_low(&self) -> (value: u8)
        ensures
            value == self@.period_low,
    {
        self.period_low.read()
    }

    pub fn write_period_low(&mut self, value: u8)
        ensures
            final(self)@ == (AudioChannel3View { period_low: value, ..old(self)@ }),
    {
        self.period_low.write(value);
    }

    pub fn read_period_high_and_control(&self) -> (value: u8)
        ensures
            value == self@.period_high_and_control,
    {
        self.period_high_and_control.read()
    }

    pub fn write_period_high_and_control(&mut self, value: u8)
        ensures
            final(self)@ == (AudioChannel3View { period_high_and_control: value, ..old(self)@ }),
    {
        self.period_high_and_control.write(value);
    }

    /// The wave pattern always holds sixteen bytes.
    pub proof fn holds_16_wave_bytes(&self)
        ensures
            self@.wave_pattern_ram.len() == 16,
    {
    }

    pub fn read_wave_pattern_ram(&self, index: u16) -> (value: u8)
        requires
            index < 16,
        ensures
            value == self@.wave_pattern_ram[index as int],
    {
        self.wave_pattern_ram[index as usize]
    }

    pub fn write_wave_pattern_ram(&mut self, index: u16, value: u8)
        requires
            index < 16,
        ensures
            final(self)@ == (AudioChannel3View {
                wave_pattern_ram: old(self)@.wave_pattern_ram.update(index as int, value),
                ..old(self)@
            }),
            final(self)@.wave_pattern_ram.len() == 16,
    {
        self.wave_pattern_ram[index as usize] = value;
    }

}

/// The registers of the noise channel.
#[derive(Clone, Copy, Debug)]
pub struct AudioChannel4 {
    length_timer: IORegister,
    volume_and_envelope: IORegister,
    frequency_and_randomness: IORegister,
    control: IORegister,
}

/// What an [`AudioChannel4`] holds.
pub struct AudioChannel4View {
    /// NR41
    pub length_timer: u8,
    /// NR42
    pub volume_and_envelope: u8,
    /// NR43
    pub frequency_and_randomness: u8,
    /// NR44
    pub control: u8,
}

impl View for AudioChannel4 {
    type V = AudioChannel4View;

    closed spec fn view(&self) -> AudioChannel4View {
        AudioChannel4View {
            length_timer: self.length_timer@,
            volume_and_envelope: self.volume_and_envelope@,
            frequency_and_randomness: self.frequency_and_randomness@,
            control: self.control@,
        }
    }
}

impl AudioChannel4View {
    /// The block at power on: every register zero.
    pub open spec fn power_on() -> Self {
        AudioChannel4View {
            length_timer: 0,
            volume_and_envelope: 0,
            frequency_and_randomness: 0,
            control: 0,
        }
    }
}

impl AudioChannel4 {
    pub fn new() -> (block: Self)
        ensures
            block@ == AudioChannel4View::power_on(),
    {
        let block = Self {
            length_timer: IORegister::new(),
            volume_and_envelope: IORegister::new(),
            frequency_and_randomness: IORegister::new(),
            control: IORegister::new(),
        };
        block
    }

    pub fn read_length_timer(&self) -> (value: u8)
        ensures
            value == self@.length_timer,
    {
        self.length_timer.read()
    }

    pub fn write_length_timer(&mut self, value: u8)
        ensures
            final(self)@ == (AudioChannel4View { length_timer: value, ..old(self)@ }),
    {
        self.length_timer.write(value);
    }

    pub fn read_volume_and_envelope(&self) -> (value: u8)
        ensures
            value == self@.volume_and_envelope,
    {
        self.volume_and_envelope.read()
    }

    pub fn write_volume_and_envelope(&mut self, value: u8)
        ensures
            final(self)@ == (AudioChannel4View { volume_and_envelope: value, ..old(self)@ }),
    {
        self.volume_and_envelope.write(value);
    }

    pub fn read_frequency_and_randomness(&self) -> (value: u8)
        ensures
            value == self@.frequency_and_randomness,
    {
        self.frequency_and_randomness.read()
    }

    pub fn write_frequency_and_randomness(&mut self, value: u8)
        ensures
            final(self)@ == (AudioChannel4View { frequency_and_randomness: value, ..old(self)@ }),
    {
        self.frequency_and_randomness.write(value);
    }

    pub fn read_control(&self) -> (value: u8)
        ensures
            value == self@.control,
    {
        self.control.read()
    }

    pub fn write_control(&mut self, value: u8)
        ensures
            final(self)@ == (AudioChannel4View { control: value, ..old(self)@ }),
    {
        self.control.write(value);
    }

}

/// The sound registers. They read back what was written and drive nothing.
#[derive(Clone, Copy, Debug)]
pub struct Audio {
    audio_master_control: IORegister,
    sound_panning: IORegister,
    master_volume_vin_panning: IORegister,
    channel_1: AudioChannel1,
    channel_2: AudioChannel2,
    channel_3: AudioChannel3,
    channel_4: AudioChannel4,
}

/// What an [`Audio`] holds.
pub struct AudioView {
    /// NR52
    pub audio_master_control: u8,
    /// NR51
    pub sound_panning: u8,
    /// NR50
    pub master_volume_vin_panning: u8,
    pub channel_1: AudioChannel1View,
    pub channel_2: AudioChannel2View,
    pub channel_3: AudioChannel3View,
    pub channel_4: AudioChannel4View,
}

impl View for Audio {
    type V = AudioView;

    closed spec fn view(&self) -> AudioView {
        AudioView {
            audio_master_control: self.audio_master_control@,
            sound_panning: self.sound_panning@,
            master_volume_vin_panning: self.master_volume_vin_panning@,
            channel_1: self.channel_1@,
            channel_2: self.channel_2@,
            channel_3: self.channel_3@,
            channel_4: self.channel_4@,
        }
    }
}

impl AudioView {
    /// The block at power on: every register zero.
    pub open spec fn power_on() -> Self {
        AudioView {
            audio_master_control: 0,
            sound_panning: 0,
            master_volume_vin_panning: 0,
            channel_1: AudioChannel1View::power_on(),
            channel_2: AudioChannel2View::power_on(),
            channel_3: AudioChannel3View::power_on(),
            channel_4: AudioChannel4View::power_on(),
        }
    }
}

impl Audio {
    pub fn new() -> (block: Self)
        ensures
            block@ == AudioView::power_on(),
    {
        let block = Self {
            audio_master_control: IORegister::new(),
            sound_panning: IORegister::new(),
            master_volume_vin_panning: IORegister::new(),
            channel_1: AudioChannel1::new(),
            channel_2: AudioChannel2::new(),
            channel_3: AudioChannel3::new(),
            channel_4: AudioChannel4::new(),
        };
        block
    }

    pub fn read_audio_master_control(&self) -> (value: u8)
        ensures
            value == self@.audio_master_control,
    {
        self.audio_master_control.read()
    }

    pub fn write_audio_master_control(&mut self, value: u8)
        ensures
            final(self)@ == (AudioView { audio_master_control: value, ..old(self)@ }),
    {
        self.audio_master_control.write(value);
    }

    pub fn read_sound_panning(&self) -> (value: u8)
        ensures
            value == self@.sound_panning,
    {
        self.sound_panning.read()
    }

    pub fn write_sound_panning(&mut self, value: u8)
        ensures
            final(self)@ == (AudioView { sound_panning: value, ..old(self)@ }),
    {
        self.sound_panning.write(value);
    }

    pub fn read_master_volume_vin_panning(&self) -> (value: u8)
        ensures
            value == self@.master_volume_vin_panning,
    {
        self.master_volume_vin_panning.read()
    }

    pub fn write_master_volume_vin_panning(&mut self, value: u8)
        ensures
            final(self)@ == (AudioView { master_volume_vin_panning: value, ..old(self)@ }),
    {
        self.master_volume_vin_panning.write(value);
    }

    pub fn channel_1(&self) -> (channel: &AudioChannel1)
        ensures
            channel@ == self@.channel_1,
    {
        &self.channel_1
    }

    pub fn channel_1_mut(&mut self) -> (channel: &mut AudioChannel1)
        ensures
            channel@ == old(self)@.channel_1,
            final(self)@ == (AudioView { channel_1: final(channel)@, ..old(self)@ }),
    {
        &mut self.channel_1
    }

    pub fn channel_2(&self) -> (channel: &AudioChannel2)
        ensures
            channel@ == self@.channel_2,
    {
        &self.channel_2
    }

    pub fn channel_2_mut(&mut self) -> (channel: &mut AudioChannel2)
        ensures
            channel@ == old(self)@.channel_2,
            final(self)@ == (AudioView { channel_2: final(channel)@, ..old(self)@ }),
    {
        &mut self.channel_2
    }

    pub fn channel_3(&self) -> (channel: &AudioChannel3)
        ensures
            channel@ == self@.channel_3,
    {
        &self.channel_3
    }

    pub fn channel_3_mut(&mut self) -> (channel: &mut AudioChannel3)
        ensures
            channel@ == old(self)@.channel_3,
            final(self)@ == (AudioView { channel_3: final(channel)@, ..old(self)@ }),
    {
        &mut self.channel_3
    }

    pub fn channel_4(&self) -> (channel: &AudioChannel4)
        ensures
            channel@ == self@.channel_4,
    {
        &self.channel_4
    }

    pub fn channel_4_mut(&mut self) -> (channel: &mut AudioChannel4)
        ensures
            channel@ == old(self)@.channel_4,
            final(self)@ == (AudioView { channel_4: final(channel)@, ..old(self)@ }),
    {
        &mut self.channel_4
    }

}

} // verus!
