use vstd::prelude::*;

verus! {

/// The addresses of the sound registers and the wave pattern RAM.
pub open spec fn is_apu_address(address: u16) -> bool {
    ||| 0xFF10 <= address <= 0xFF14
    ||| 0xFF16 <= address <= 0xFF1E
    ||| 0xFF20 <= address <= 0xFF26
    ||| 0xFF30 <= address <= 0xFF3F
}

pub open spec fn is_wave_address(address: u16) -> bool {
    0xFF30 <= address <= 0xFF3F
}

/// The Audio Processing Unit: a register file over its addresses.
pub struct Apu {
    // Sound Mode 1 Registers
    pub sweep_register: u8,  // 0xFF10
    pub length_wave_pattern_duty: u8,  // 0xFF11
    pub envelope: u8,  // 0xFF12
    pub frequency_lo: u8,  // 0xFF13
    pub frequency_hi: u8,  // 0xFF14
    // Sound Mode 2 Registers
    pub sm2_length_wave_pattern_duty: u8,  // 0xFF16
    pub sm2_envelope: u8,  // 0xFF17
    pub sm2_frequency_lo: u8,  // 0xFF18
    pub sm2_frequency_hi: u8,  // 0xFF19
    // Sound Mode 3 Registers
    pub sm3_sound_toggle: u8,  // 0xFF1A
    pub sm3_sound_length: u8,  // 0xFF1B
    pub sm3_select_output_level: u8,  // 0xFF1C
    pub sm3_frequency_lower_data: u8,  // 0xFF1D
    pub sm3_frequency_higher_data: u8,  // 0xFF1E
    // Sound Mode 4 Registers
    pub sm4_sound_length: u8,  // 0xFF20
    pub sm4_initial_volume: u8,  // 0xFF21
    pub sm4_polynomial_counter: u8,  // 0xFF22
    pub sm4_counter_consecutive: u8,  // 0xFF23
    pub channel_control: u8,  // 0xFF24
    pub sound_output_terminal: u8,  // 0xFF25
    pub sound_on_off: u8,  // 0xFF26
    pub wave_pattern_ram: WavePatternRam,  // 0xFF30 - 0xFF3F // arbitrary sound data storage
}

/// The sixteen bytes of wave pattern RAM at 0xFF30..=0xFF3F.
pub struct WavePatternRam {
    pub ram: [u8; 16],
}

impl WavePatternRam {
    pub fn read(&self, address: u16) -> (r: u8)
        requires
            is_wave_address(address),
        ensures
            r == self.ram@[address - 0xFF30],
    {
        self.ram[(address - 0xFF30) as usize]
    }

    pub fn write(&mut self, address: u16, value: u8)
        requires
            is_wave_address(address),
        ensures
            final(self).ram@ == old(self).ram@.update(address - 0xFF30, value),
    {
        self.ram[(address - 0xFF30) as usize] = value;
    }

    pub fn ram(&self) -> (r: [u8; 16])
        ensures
            r@ == self.ram@,
    {
        self.ram
    }
}

impl Apu {
    /// The byte held at an APU address.
    pub open spec fn register(&self, address: u16) -> u8 {
        if address == 0xFF10 {
            self.sweep_register
        } else if address == 0xFF11 {
            self.length_wave_pattern_duty
        } else if address == 0xFF12 {
            self.envelope
        } else if address == 0xFF13 {
            self.frequency_lo
        } else if address == 0xFF14 {
            self.frequency_hi
        } else if address == 0xFF16 {
            self.sm2_length_wave_pattern_duty
        } else if address == 0xFF17 {
            self.sm2_envelope
        } else if address == 0xFF18 {
            self.sm2_frequency_lo
        } else if address == 0xFF19 {
            self.sm2_frequency_hi
        } else if address == 0xFF1A {
            self.sm3_sound_toggle
        } else if address == 0xFF1B {
            self.sm3_sound_length
        } else if address == 0xFF1C {
            self.sm3_select_output_level
        } else if address == 0xFF1D {
            self.sm3_frequency_lower_data
        } else if address == 0xFF1E {
            self.sm3_frequency_higher_data
        } else if address == 0xFF20 {
            self.sm4_sound_length
        } else if address == 0xFF21 {
            self.sm4_initial_volume
        } else if address == 0xFF22 {
            self.sm4_polynomial_counter
        } else if address == 0xFF23 {
            self.sm4_counter_consecutive
        } else if address == 0xFF24 {
            self.channel_control
        } else if address == 0xFF25 {
            self.sound_output_terminal
        } else if address == 0xFF26 {
            self.sound_on_off
        } else {
            self.wave_pattern_ram.ram@[address - 0xFF30]
        }
    }
}

impl View for Apu {
    type V = Map<u16, u8>;

    /// Every APU address mapped to the byte it holds.
    open spec fn view(&self) -> Map<u16, u8> {
        Map::new(|a: u16| is_apu_address(a), |a: u16| self.register(a))
    }
}

impl Default for Apu {
    fn default() -> (r: Apu)
        ensures
            r@ == Map::new(|a: u16| is_apu_address(a), |a: u16| 0u8),
    {
        let r = Apu {
            sweep_register: 0,
            length_wave_pattern_duty: 0,
            envelope: 0,
            frequency_lo: 0,
            frequency_hi: 0,
            sm2_length_wave_pattern_duty: 0,
            sm2_envelope: 0,
            sm2_frequency_lo: 0,
            sm2_frequency_hi: 0,
            sm3_sound_toggle: 0,
            sm3_sound_length: 0,
            sm3_select_output_level: 0,
            sm3_frequency_lower_data: 0,
            sm3_frequency_higher_data: 0,
            sm4_sound_length: 0,
            sm4_initial_volume: 0,
            sm4_polynomial_counter: 0,
            sm4_counter_consecutive: 0,
            channel_control: 0,
            sound_output_terminal: 0,
            sound_on_off: 0,
            wave_pattern_ram: WavePatternRam { ram: [0u8; 16] },
        };
        assert(r@ =~= Map::new(|a: u16| is_apu_address(a), |a: u16| 0u8));
        r
    }
}

impl Apu {
    pub fn read(&self, address: u16) -> (r: u8)
        requires
            is_apu_address(address),
        ensures
            r == self@[address],
    {
        match address {
            0xFF10 => self.sweep_register,
            0xFF11 => self.length_wave_pattern_duty,
            0xFF12 => self.envelope,
            0xFF13 => self.frequency_lo,
            0xFF14 => self.frequency_hi,
            0xFF16 => self.sm2_length_wave_pattern_duty,
            0xFF17 => self.sm2_envelope,
            0xFF18 => self.sm2_frequency_lo,
            0xFF19 => self.sm2_frequency_hi,
            0xFF1A => self.sm3_sound_toggle,
            0xFF1B => self.sm3_sound_length,
            0xFF1C => self.sm3_select_output_level,
            0xFF1D => self.sm3_frequency_lower_data,
            0xFF1E => self.sm3_frequency_higher_data,
            0xFF20 => self.sm4_sound_length,
            0xFF21 => self.sm4_initial_volume,
            0xFF22 => self.sm4_polynomial_counter,
            0xFF23 => self.sm4_counter_consecutive,
            0xFF24 => self.channel_control,
            0xFF25 => self.sound_output_terminal,
            0xFF26 => self.sound_on_off,
            _ => self.wave_pattern_ram.read(address),
        }
    }

    pub fn write(&mut self, address: u16, value: u8)
        requires
            is_apu_address(address),
        ensures
            final(self)@ == old(self)@.insert(address, value),
    {
        match address {
            0xFF10 => self.sweep_register = value,
            0xFF11 => self.length_wave_pattern_duty = value,
            0xFF12 => self.envelope = value,
            0xFF13 => self.frequency_lo = value,
            0xFF14 => self.frequency_hi = value,
            0xFF16 => self.sm2_length_wave_pattern_duty = value,
            0xFF17 => self.sm2_envelope = value,
            0xFF18 => self.sm2_frequency_lo = value,
            0xFF19 => self.sm2_frequency_hi = value,
            0xFF1A => self.sm3_sound_toggle = value,
            0xFF1B => self.sm3_sound_length = value,
            0xFF1C => self.sm3_select_output_level = value,
            0xFF1D => self.sm3_frequency_lower_data = value,
            0xFF1E => self.sm3_frequency_higher_data = value,
            0xFF20 => self.sm4_sound_length = value,
            0xFF21 => self.sm4_initial_volume = value,
            0xFF22 => self.sm4_polynomial_counter = value,
            0xFF23 => self.sm4_counter_consecutive = value,
            0xFF24 => self.channel_control = value,
            0xFF25 => self.sound_output_terminal = value,
            0xFF26 => self.sound_on_off = value,
            _ => self.wave_pattern_ram.write(address, value),
        }
        assert(final(self)@ =~= old(self)@.insert(address, value));
    }

    pub fn sweep_register(&self) -> (r: u8)
        ensures
            r == self@[0xFF10],
    {
        self.sweep_register
    }

    pub fn wave_pattern_ram(&self) -> (r: [u8; 16])
        ensures
            forall|i: int| 0 <= i < 16 ==> r@[i] == self@[(0xFF30 + i) as u16],
    {
        self.wave_pattern_ram.ram()
    }
}

} // verus!
