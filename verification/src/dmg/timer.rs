use vstd::prelude::*;
use crate::dmg::busconnection::BusConnection;

verus! {

/// The divider and timer registers (0xFF04..=0xFF07) and the count of CPU
/// cycles left until the next TIMA tick.
#[derive(Clone, Copy, Debug, PartialEq, Eq, Structural)]
pub struct Timer {
    pub div: u8,  // 0xFF04
    pub tima: u8,  // 0xFF05
    pub tma: u8,  // 0xFF06
    pub tac: u8,  // 0xFF07: bit 2 = timer enabled, bits 1..0 = input clock select
    pub timer_counter: u16,
}

/// CPU cycles per TIMA tick for the clock selected by the low two bits of TAC
/// (00: /1024, 01: /16, 10: /64, 11: /256).
pub open spec fn cycles_per_tick(tac: u8) -> u16 {
    let select = tac % 4;
    if select == 0 {
        1024
    } else if select == 1 {
        16
    } else if select == 2 {
        64
    } else {
        256
    }
}

/// Bit 2 of TAC enables the timer.
pub open spec fn tac_enabled(tac: u8) -> bool {
    (tac / 4) % 2 == 1
}

pub open spec fn is_timer_address(address: u16) -> bool {
    0xFF04 <= address <= 0xFF07
}

/// The timer after `cycles` CPU cycles: DIV counts up and drops to zero when
/// it would pass 255; when enabled, the counter runs down and, once the
/// cycles exceed it, is reloaded and TIMA ticks (wrapping to TMA after 255).
pub open spec fn timer_step(t: Timer, cycles: u8) -> Timer {
    let div: u8 = if t.div + cycles > 255 {
        0
    } else {
        (t.div + cycles) as u8
    };
    if !tac_enabled(t.tac) {
        Timer { div, ..t }
    } else if cycles > t.timer_counter {
        Timer {
            div,
            timer_counter: cycles_per_tick(t.tac),
            tima: if t.tima == 255 {
                t.tma
            } else {
                (t.tima + 1) as u8
            },
            ..t
        }
    } else {
        Timer { div, timer_counter: (t.timer_counter - cycles) as u16, ..t }
    }
}

impl Timer {
    /// The power-on timer: all registers zero and a full period (TAC 0 selects /1024).
    pub open spec fn default_spec() -> Timer {
        Timer { div: 0, tima: 0, tma: 0, tac: 0, timer_counter: 1024 }
    }
}

impl Default for Timer {
    fn default() -> (r: Timer)
        ensures
            r == Timer::default_spec(),
    {
        // TAC starts at zero so the timer_counter begins at its period
        Timer { div: 0, tima: 0, tma: 0, tac: 0, timer_counter: 1024 }
    }
}

impl View for Timer {
    type V = Timer;

    open spec fn view(&self) -> Timer {
        *self
    }
}

impl BusConnection for Timer {
    open spec fn can_read(v: Timer, address: u16) -> bool {
        is_timer_address(address)
    }

    open spec fn read_spec(v: Timer, address: u16) -> u8 {
        if address == 0xFF04 {
            v.div
        } else if address == 0xFF05 {
            v.tima
        } else if address == 0xFF06 {
            v.tma
        } else {
            v.tac
        }
    }

    open spec fn can_write(v: Timer, address: u16) -> bool {
        is_timer_address(address)
    }

    /// Writing DIV resets it; writing TAC reloads the counter when the clock changes.
    open spec fn write_spec(v: Timer, address: u16, value: u8) -> Timer {
        if address == 0xFF04 {
            Timer { div: 0, ..v }
        } else if address == 0xFF05 {
            Timer { tima: value, ..v }
        } else if address == 0xFF06 {
            Timer { tma: value, ..v }
        } else if cycles_per_tick(v.tac) != cycles_per_tick(value) {
            Timer { tac: value, timer_counter: cycles_per_tick(value), ..v }
        } else {
            Timer { tac: value, ..v }
        }
    }

    fn read_byte(&self, address: u16) -> (r: u8) {
        match address {
            0xFF04 => self.div,
            0xFF05 => self.tima,
            0xFF06 => self.tma,
            _ => self.tac,
        }
    }

    fn write_byte(&mut self, address: u16, value: u8) {
        match address {
            0xFF04 => self.div = 0,
            0xFF05 => self.tima = value,
            0xFF06 => self.tma = value,
            _ => {
                let curr_freq = self.cpu_cycles_per_tick();
                self.tac = value;
                let new_freq = self.cpu_cycles_per_tick();
                if curr_freq != new_freq {
                    self.timer_counter = self.cpu_cycles_per_tick();
                }
            },
        }
    }
}

impl Timer {
    pub fn step(&mut self, cycles: u8)
        ensures
            *final(self) == timer_step(*old(self), cycles),
    {
        if self.div as u16 + cycles as u16 > 255 {
            self.div = 0;
        } else {
            self.div = self.div + cycles;
        }
        if self.timer_enabled() {
            if cycles as u16 > self.timer_counter {
                // Reset the timer
                self.timer_counter = self.cpu_cycles_per_tick();
                // timer about to overflow
                if self.tima == 255 {
                    self.tima = self.tma;
                } else {
                    self.tima = self.tima + 1;
                }
            } else {
                self.timer_counter = self.timer_counter - cycles as u16;
            }
        }
    }

    /// Bit 2 of TAC tells if the timer is enabled.
    pub fn timer_enabled(&self) -> (r: bool)
        ensures
            r == tac_enabled(self.tac),
    {
        (self.tac / 4) % 2 == 1
    }

    /// The number of CPU cycles per timer tick for the clock selected in TAC.
    pub fn cpu_cycles_per_tick(&self) -> (r: u16)
        ensures
            r == cycles_per_tick(self.tac),
    {
        match self.tac % 4 {
            0 => 1024,  // 00: 4096 Hz
            1 => 16,  // 01: 262144 Hz
            2 => 64,  // 10: 65536 Hz
            _ => 256,  // 11: 16384 Hz
        }
    }

    pub fn div(&self) -> (r: u8)
        ensures
            r == self.div,
    {
        self.div
    }

    pub fn tima(&self) -> (r: u8)
        ensures
            r == self.tima,
    {
        self.tima
    }
}

/// Any write to DIV leaves it zero.
pub proof fn lemma_div_write_resets(t: Timer, value: u8)
    ensures
        Timer::read_spec(Timer::write_spec(t, 0xFF04, value), 0xFF04) == 0,
{
}

/// While TAC has the timer disabled, stepping moves only DIV.
pub proof fn lemma_disabled_timer_holds(t: Timer, cycles: u8)
    requires
        !tac_enabled(t.tac),
    ensures
        timer_step(t, cycles).timer_counter == t.timer_counter,
        timer_step(t, cycles).tima == t.tima,
{
}

/// With bit 2 of TAC set, a step either makes exactly one tick or none. When
/// its cycles exceed the counter, TIMA counts up by one (reloading from TMA
/// after 255) and the counter restarts at the period that bits 1..0 of TAC
/// select: 1024, 16, 64 or 256 cycles. Otherwise TIMA holds and the counter
/// runs down by the cycles. DIV counts up by the cycles, dropping to 0 when
/// it would pass 255; TMA and TAC are untouched.
pub proof fn lemma_enabled_timer_ticks(t: Timer, cycles: u8)
    requires
        (t.tac / 4) % 2 == 1,
    ensures
        ({
            let n = timer_step(t, cycles);
            let period: int = if t.tac % 4 == 0 {
                1024
            } else if t.tac % 4 == 1 {
                16
            } else if t.tac % 4 == 2 {
                64
            } else {
                256
            };
            &&& cycles > t.timer_counter ==> {
                &&& t.tima < 255 ==> n.tima == t.tima + 1
                &&& t.tima == 255 ==> n.tima == t.tma
                &&& n.timer_counter == period
            }
            &&& cycles <= t.timer_counter ==> {
                &&& n.tima == t.tima
                &&& n.timer_counter == t.timer_counter - cycles
            }
            &&& n.div == (if t.div + cycles > 255 { 0 } else { t.div + cycles })
            &&& n.tma == t.tma
            &&& n.tac == t.tac
        }),
{
}

} // verus!
