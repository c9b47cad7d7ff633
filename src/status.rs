//! Which status LEDs are lit, and a short flash that the timer ends.
use crate::machine::TimerCommand;
use vstd::prelude::*;

verus! {

/// How long a flash lasts, in microseconds.
pub const FLASH_MICROS: u32 = 10_000;

/// Which of the red, green and blue status LEDs are lit.
#[derive(Clone, Copy, Debug, PartialEq, Eq, Structural)]
pub struct Lights {
    pub red: bool,
    pub green: bool,
    pub blue: bool,
}

/// Remembers whether a flash is under way.
struct Flasher {
    flashing: bool,
}

impl Flasher {
    fn new() -> (r: Flasher)
        ensures
            !r.flashing,
    {
        Flasher { flashing: false }
    }

    /// Starts a flash: the timer must fire when it is over.
    fn flash(&mut self) -> (r: TimerCommand)
        ensures
            final(self).flashing,
            r == TimerCommand::Start(FLASH_MICROS),
    {
        self.flashing = true;
        TimerCommand::Start(FLASH_MICROS)
    }

    /// The timer fired: whether that ended a flash.
    fn tick(&mut self) -> (r: bool)
        ensures
            r == old(self).flashing,
            !final(self).flashing,
    {
        let turn_off = self.flashing;
        if self.flashing {
            self.flashing = false;
        }
        turn_off
    }
}

/// What `StatusLights` holds: the lit LEDs and whether a flash is under way.
pub struct StatusView {
    pub lights: Lights,
    pub flashing: bool,
}

/// The status LEDs: red while busy, green while a press is short, blue once
/// it is long.
pub struct StatusLights {
    lights: Lights,
    flasher: Flasher,
}

impl View for StatusLights {
    type V = StatusView;

    closed spec fn view(&self) -> StatusView {
        StatusView { lights: self.lights, flashing: self.flasher.flashing }
    }
}

impl StatusLights {
    pub fn new() -> (r: StatusLights)
        ensures
            r@ == (StatusView {
                lights: Lights { red: false, green: false, blue: false },
                flashing: false,
            }),
    {
        StatusLights {
            lights: Lights { red: false, green: false, blue: false },
            flasher: Flasher::new(),
        }
    }

    /// The LEDs that are lit.
    pub fn lights(&self) -> (r: Lights)
        ensures
            r == self@.lights,
    {
        self.lights
    }

    pub fn busy(&mut self)
        ensures
            final(self)@ == (StatusView {
                lights: Lights { red: true, green: false, blue: false },
                ..old(self)@
            }),
    {
        self.lights = Lights { red: true, green: false, blue: false };
    }

    pub fn on_short(&mut self)
        ensures
            final(self)@ == (StatusView {
                lights: Lights { red: false, green: true, blue: false },
                ..old(self)@
            }),
    {
        self.lights = Lights { red: false, green: true, blue: false };
    }

    pub fn on_long(&mut self)
        ensures
            final(self)@ == (StatusView {
                lights: Lights { red: false, green: false, blue: true },
                ..old(self)@
            }),
    {
        self.lights = Lights { red: false, green: false, blue: true };
    }

    pub fn off(&mut self)
        ensures
            final(self)@ == (StatusView {
                lights: Lights { red: false, green: false, blue: false },
                ..old(self)@
            }),
    {
        self.lights = Lights { red: false, green: false, blue: false };
    }

    /// Lights the busy LED for the length of a flash.
    pub fn flash_busy(&mut self) -> (r: TimerCommand)
        ensures
            final(self)@ == (StatusView {
                lights: Lights { red: true, green: false, blue: false },
                flashing: true,
            }),
            r == TimerCommand::Start(FLASH_MICROS),
    {
        self.busy();
        self.flasher.flash()
    }

    /// The timer fired: a flash under way ends, its LED goes off and the
    /// timer stops.
    pub fn flash_tick(&mut self) -> (r: TimerCommand)
        ensures
            old(self)@.flashing ==> final(self)@ == (StatusView {
                lights: Lights { red: false, green: false, blue: false },
                flashing: false,
            }) && r == TimerCommand::Stop,
            !old(self)@.flashing ==> final(self)@ == old(self)@ && r == TimerCommand::Keep,
    {
        if self.flasher.tick() {
            self.off();
            TimerCommand::Stop
        } else {
            TimerCommand::Keep
        }
    }
}

} // verus!
