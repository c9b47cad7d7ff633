use farsign::machine::TimerCommand;
use farsign::status::{Lights, StatusLights, FLASH_MICROS};

const DARK: Lights = Lights { red: false, green: false, blue: false };

#[test]
fn each_status_lights_one_led() {
    let mut status = StatusLights::new();
    assert_eq!(status.lights(), DARK);
    status.busy();
    assert_eq!(status.lights(), Lights { red: true, green: false, blue: false });
    status.on_short();
    assert_eq!(status.lights(), Lights { red: false, green: true, blue: false });
    status.on_long();
    assert_eq!(status.lights(), Lights { red: false, green: false, blue: true });
    status.off();
    assert_eq!(status.lights(), DARK);
}

#[test]
fn flash_ends_at_the_next_timer_tick() {
    let mut status = StatusLights::new();
    assert_eq!(status.flash_busy(), TimerCommand::Start(FLASH_MICROS));
    assert_eq!(status.lights(), Lights { red: true, green: false, blue: false });
    assert_eq!(status.flash_tick(), TimerCommand::Stop);
    assert_eq!(status.lights(), DARK);
    status.on_long();
    assert_eq!(status.flash_tick(), TimerCommand::Keep);
    assert_eq!(status.lights(), Lights { red: false, green: false, blue: true });
}
