use firmware::actions::Action;
use firmware::app::{App, Event, Mode, PinState, Request};
use firmware::hal::bootload::{Boot, Retained};

/// Carries out on the retained state what the operations ask of it.
fn perform(retained: &mut Retained, actions: &[Action]) {
    for action in actions {
        if *action == Action::ArmBootloader {
            retained.arm();
        }
    }
}

#[test]
fn power_on_boots_the_application() {
    let mut retained = Retained::power_on();
    assert!(!retained.armed());
    assert_eq!(retained.check(), Boot::Application);
    assert!(!retained.armed());
}

#[test]
fn bootload_request_enters_the_bootloader_after_the_reset() {
    let mut retained = Retained::power_on();
    let mut app = App::new();
    app.poll(Event::Interrupt(true));
    let actions = app.poll(Event::Decoded(Some(Request::Bootload)));
    assert_eq!(actions.as_slice(), [Action::ArmBootloader, Action::Reset]);
    perform(&mut retained, actions.as_slice());
    assert!(retained.armed());

    // The reset: only the retained state is carried over.
    let mut retained = Retained::restore(retained.armed());
    assert_eq!(retained.check(), Boot::Bootloader);

    // The latch has disarmed the flag: the next reset boots the application.
    let mut retained = Retained::restore(retained.armed());
    assert_eq!(retained.check(), Boot::Application);
}

#[test]
fn other_requests_do_not_arm_the_flag() {
    let mut retained = Retained::power_on();
    let mut app = App::new();
    for req in [
        Request::SetCS(PinState::High),
        Request::SetFPGA(PinState::Low),
        Request::SetTPwr(PinState::High),
        Request::SetLED(PinState::High),
        Request::SetMode(Mode::Flash),
        Request::Transmit(([7u8; 64], 64)),
        Request::GetTPwr,
        Request::Suspend,
    ] {
        perform(&mut retained, app.process_request(req).as_slice());
        assert!(!retained.armed());
    }
    let mut retained = Retained::restore(retained.armed());
    assert_eq!(retained.check(), Boot::Application);
}

#[test]
fn restore_keeps_the_flag_as_found() {
    assert!(Retained::restore(true).armed());
    assert!(!Retained::restore(false).armed());
    assert_eq!(Retained::restore(false), Retained::power_on());
}

#[test]
fn arming_twice_is_arming_once() {
    let mut retained = Retained::power_on();
    retained.arm();
    retained.arm();
    assert!(retained.armed());
    assert_eq!(retained.check(), Boot::Bootloader);
    assert_eq!(retained.check(), Boot::Application);
}
