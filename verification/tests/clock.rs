use firmware::hal::rcc::{
    ClockOp, ClockSource, ClockStatus, ClockWrite, Oscillator, Stage, RCC, SETTLE_CYCLES,
    SETTLE_ROUNDS,
};
use firmware::hal::tree::{ClockTree, ReadyInterrupts};

/// A clock tree that does what it is told, each flag following its setting
/// `lag` reads after the last write.
struct Tree {
    settings: ClockTree,
    status: ClockStatus,
    lag: u32,
    due: u32,
}

/// Settings as some earlier run may have left them, with flags as given.
fn stale(status: ClockStatus) -> ClockTree {
    ClockTree {
        hse_bypass: true,
        ready_interrupts: ReadyInterrupts {
            lsi: true,
            lse: false,
            hsi: true,
            hse: true,
            pll: true,
            hsi14: false,
            hsi48: true,
        },
        hse_on: status.hse_ready,
        hsi_on: status.hsi_ready,
        security_on: false,
        system_clock: status.sysclk,
        pll_on: status.pll_ready,
        pll_from_hse: false,
        pll_multiplier: 12,
        pll_predivider: 2,
        apb_prescaler: 4,
        ahb_prescaler: 64,
        port_a_clocked: true,
        port_b_clocked: false,
        dma_clocked: false,
        spi_clocked: false,
        usb_from_pll: false,
        usb_clocked: true,
        usb_in_reset: true,
    }
}

/// The settings that every bring-up is to end with.
fn target() -> ClockTree {
    ClockTree {
        hse_bypass: false,
        ready_interrupts: ReadyInterrupts {
            lsi: false,
            lse: false,
            hsi: false,
            hse: false,
            pll: false,
            hsi14: false,
            hsi48: false,
        },
        hse_on: true,
        hsi_on: true,
        security_on: true,
        system_clock: ClockSource::Pll,
        pll_on: true,
        pll_from_hse: true,
        pll_multiplier: 6,
        pll_predivider: 1,
        apb_prescaler: 1,
        ahb_prescaler: 1,
        port_a_clocked: true,
        port_b_clocked: true,
        dma_clocked: true,
        spi_clocked: true,
        usb_from_pll: true,
        usb_clocked: true,
        usb_in_reset: false,
    }
}

impl Tree {
    fn new(status: ClockStatus, lag: u32) -> Tree {
        Tree { settings: stale(status), status, lag, due: lag }
    }

    fn read(&mut self) -> ClockStatus {
        if self.due > 0 {
            self.due -= 1;
        } else {
            self.status = ClockStatus {
                hse_ready: self.settings.hse_on,
                hsi_ready: self.settings.hsi_on,
                pll_ready: self.settings.pll_on,
                sysclk: self.settings.system_clock,
            };
        }
        self.status
    }

    fn write(&mut self, write: ClockWrite) {
        self.settings.perform(write);
        self.due = self.lag;
    }
}

struct Trace {
    writes: Vec<ClockWrite>,
    polls: u32,
    delays: Vec<u32>,
    steps: u32,
}

fn bring_up(tree: &mut Tree) -> Trace {
    let mut rcc = RCC::new();
    let mut trace = Trace { writes: Vec::new(), polls: 0, delays: Vec::new(), steps: 0 };
    let mut read_hse_ready = false;
    let mut read_hsi_ready = false;
    let mut left_pll = false;
    let mut previous: Option<(Stage, ClockStatus)> = None;
    loop {
        assert!(trace.steps < 100_000, "the bring-up does not end");
        trace.steps += 1;
        let status = tree.read();
        let before = rcc.stage();
        let op = rcc.setup(status);
        if let ClockOp::Write(write) = op {
            let drives_clock = matches!(
                write,
                ClockWrite::SystemClock(_)
                    | ClockWrite::PllEnable(_)
                    | ClockWrite::PllSourceHse
                    | ClockWrite::PllMultiplier6
                    | ClockWrite::PllPredivider1
                    | ClockWrite::ApbPrescaler1
                    | ClockWrite::AhbPrescaler1
            );
            if drives_clock {
                assert!(read_hse_ready, "{:?} before the external oscillator was ready", write);
                assert!(read_hsi_ready, "{:?} before the internal oscillator was ready", write);
            }
            if write == ClockWrite::PllEnable(false) && left_pll {
                let (stage, last) = previous.expect("no step before the PLL is switched off");
                assert_eq!(stage, Stage::AwaitHsiClock);
                assert_eq!(last.sysclk, ClockSource::Hsi);
            }
            if write == ClockWrite::SystemClock(ClockSource::Hsi) {
                assert_eq!(before, Stage::LeavePll);
                assert_eq!(status.sysclk, ClockSource::Pll);
                left_pll = true;
            }
        }
        read_hse_ready |= status.hse_ready;
        read_hsi_ready |= status.hsi_ready;
        previous = Some((before, status));
        match op {
            ClockOp::Write(write) => {
                if matches!(
                    write,
                    ClockWrite::PllSourceHse
                        | ClockWrite::PllMultiplier6
                        | ClockWrite::PllPredivider1
                ) {
                    assert!(!tree.settings.pll_on, "PLL configured while switched on");
                    assert!(!tree.status.pll_ready, "PLL configured while running");
                    assert_ne!(
                        tree.settings.system_clock,
                        ClockSource::Pll,
                        "PLL configured while selected"
                    );
                    assert_ne!(tree.status.sysclk, ClockSource::Pll, "PLL configured while in use");
                }
                tree.write(write);
                trace.writes.push(write);
            }
            ClockOp::Poll => trace.polls += 1,
            ClockOp::Delay(cycles) => trace.delays.push(cycles),
            ClockOp::Finished => {
                assert_eq!(before, Stage::Done);
                assert!(rcc.finished());
                return trace;
            }
        }
        assert!(!rcc.finished() || rcc.stage() == Stage::Done);
    }
}

fn head() -> Vec<ClockWrite> {
    vec![
        ClockWrite::HseBypassOff,
        ClockWrite::ReadyInterruptOff(Oscillator::Lsi),
        ClockWrite::ReadyInterruptOff(Oscillator::Lse),
        ClockWrite::ReadyInterruptOff(Oscillator::Hsi),
        ClockWrite::ReadyInterruptOff(Oscillator::Hse),
        ClockWrite::ReadyInterruptOff(Oscillator::Pll),
        ClockWrite::ReadyInterruptOff(Oscillator::Hsi14),
        ClockWrite::ReadyInterruptOff(Oscillator::Hsi48),
        ClockWrite::HseOn,
        ClockWrite::HsiOn,
        ClockWrite::SecurityOn,
    ]
}

fn tail() -> Vec<ClockWrite> {
    vec![
        ClockWrite::PllEnable(false),
        ClockWrite::PllSourceHse,
        ClockWrite::PllMultiplier6,
        ClockWrite::PllPredivider1,
        ClockWrite::PllEnable(true),
        ClockWrite::SystemClock(ClockSource::Pll),
        ClockWrite::ApbPrescaler1,
        ClockWrite::AhbPrescaler1,
        ClockWrite::EnablePortsAndDma,
        ClockWrite::EnableSpi,
        ClockWrite::UsbClockFromPll,
        ClockWrite::EnableUsb,
        ClockWrite::UsbReset(true),
        ClockWrite::UsbReset(false),
    ]
}

fn after_reset() -> ClockStatus {
    ClockStatus { hse_ready: false, hsi_ready: true, pll_ready: false, sysclk: ClockSource::Hsi }
}

fn left_on_pll() -> ClockStatus {
    ClockStatus { hse_ready: true, hsi_ready: true, pll_ready: true, sysclk: ClockSource::Pll }
}

fn position(writes: &[ClockWrite], write: ClockWrite) -> usize {
    writes.iter().position(|w| *w == write).expect("write is missing")
}

#[test]
fn new_bring_up_starts_at_the_head() {
    let rcc = RCC::new();
    assert_eq!(rcc.stage(), Stage::ClearBypass);
    assert!(!rcc.finished());
}

#[test]
fn first_step_clears_the_bypass() {
    let mut rcc = RCC::new();
    assert_eq!(rcc.setup(left_on_pll()), ClockOp::Write(ClockWrite::HseBypassOff));
    assert_eq!(rcc.stage(), Stage::MaskReady(Oscillator::Lsi));
    assert_eq!(
        rcc.setup(after_reset()),
        ClockOp::Write(ClockWrite::ReadyInterruptOff(Oscillator::Lsi))
    );
    assert_eq!(rcc.stage(), Stage::MaskReady(Oscillator::Lse));
}

#[test]
fn bring_up_from_reset_writes_the_listing() {
    let mut tree = Tree::new(after_reset(), 0);
    let trace = bring_up(&mut tree);
    let mut expected = head();
    expected.extend(tail());
    assert_eq!(trace.writes, expected);
    assert_eq!(tree.read().sysclk, ClockSource::Pll);
    assert!(tree.read().pll_ready);
}

#[test]
fn stale_pll_is_left_and_stopped_before_it_is_configured() {
    for lag in [0u32, 1, 5, 40] {
        let mut tree = Tree::new(left_on_pll(), lag);
        let trace = bring_up(&mut tree);
        let mut expected = head();
        expected.push(ClockWrite::SystemClock(ClockSource::Hsi));
        expected.extend(tail());
        assert_eq!(trace.writes, expected);

        let leave = position(&trace.writes, ClockWrite::SystemClock(ClockSource::Hsi));
        let stop = position(&trace.writes, ClockWrite::PllEnable(false));
        let source = position(&trace.writes, ClockWrite::PllSourceHse);
        let multiplier = position(&trace.writes, ClockWrite::PllMultiplier6);
        let predivider = position(&trace.writes, ClockWrite::PllPredivider1);
        let start = position(&trace.writes, ClockWrite::PllEnable(true));
        let switch = position(&trace.writes, ClockWrite::SystemClock(ClockSource::Pll));
        assert!(leave < stop);
        assert!(stop < source);
        assert!(source < multiplier);
        assert!(multiplier < predivider);
        assert!(predivider < start);
        assert!(start < switch);
        assert_eq!(tree.read().sysclk, ClockSource::Pll);
    }
}

#[test]
fn clock_found_on_the_external_oscillator_is_not_switched() {
    let status = ClockStatus {
        hse_ready: true,
        hsi_ready: false,
        pll_ready: true,
        sysclk: ClockSource::Hse,
    };
    let mut tree = Tree::new(status, 3);
    let trace = bring_up(&mut tree);
    let mut expected = head();
    expected.extend(tail());
    assert_eq!(trace.writes, expected);
}

#[test]
fn leaving_the_pll_waits_for_the_internal_oscillator() {
    let mut rcc = RCC::new();
    let ready = left_on_pll();
    while rcc.stage() != Stage::LeavePll {
        rcc.setup(ready);
    }
    assert_eq!(
        rcc.setup(ready),
        ClockOp::Write(ClockWrite::SystemClock(ClockSource::Hsi))
    );
    assert_eq!(rcc.stage(), Stage::AwaitHsiClock);
    for sysclk in [ClockSource::Pll, ClockSource::Hse, ClockSource::Hsi48] {
        assert_eq!(rcc.setup(ClockStatus { sysclk, ..ready }), ClockOp::Poll);
        assert_eq!(rcc.stage(), Stage::AwaitHsiClock);
    }
    assert_eq!(rcc.setup(ClockStatus { sysclk: ClockSource::Hsi, ..ready }), ClockOp::Poll);
    assert_eq!(rcc.stage(), Stage::StopPll);
    assert_eq!(rcc.setup(ready), ClockOp::Write(ClockWrite::PllEnable(false)));
    assert_eq!(rcc.stage(), Stage::AwaitPllStopped);
    for _ in 0..10 {
        assert_eq!(rcc.setup(ClockStatus { pll_ready: true, ..ready }), ClockOp::Poll);
        assert_eq!(rcc.stage(), Stage::AwaitPllStopped);
    }
    assert_eq!(rcc.setup(ClockStatus { pll_ready: false, ..ready }), ClockOp::Poll);
    assert_eq!(rcc.stage(), Stage::SelectPllSource);
    assert_eq!(rcc.setup(ready), ClockOp::Write(ClockWrite::PllSourceHse));
}

#[test]
fn oscillator_that_never_comes_up_stalls_the_bring_up() {
    let mut rcc = RCC::new();
    let dead = ClockStatus {
        hse_ready: false,
        hsi_ready: true,
        pll_ready: false,
        sysclk: ClockSource::Hsi,
    };
    let mut writes = 0;
    for _ in 0..200_000 {
        match rcc.setup(dead) {
            ClockOp::Write(_) => writes += 1,
            ClockOp::Poll => {}
            other => panic!("unexpected {:?}", other),
        }
    }
    assert_eq!(writes, 11);
    assert_eq!(rcc.stage(), Stage::AwaitHse);
    assert!(!rcc.finished());
}

#[test]
fn pll_that_never_locks_stalls_the_bring_up() {
    let mut rcc = RCC::new();
    let unlocked = ClockStatus {
        hse_ready: true,
        hsi_ready: true,
        pll_ready: false,
        sysclk: ClockSource::Hsi,
    };
    for _ in 0..50_000 {
        rcc.setup(unlocked);
    }
    assert_eq!(rcc.stage(), Stage::AwaitPll);
}

#[test]
fn settling_asks_for_every_delay_before_the_release() {
    assert_eq!(SETTLE_ROUNDS, 4000);
    assert_eq!(SETTLE_CYCLES, 48);
    let mut tree = Tree::new(after_reset(), 2);
    let trace = bring_up(&mut tree);
    assert_eq!(trace.delays.len(), 4000);
    assert!(trace.delays.iter().all(|cycles| *cycles == 48));
    assert_eq!(trace.delays.iter().map(|c| *c as u64).sum::<u64>(), 192_000);
}

#[test]
fn delays_lie_between_reset_and_release() {
    let mut rcc = RCC::new();
    let mut tree = Tree::new(after_reset(), 0);
    loop {
        let status = tree.read();
        match rcc.setup(status) {
            ClockOp::Write(ClockWrite::UsbReset(true)) => break,
            ClockOp::Write(write) => tree.write(write),
            ClockOp::Poll => {}
            other => panic!("unexpected {:?}", other),
        }
    }
    assert_eq!(rcc.stage(), Stage::Settle(0));
    for round in 0..4000u32 {
        assert_eq!(rcc.setup(tree.read()), ClockOp::Delay(48));
        assert_eq!(rcc.stage(), Stage::Settle(round + 1));
    }
    assert_eq!(rcc.setup(tree.read()), ClockOp::Write(ClockWrite::UsbReset(false)));
    assert_eq!(rcc.stage(), Stage::Done);
    assert!(rcc.finished());
}

#[test]
fn finished_bring_up_stays_finished() {
    let mut tree = Tree::new(left_on_pll(), 1);
    bring_up(&mut tree);
    let mut rcc = RCC::new();
    let mut tree = Tree::new(after_reset(), 0);
    loop {
        match rcc.setup(tree.read()) {
            ClockOp::Write(write) => tree.write(write),
            ClockOp::Finished => break,
            _ => {}
        }
    }
    for status in [after_reset(), left_on_pll()] {
        assert_eq!(rcc.setup(status), ClockOp::Finished);
        assert_eq!(rcc.stage(), Stage::Done);
    }
}

#[test]
fn bring_up_ends_on_the_target_settings() {
    let found = [
        after_reset(),
        left_on_pll(),
        ClockStatus {
            hse_ready: true,
            hsi_ready: false,
            pll_ready: true,
            sysclk: ClockSource::Hse,
        },
        ClockStatus {
            hse_ready: false,
            hsi_ready: false,
            pll_ready: false,
            sysclk: ClockSource::Hsi48,
        },
    ];
    for status in found {
        for lag in [0u32, 7] {
            let mut tree = Tree::new(status, lag);
            assert_ne!(tree.settings, target());
            bring_up(&mut tree);
            assert_eq!(tree.settings, target());
        }
    }
}

#[test]
fn each_write_changes_its_own_setting() {
    let start = stale(left_on_pll());
    let mut tree = start;
    tree.perform(ClockWrite::HseBypassOff);
    assert_eq!(tree, ClockTree { hse_bypass: false, ..start });
    tree.perform(ClockWrite::ReadyInterruptOff(Oscillator::Pll));
    assert!(!tree.ready_interrupts.pll);
    assert!(tree.ready_interrupts.lsi);
    assert!(tree.ready_interrupts.hsi48);
    let mut tree = start;
    tree.perform(ClockWrite::PllEnable(false));
    assert_eq!(tree, ClockTree { pll_on: false, ..start });
    tree.perform(ClockWrite::PllMultiplier6);
    tree.perform(ClockWrite::PllPredivider1);
    tree.perform(ClockWrite::PllSourceHse);
    assert_eq!(
        tree,
        ClockTree {
            pll_on: false,
            pll_multiplier: 6,
            pll_predivider: 1,
            pll_from_hse: true,
            ..start
        }
    );
    tree.perform(ClockWrite::SystemClock(ClockSource::Hsi));
    assert_eq!(tree.system_clock, ClockSource::Hsi);
    tree.perform(ClockWrite::EnablePortsAndDma);
    assert!(tree.port_a_clocked && tree.port_b_clocked && tree.dma_clocked);
    tree.perform(ClockWrite::UsbReset(false));
    assert!(!tree.usb_in_reset);
    tree.perform(ClockWrite::UsbReset(true));
    assert!(tree.usb_in_reset);
    let masked = start.ready_interrupts.mask(Oscillator::Lsi).mask(Oscillator::Hse);
    assert_eq!(masked, ReadyInterrupts { lsi: false, hse: false, ..start.ready_interrupts });
}

#[test]
fn obedient_tree_comes_up_in_one_step_per_stage() {
    // Every stage of the listing takes one step: 31 before the settling, the
    // settling itself and its release.
    let stages = 31 + SETTLE_ROUNDS + 1;
    let mut tree = Tree::new(left_on_pll(), 0);
    let trace = bring_up(&mut tree);
    assert_eq!(trace.steps - 1, stages);
    assert_eq!(tree.settings, target());

    // With the system clock found off the PLL, the wait for the internal
    // oscillator is passed over.
    let mut tree = Tree::new(after_reset(), 0);
    let trace = bring_up(&mut tree);
    assert_eq!(trace.steps - 1, stages - 1);
    assert_eq!(tree.settings, target());
}
