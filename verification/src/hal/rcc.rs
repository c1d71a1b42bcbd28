//! Clock bring-up.
//!
//! [`RCC`] walks a fixed listing of register writes and waits. It is handed
//! the readiness flags of the clock tree, as read a moment ago, and answers
//! with the one operation to perform before it is asked again. It never
//! gives up on a wait: a flag that never comes stalls the bring-up for good.

use vstd::prelude::*;

verus! {

/// Number of delays between asserting and releasing the USB reset.
pub const SETTLE_ROUNDS: u32 = 4000;

/// Core cycles of one delay.
pub const SETTLE_CYCLES: u32 = 48;

/// A source that can drive the system clock.
#[derive(Copy, Clone, PartialEq, Eq, Debug)]
pub enum ClockSource {
    Hsi,
    Hse,
    Pll,
    Hsi48,
}

/// An oscillator whose ready interrupt can be masked.
#[derive(Copy, Clone, PartialEq, Eq, Debug)]
pub enum Oscillator {
    Lsi,
    Lse,
    Hsi,
    Hse,
    Pll,
    Hsi14,
    Hsi48,
}

/// What the clock tree reports: the ready flags and the source that drives
/// the system clock at present.
#[derive(Copy, Clone, PartialEq, Eq, Debug)]
pub struct ClockStatus {
    pub hse_ready: bool,
    pub hsi_ready: bool,
    pub pll_ready: bool,
    pub sysclk: ClockSource,
}

/// One write to the clock controller.
#[derive(Copy, Clone, PartialEq, Eq, Debug)]
pub enum ClockWrite {
    /// The external oscillator is a crystal, not a fed-in clock.
    HseBypassOff,
    /// Mask the ready interrupt of one oscillator.
    ReadyInterruptOff(Oscillator),
    HseOn,
    HsiOn,
    /// Arm the clock security system.
    SecurityOn,
    /// Select the source of the system clock.
    SystemClock(ClockSource),
    /// Switch the PLL on or off.
    PllEnable(bool),
    /// Feed the PLL from the external oscillator, through the predivider.
    PllSourceHse,
    /// PLL multiplication factor of six.
    PllMultiplier6,
    /// PLL input not divided.
    PllPredivider1,
    /// Peripheral bus clock not divided.
    ApbPrescaler1,
    /// Core bus clock not divided.
    AhbPrescaler1,
    /// Clocks of both pin ports and of the DMA controller.
    EnablePortsAndDma,
    EnableSpi,
    /// Clock the USB controller from the PLL.
    UsbClockFromPll,
    EnableUsb,
    /// Assert (`true`) or release (`false`) the reset of the USB controller.
    UsbReset(bool),
}

/// What the bring-up asks for next.
#[derive(Copy, Clone, PartialEq, Eq, Debug)]
pub enum ClockOp {
    /// Perform this write, then ask again.
    Write(ClockWrite),
    /// Nothing to write: read the status again and ask again.
    Poll,
    /// Busy-wait this many core cycles, then ask again.
    Delay(u32),
    /// The clock tree is up.
    Finished,
}

/// Position in the listing: the step that is due.
#[derive(Copy, Clone, PartialEq, Eq, Debug)]
pub enum Stage {
    ClearBypass,
    MaskReady(Oscillator),
    StartHse,
    StartHsi,
    ArmSecurity,
    AwaitHse,
    AwaitHsi,
    /// Take the system clock off the PLL if it is on it.
    LeavePll,
    /// Wait until the system clock runs from the internal oscillator.
    AwaitHsiClock,
    StopPll,
    AwaitPllStopped,
    SelectPllSource,
    SetPllMultiplier,
    SetPllPredivider,
    StartPll,
    AwaitPll,
    SwitchToPll,
    AwaitPllClock,
    SetApbPrescaler,
    SetAhbPrescaler,
    EnableBusClocks,
    EnableSpiClock,
    SelectUsbClock,
    EnableUsbClock,
    AssertUsbReset,
    /// Settling, with the number of delays already asked for.
    Settle(u32),
    Done,
}

impl Oscillator {
    /// Place of the oscillator in the order in which the interrupts are
    /// masked.
    pub open spec fn index(self) -> nat {
        match self {
            Oscillator::Lsi => 0,
            Oscillator::Lse => 1,
            Oscillator::Hsi => 2,
            Oscillator::Hse => 3,
            Oscillator::Pll => 4,
            Oscillator::Hsi14 => 5,
            Oscillator::Hsi48 => 6,
        }
    }
}

impl ClockWrite {
    /// Writes that change how the PLL is fed or what it multiplies by.
    pub open spec fn configures_pll(self) -> bool {
        self is PllSourceHse || self is PllMultiplier6 || self is PllPredivider1
    }

    /// Writes to the system clock, the PLL or the bus prescalers.
    pub open spec fn drives_clock(self) -> bool {
        ||| self is SystemClock
        ||| self is PllEnable
        ||| self.configures_pll()
        ||| self is ApbPrescaler1
        ||| self is AhbPrescaler1
    }
}

impl Stage {
    /// Place of the stage in the listing, counted from its head.
    pub open spec fn rank(self) -> nat {
        match self {
            Stage::ClearBypass => 0,
            Stage::MaskReady(o) => 1 + o.index(),
            Stage::StartHse => 8,
            Stage::StartHsi => 9,
            Stage::ArmSecurity => 10,
            Stage::AwaitHse => 11,
            Stage::AwaitHsi => 12,
            Stage::LeavePll => 13,
            Stage::AwaitHsiClock => 14,
            Stage::StopPll => 15,
            Stage::AwaitPllStopped => 16,
            Stage::SelectPllSource => 17,
            Stage::SetPllMultiplier => 18,
            Stage::SetPllPredivider => 19,
            Stage::StartPll => 20,
            Stage::AwaitPll => 21,
            Stage::SwitchToPll => 22,
            Stage::AwaitPllClock => 23,
            Stage::SetApbPrescaler => 24,
            Stage::SetAhbPrescaler => 25,
            Stage::EnableBusClocks => 26,
            Stage::EnableSpiClock => 27,
            Stage::SelectUsbClock => 28,
            Stage::EnableUsbClock => 29,
            Stage::AssertUsbReset => 30,
            Stage::Settle(i) => 31 + i as nat,
            Stage::Done => 32 + SETTLE_ROUNDS as nat,
        }
    }

    /// A settling count never passes the number of rounds.
    pub open spec fn wf(self) -> bool {
        self matches Stage::Settle(i) ==> i <= SETTLE_ROUNDS
    }

    /// The flag that a waiting stage waits for; `true` for every other stage.
    pub open spec fn satisfied(self, status: ClockStatus) -> bool {
        match self {
            Stage::AwaitHse => status.hse_ready,
            Stage::AwaitHsi => status.hsi_ready,
            Stage::AwaitHsiClock => status.sysclk is Hsi,
            Stage::AwaitPllStopped => !status.pll_ready,
            Stage::AwaitPll => status.pll_ready,
            Stage::AwaitPllClock => status.sysclk is Pll,
            _ => true,
        }
    }
}

/// One step of the bring-up: the stage that is due and the status just read
/// give the operation to perform and the stage that is due after it.
pub open spec fn next(stage: Stage, status: ClockStatus) -> (Stage, ClockOp) {
    match stage {
        Stage::ClearBypass => (
            Stage::MaskReady(Oscillator::Lsi),
            ClockOp::Write(ClockWrite::HseBypassOff),
        ),
        Stage::MaskReady(o) => (
            match o {
                Oscillator::Lsi => Stage::MaskReady(Oscillator::Lse),
                Oscillator::Lse => Stage::MaskReady(Oscillator::Hsi),
                Oscillator::Hsi => Stage::MaskReady(Oscillator::Hse),
                Oscillator::Hse => Stage::MaskReady(Oscillator::Pll),
                Oscillator::Pll => Stage::MaskReady(Oscillator::Hsi14),
                Oscillator::Hsi14 => Stage::MaskReady(Oscillator::Hsi48),
                Oscillator::Hsi48 => Stage::StartHse,
            },
            ClockOp::Write(ClockWrite::ReadyInterruptOff(o)),
        ),
        Stage::StartHse => (Stage::StartHsi, ClockOp::Write(ClockWrite::HseOn)),
        Stage::StartHsi => (Stage::ArmSecurity, ClockOp::Write(ClockWrite::HsiOn)),
        Stage::ArmSecurity => (Stage::AwaitHse, ClockOp::Write(ClockWrite::SecurityOn)),
        Stage::AwaitHse => (
            if status.hse_ready { Stage::AwaitHsi } else { Stage::AwaitHse },
            ClockOp::Poll,
        ),
        Stage::AwaitHsi => (
            if status.hsi_ready { Stage::LeavePll } else { Stage::AwaitHsi },
            ClockOp::Poll,
        ),
        Stage::LeavePll => if status.sysclk is Pll {
            (Stage::AwaitHsiClock, ClockOp::Write(ClockWrite::SystemClock(ClockSource::Hsi)))
        } else {
            (Stage::StopPll, ClockOp::Poll)
        },
        Stage::AwaitHsiClock => (
            if status.sysclk is Hsi { Stage::StopPll } else { Stage::AwaitHsiClock },
            ClockOp::Poll,
        ),
        Stage::StopPll => (Stage::AwaitPllStopped, ClockOp::Write(ClockWrite::PllEnable(false))),
        Stage::AwaitPllStopped => (
            if status.pll_ready { Stage::AwaitPllStopped } else { Stage::SelectPllSource },
            ClockOp::Poll,
        ),
        Stage::SelectPllSource => (
            Stage::SetPllMultiplier,
            ClockOp::Write(ClockWrite::PllSourceHse),
        ),
        Stage::SetPllMultiplier => (
            Stage::SetPllPredivider,
            ClockOp::Write(ClockWrite::PllMultiplier6),
        ),
        Stage::SetPllPredivider => (Stage::StartPll, ClockOp::Write(ClockWrite::PllPredivider1)),
        Stage::StartPll => (Stage::AwaitPll, ClockOp::Write(ClockWrite::PllEnable(true))),
        Stage::AwaitPll => (
            if status.pll_ready { Stage::SwitchToPll } else { Stage::AwaitPll },
            ClockOp::Poll,
        ),
        Stage::SwitchToPll => (
            Stage::AwaitPllClock,
            ClockOp::Write(ClockWrite::SystemClock(ClockSource::Pll)),
        ),
        Stage::AwaitPllClock => (
            if status.sysclk is Pll { Stage::SetApbPrescaler } else { Stage::AwaitPllClock },
            ClockOp::Poll,
        ),
        Stage::SetApbPrescaler => (
            Stage::SetAhbPrescaler,
            ClockOp::Write(ClockWrite::ApbPrescaler1),
        ),
        Stage::SetAhbPrescaler => (
            Stage::EnableBusClocks,
            ClockOp::Write(ClockWrite::AhbPrescaler1),
        ),
        Stage::EnableBusClocks => (
            Stage::EnableSpiClock,
            ClockOp::Write(ClockWrite::EnablePortsAndDma),
        ),
        Stage::EnableSpiClock => (Stage::SelectUsbClock, ClockOp::Write(ClockWrite::EnableSpi)),
        Stage::SelectUsbClock => (
            Stage::EnableUsbClock,
            ClockOp::Write(ClockWrite::UsbClockFromPll),
        ),
        Stage::EnableUsbClock => (Stage::AssertUsbReset, ClockOp::Write(ClockWrite::EnableUsb)),
        Stage::AssertUsbReset => (Stage::Settle(0), ClockOp::Write(ClockWrite::UsbReset(true))),
        Stage::Settle(i) => if i < SETTLE_ROUNDS {
            (Stage::Settle((i + 1) as u32), ClockOp::Delay(SETTLE_CYCLES))
        } else {
            (Stage::Done, ClockOp::Write(ClockWrite::UsbReset(false)))
        },
        Stage::Done => (Stage::Done, ClockOp::Finished),
    }
}

/// The clock bring-up, at some stage of its listing.
pub struct RCC {
    stage: Stage,
}

impl RCC {
    #[verifier::type_invariant]
    spec fn inv(self) -> bool {
        self.stage.wf()
    }

    /// The stage that is due.
    pub closed spec fn spec_stage(&self) -> Stage {
        self.stage
    }

    /// Returns the stage that is due.
    #[verifier::when_used_as_spec(spec_stage)]
    pub fn stage(&self) -> (stage: Stage)
        ensures
            stage == self.stage(),
            stage.wf(),
    {
        proof {
            use_type_invariant(self);
        }
        self.stage
    }

    /// A bring-up at the head of its listing.
    pub fn new() -> (rcc: RCC)
        ensures
            rcc.stage() == Stage::ClearBypass,
    {
        RCC { stage: Stage::ClearBypass }
    }

    /// Tells whether the listing has been walked to its end.
    pub fn finished(&self) -> (done: bool)
        ensures
            done == (self.stage() is Done),
    {
        match self.stage {
            Stage::Done => true,
            _ => false,
        }
    }

    /// Takes one step: given the status just read, returns the operation to
    /// perform now and moves to the stage that is due after it.
    pub fn setup(&mut self, status: ClockStatus) -> (op: ClockOp)
        ensures
            (final(self).stage(), op) == next(old(self).stage(), status),
            final(self).stage().wf(),
    {
        let (stage, op) = match self.stage {
            Stage::ClearBypass => (
                Stage::MaskReady(Oscillator::Lsi),
                ClockOp::Write(ClockWrite::HseBypassOff),
            ),
            Stage::MaskReady(o) => (
                match o {
                    Oscillator::Lsi => Stage::MaskReady(Oscillator::Lse),
                    Oscillator::Lse => Stage::MaskReady(Oscillator::Hsi),
                    Oscillator::Hsi => Stage::MaskReady(Oscillator::Hse),
                    Oscillator::Hse => Stage::MaskReady(Oscillator::Pll),
                    Oscillator::Pll => Stage::MaskReady(Oscillator::Hsi14),
                    Oscillator::Hsi14 => Stage::MaskReady(Oscillator::Hsi48),
                    Oscillator::Hsi48 => Stage::StartHse,
                },
                ClockOp::Write(ClockWrite::ReadyInterruptOff(o)),
            ),
            Stage::StartHse => (Stage::StartHsi, ClockOp::Write(ClockWrite::HseOn)),
            Stage::StartHsi => (Stage::ArmSecurity, ClockOp::Write(ClockWrite::HsiOn)),
            Stage::ArmSecurity => (Stage::AwaitHse, ClockOp::Write(ClockWrite::SecurityOn)),
            Stage::AwaitHse => (
                if status.hse_ready { Stage::AwaitHsi } else { Stage::AwaitHse },
                ClockOp::Poll,
            ),
            Stage::AwaitHsi => (
                if status.hsi_ready { Stage::LeavePll } else { Stage::AwaitHsi },
                ClockOp::Poll,
            ),
            Stage::LeavePll => match status.sysclk {
                ClockSource::Pll => (
                    Stage::AwaitHsiClock,
                    ClockOp::Write(ClockWrite::SystemClock(ClockSource::Hsi)),
                ),
                _ => (Stage::StopPll, ClockOp::Poll),
            },
            Stage::AwaitHsiClock => (
                match status.sysclk {
                    ClockSource::Hsi => Stage::StopPll,
                    _ => Stage::AwaitHsiClock,
                },
                ClockOp::Poll,
            ),
            Stage::StopPll => (
                Stage::AwaitPllStopped,
                ClockOp::Write(ClockWrite::PllEnable(false)),
            ),
            Stage::AwaitPllStopped => (
                if status.pll_ready { Stage::AwaitPllStopped } else { Stage::SelectPllSource },
                ClockOp::Poll,
            ),
            Stage::SelectPllSource => (
                Stage::SetPllMultiplier,
                ClockOp::Write(ClockWrite::PllSourceHse),
            ),
            Stage::SetPllMultiplier => (
                Stage::SetPllPredivider,
                ClockOp::Write(ClockWrite::PllMultiplier6),
            ),
            Stage::SetPllPredivider => (
                Stage::StartPll,
                ClockOp::Write(ClockWrite::PllPredivider1),
            ),
            Stage::StartPll => (Stage::AwaitPll, ClockOp::Write(ClockWrite::PllEnable(true))),
            Stage::AwaitPll => (
                if status.pll_ready { Stage::SwitchToPll } else { Stage::AwaitPll },
                ClockOp::Poll,
            ),
            Stage::SwitchToPll => (
                Stage::AwaitPllClock,
                ClockOp::Write(ClockWrite::SystemClock(ClockSource::Pll)),
            ),
            Stage::AwaitPllClock => (
                match status.sysclk {
                    ClockSource::Pll => Stage::SetApbPrescaler,
                    _ => Stage::AwaitPllClock,
                },
                ClockOp::Poll,
            ),
            Stage::SetApbPrescaler => (
                Stage::SetAhbPrescaler,
                ClockOp::Write(ClockWrite::ApbPrescaler1),
            ),
            Stage::SetAhbPrescaler => (
                Stage::EnableBusClocks,
                ClockOp::Write(ClockWrite::AhbPrescaler1),
            ),
            Stage::EnableBusClocks => (
                Stage::EnableSpiClock,
                ClockOp::Write(ClockWrite::EnablePortsAndDma),
            ),
            Stage::EnableSpiClock => (
                Stage::SelectUsbClock,
                ClockOp::Write(ClockWrite::EnableSpi),
            ),
            Stage::SelectUsbClock => (
                Stage::EnableUsbClock,
                ClockOp::Write(ClockWrite::UsbClockFromPll),
            ),
            Stage::EnableUsbClock => (
                Stage::AssertUsbReset,
                ClockOp::Write(ClockWrite::EnableUsb),
            ),
            Stage::AssertUsbReset => (
                Stage::Settle(0),
                ClockOp::Write(ClockWrite::UsbReset(true)),
            ),
            Stage::Settle(i) => if i < SETTLE_ROUNDS {
                (Stage::Settle(i + 1), ClockOp::Delay(SETTLE_CYCLES))
            } else {
                (Stage::Done, ClockOp::Write(ClockWrite::UsbReset(false)))
            },
            Stage::Done => (Stage::Done, ClockOp::Finished),
        };
        self.stage = stage;
        op
    }
}

/// The stage reached from `start` once every status of `statuses` has been
/// answered, in order.
pub open spec fn stage_after(start: Stage, statuses: Seq<ClockStatus>) -> Stage
    decreases statuses.len(),
{
    if statuses.len() == 0 {
        start
    } else {
        next(stage_after(start, statuses.drop_last()), statuses.last()).0
    }
}

/// The operation that answers the last status of `statuses`, in a run that
/// began at `start`.
pub open spec fn last_op(start: Stage, statuses: Seq<ClockStatus>) -> ClockOp
    recommends
        statuses.len() > 0,
{
    next(stage_after(start, statuses.drop_last()), statuses.last()).1
}

/// What a run has shown of the clock tree so far, read off the statuses
/// handed in and the writes answered, with no knowledge of the stages.
pub struct Watch {
    /// Some status showed the external oscillator ready.
    pub hse_up: bool,
    /// Some status showed the internal oscillator ready.
    pub hsi_up: bool,
    /// The source that the system clock was last switched to, if the run has
    /// switched it at all.
    pub selected: Option<ClockSource>,
    /// Some status after that switch showed the system clock on the source
    /// switched to.
    pub confirmed: bool,
    /// Some status after the last switch of the system clock, or any status
    /// if the run has not switched it, showed the system clock on another
    /// source than the PLL.
    pub off_pll: bool,
    /// The PLL was switched off and has not been switched on since.
    pub stop_requested: bool,
    /// Some status after that switching off showed the PLL not ready.
    pub stopped: bool,
    /// The PLL was switched on and has not been switched off since.
    pub start_requested: bool,
    /// Some status after that switching on showed the PLL ready.
    pub locked: bool,
}

impl Watch {
    /// Nothing shown yet.
    pub open spec fn blank() -> Watch {
        Watch {
            hse_up: false,
            hsi_up: false,
            selected: None,
            confirmed: false,
            off_pll: false,
            stop_requested: false,
            stopped: false,
            start_requested: false,
            locked: false,
        }
    }

    /// Both oscillators have been read ready.
    pub open spec fn oscillators_up(self) -> bool {
        self.hse_up && self.hsi_up
    }

    /// The run has not switched the system clock, or it has switched it to
    /// the internal oscillator and has then read it there.
    pub open spec fn clear_of_pll(self) -> bool {
        match self.selected {
            None => true,
            Some(source) => source is Hsi && self.confirmed,
        }
    }

    /// The run has switched the system clock onto the PLL and has then read
    /// it there.
    pub open spec fn on_pll(self) -> bool {
        self.selected == Some(ClockSource::Pll) && self.confirmed
    }

    /// The watch after one more status.
    pub open spec fn sees(self, status: ClockStatus) -> Watch {
        Watch {
            hse_up: self.hse_up || status.hse_ready,
            hsi_up: self.hsi_up || status.hsi_ready,
            confirmed: self.confirmed || self.selected == Some(status.sysclk),
            off_pll: self.off_pll || !(status.sysclk is Pll),
            stopped: self.stopped || (self.stop_requested && !status.pll_ready),
            locked: self.locked || (self.start_requested && status.pll_ready),
            ..self
        }
    }

    /// The watch after one more step: first what the status shows, then what
    /// the answered operation requests, which voids what was shown of the
    /// state that it leaves.
    pub open spec fn observe(self, status: ClockStatus, op: ClockOp) -> Watch {
        let seen = self.sees(status);
        match op {
            ClockOp::Write(ClockWrite::SystemClock(source)) => Watch {
                selected: Some(source),
                confirmed: false,
                off_pll: false,
                ..seen
            },
            ClockOp::Write(ClockWrite::PllEnable(on)) => if on {
                Watch {
                    stop_requested: false,
                    stopped: false,
                    start_requested: true,
                    locked: false,
                    ..seen
                }
            } else {
                Watch {
                    stop_requested: true,
                    start_requested: false,
                    locked: false,
                    ..seen
                }
            },
            _ => seen,
        }
    }

    /// Whether an operation is in order on what has been shown before it:
    ///
    /// * the oscillators are set up and switched on at any time;
    /// * every other write waits for both oscillators to have been read
    ///   ready;
    /// * the system clock is switched to the internal oscillator, or to the
    ///   PLL once that was read ready after it was switched on, and to no
    ///   other source;
    /// * the PLL is switched off only with the system clock read off it, and,
    ///   where the run has switched the system clock, only once it was read
    ///   on the internal oscillator after that switch;
    /// * the PLL is configured only with the system clock read off it and the
    ///   PLL read stopped after it was switched off, and it is switched on
    ///   only once it was read stopped;
    /// * the buses, the peripheral clocks and the USB controller are set up
    ///   only once the system clock was read on the PLL after the switch to
    ///   it.
    pub open spec fn permits(self, op: ClockOp) -> bool {
        match op {
            ClockOp::Write(write) => match write {
                ClockWrite::HseBypassOff
                | ClockWrite::ReadyInterruptOff(_)
                | ClockWrite::HseOn
                | ClockWrite::HsiOn
                | ClockWrite::SecurityOn => true,
                ClockWrite::SystemClock(source) => self.oscillators_up() && match source {
                    ClockSource::Hsi => true,
                    ClockSource::Pll => self.locked,
                    _ => false,
                },
                ClockWrite::PllEnable(on) => self.oscillators_up() && if on {
                    self.stopped
                } else {
                    self.off_pll && self.clear_of_pll()
                },
                ClockWrite::PllSourceHse
                | ClockWrite::PllMultiplier6
                | ClockWrite::PllPredivider1 => self.oscillators_up() && self.off_pll
                    && self.stopped,
                ClockWrite::ApbPrescaler1
                | ClockWrite::AhbPrescaler1
                | ClockWrite::EnablePortsAndDma
                | ClockWrite::EnableSpi
                | ClockWrite::UsbClockFromPll
                | ClockWrite::EnableUsb
                | ClockWrite::UsbReset(_) => self.oscillators_up() && self.on_pll(),
            },
            _ => true,
        }
    }
}

/// The watch over a whole run that began at `start` with nothing shown.
pub open spec fn watch_after(start: Stage, statuses: Seq<ClockStatus>) -> Watch
    decreases statuses.len(),
{
    if statuses.len() == 0 {
        Watch::blank()
    } else {
        watch_after(start, statuses.drop_last()).observe(
            statuses.last(),
            last_op(start, statuses),
        )
    }
}

/// What the stage reached implies of the watch, in a run from the head of the
/// listing.
spec fn settled(stage: Stage, watch: Watch) -> bool {
    let r = stage.rank();
    &&& Stage::AwaitHsi.rank() <= r ==> watch.hse_up
    &&& Stage::LeavePll.rank() <= r ==> watch.hsi_up
    &&& r <= Stage::LeavePll.rank() ==> watch.selected is None
    &&& stage is AwaitHsiClock ==> watch.selected == Some(ClockSource::Hsi)
    &&& Stage::StopPll.rank() <= r <= Stage::SwitchToPll.rank() ==> watch.off_pll
        && watch.clear_of_pll()
    &&& Stage::AwaitPllStopped.rank() <= r <= Stage::StartPll.rank() ==> watch.stop_requested
    &&& Stage::SelectPllSource.rank() <= r <= Stage::StartPll.rank() ==> watch.stopped
    &&& Stage::AwaitPll.rank() <= r ==> watch.start_requested
    &&& Stage::SwitchToPll.rank() <= r ==> watch.locked
    &&& Stage::AwaitPllClock.rank() <= r ==> watch.selected == Some(ClockSource::Pll)
    &&& Stage::SetApbPrescaler.rank() <= r ==> watch.confirmed
}

proof fn lemma_settled(statuses: Seq<ClockStatus>)
    ensures
        stage_after(Stage::ClearBypass, statuses).wf(),
        settled(
            stage_after(Stage::ClearBypass, statuses),
            watch_after(Stage::ClearBypass, statuses),
        ),
    decreases statuses.len(),
{
    if statuses.len() > 0 {
        lemma_settled(statuses.drop_last());
    }
}

/// The bring-up walks its listing in order and without a timeout. A wait whose
/// flag is not up is answered by `Poll` and leaves the stage as it is; any
/// other step moves to the following stage. The one stage ever passed over is
/// the wait for the internal oscillator, when the system clock was found off
/// the PLL. `Finished` is the answer at the end of the listing and nowhere
/// else.
pub proof fn lemma_walks_in_order(stage: Stage, status: ClockStatus)
    requires
        stage.wf(),
    ensures
        next(stage, status).0.wf(),
        !stage.satisfied(status) ==> next(stage, status) == (stage, ClockOp::Poll),
        stage.satisfied(status) && !(stage is Done) ==> {
            ||| next(stage, status).0.rank() == stage.rank() + 1
            ||| stage is LeavePll && !(status.sysclk is Pll) && next(stage, status).0 is StopPll
        },
        next(stage, status).1 is Finished <==> stage is Done,
        stage is Done ==> next(stage, status).0 is Done,
{
}

/// In every run from the head of the listing, every operation is in order on
/// what the run has shown before it, whatever the clock tree reported and
/// wherever a previous run had left it. In particular:
///
/// * nothing is written to the system clock, the PLL or the prescalers
///   before both oscillators were read ready;
/// * a run that takes the system clock off the PLL switches the PLL off only
///   after it has read the system clock on the internal oscillator;
/// * the PLL is configured only after the system clock was read off it and
///   the PLL was switched off and read stopped.
pub proof fn lemma_operations_in_order(statuses: Seq<ClockStatus>, i: int)
    requires
        0 <= i < statuses.len(),
    ensures
        watch_after(Stage::ClearBypass, statuses.take(i)).permits(
            last_op(Stage::ClearBypass, statuses.take(i + 1)),
        ),
{
    lemma_settled(statuses.take(i));
    assert(statuses.take(i + 1).drop_last() == statuses.take(i));
    assert(statuses.take(i + 1).last() == statuses[i]);
}

/// A run that has come to the end of the listing has shown both oscillators
/// ready, the PLL ready after it was last switched on, and the system clock
/// on the PLL after it was last switched.
pub proof fn lemma_ends_on_pll(statuses: Seq<ClockStatus>)
    requires
        stage_after(Stage::ClearBypass, statuses) is Done,
    ensures
        ({
            let watch = watch_after(Stage::ClearBypass, statuses);
            &&& watch.oscillators_up()
            &&& watch.locked
            &&& watch.on_pll()
        }),
{
    lemma_settled(statuses);
}

/// Between asserting and releasing the reset of the USB controller the
/// bring-up asks for exactly `SETTLE_ROUNDS` delays of `SETTLE_CYCLES` cycles
/// each, whatever the statuses: `k` steps into the settling it has asked for
/// `k` delays, and the step after the last delay releases the reset.
pub proof fn lemma_settling(statuses: Seq<ClockStatus>, status: ClockStatus)
    requires
        statuses.len() <= SETTLE_ROUNDS,
    ensures
        stage_after(Stage::Settle(0), statuses) == Stage::Settle(statuses.len() as u32),
        statuses.len() > 0 ==> last_op(Stage::Settle(0), statuses) == ClockOp::Delay(
            SETTLE_CYCLES,
        ),
        statuses.len() == SETTLE_ROUNDS ==> next(
            stage_after(Stage::Settle(0), statuses),
            status,
        ) == (Stage::Done, ClockOp::Write(ClockWrite::UsbReset(false))),
    decreases statuses.len(),
{
    if statuses.len() > 0 {
        lemma_settling(statuses.drop_last(), status);
    }
}

/// The writes answered in a run that began at `start`, in the order in which
/// they were answered.
pub open spec fn writes_after(start: Stage, statuses: Seq<ClockStatus>) -> Seq<ClockWrite>
    decreases statuses.len(),
{
    if statuses.len() == 0 {
        Seq::empty()
    } else {
        let before = writes_after(start, statuses.drop_last());
        match last_op(start, statuses) {
            ClockOp::Write(write) => before.push(write),
            _ => before,
        }
    }
}

/// The core cycles of all the delays asked for in a run that began at `start`.
pub open spec fn delay_after(start: Stage, statuses: Seq<ClockStatus>) -> nat
    decreases statuses.len(),
{
    if statuses.len() == 0 {
        0
    } else {
        let before = delay_after(start, statuses.drop_last());
        match last_op(start, statuses) {
            ClockOp::Delay(cycles) => before + cycles as nat,
            _ => before,
        }
    }
}

/// The writes of a whole bring-up, in order. There are two such listings: one
/// for a system clock found on the PLL, which is first switched to the
/// internal oscillator, and one for a system clock found elsewhere.
pub open spec fn listing(leaves_pll: bool) -> Seq<ClockWrite> {
    if leaves_pll {
        seq![
            ClockWrite::HseBypassOff,
            ClockWrite::ReadyInterruptOff(Oscillator::Lsi),
            ClockWrite::ReadyInterruptOff(Oscillator::Lse),
            ClockWrite::ReadyInterruptOff(Oscillator::Hsi),
            ClockWrite::ReadyInterruptOff(Oscillator::Hse),
            ClockWrite::ReadyInterruptOff(Oscillator::Pll),
            ClockWrite::ReadyInterruptOff(Oscillator::Hsi14),
            ClockWrite::ReadyInterruptOff(Oscillator::Hsi48),
            ClockWrite::HseOn,
            ClockWrite::HsiOn,
            ClockWrite::SecurityOn,
            ClockWrite::SystemClock(ClockSource::Hsi),
            ClockWrite::PllEnable(false),
            ClockWrite::PllSourceHse,
            ClockWrite::PllMultiplier6,
            ClockWrite::PllPredivider1,
            ClockWrite::PllEnable(true),
            ClockWrite::SystemClock(ClockSource::Pll),
            ClockWrite::ApbPrescaler1,
            ClockWrite::AhbPrescaler1,
            ClockWrite::EnablePortsAndDma,
            ClockWrite::EnableSpi,
            ClockWrite::UsbClockFromPll,
            ClockWrite::EnableUsb,
            ClockWrite::UsbReset(true),
            ClockWrite::UsbReset(false),
        ]
    } else {
        seq![
            ClockWrite::HseBypassOff,
            ClockWrite::ReadyInterruptOff(Oscillator::Lsi),
            ClockWrite::ReadyInterruptOff(Oscillator::Lse),
            ClockWrite::ReadyInterruptOff(Oscillator::Hsi),
            ClockWrite::ReadyInterruptOff(Oscillator::Hse),
            ClockWrite::ReadyInterruptOff(Oscillator::Pll),
            ClockWrite::ReadyInterruptOff(Oscillator::Hsi14),
            ClockWrite::ReadyInterruptOff(Oscillator::Hsi48),
            ClockWrite::HseOn,
            ClockWrite::HsiOn,
            ClockWrite::SecurityOn,
            ClockWrite::PllEnable(false),
            ClockWrite::PllSourceHse,
            ClockWrite::PllMultiplier6,
            ClockWrite::PllPredivider1,
            ClockWrite::PllEnable(true),
            ClockWrite::SystemClock(ClockSource::Pll),
            ClockWrite::ApbPrescaler1,
            ClockWrite::AhbPrescaler1,
            ClockWrite::EnablePortsAndDma,
            ClockWrite::EnableSpi,
            ClockWrite::UsbClockFromPll,
            ClockWrite::EnableUsb,
            ClockWrite::UsbReset(true),
            ClockWrite::UsbReset(false),
        ]
    }
}

/// Whether the run found the system clock on the PLL: whether its step at the
/// stage that is to take the system clock off the PLL was handed a status
/// with the system clock on it. A run that has not come to that stage has not.
pub open spec fn found_on_pll(statuses: Seq<ClockStatus>) -> bool
    decreases statuses.len(),
{
    if statuses.len() == 0 {
        false
    } else {
        ||| found_on_pll(statuses.drop_last())
        ||| stage_after(Stage::ClearBypass, statuses.drop_last()) is LeavePll
            && statuses.last().sysclk is Pll
    }
}

/// Number of writes of `listing(leaves_pll)` that lie before `stage`.
spec fn written(stage: Stage, leaves_pll: bool) -> int {
    let switch: int = if leaves_pll { 1 } else { 0 };
    match stage {
        Stage::ClearBypass => 0,
        Stage::MaskReady(o) => 1 + o.index() as int,
        Stage::StartHse => 8,
        Stage::StartHsi => 9,
        Stage::ArmSecurity => 10,
        Stage::AwaitHse => 11,
        Stage::AwaitHsi => 11,
        Stage::LeavePll => 11,
        Stage::AwaitHsiClock => 12,
        Stage::StopPll => 11 + switch,
        Stage::AwaitPllStopped => 12 + switch,
        Stage::SelectPllSource => 12 + switch,
        Stage::SetPllMultiplier => 13 + switch,
        Stage::SetPllPredivider => 14 + switch,
        Stage::StartPll => 15 + switch,
        Stage::AwaitPll => 16 + switch,
        Stage::SwitchToPll => 16 + switch,
        Stage::AwaitPllClock => 17 + switch,
        Stage::SetApbPrescaler => 17 + switch,
        Stage::SetAhbPrescaler => 18 + switch,
        Stage::EnableBusClocks => 19 + switch,
        Stage::EnableSpiClock => 20 + switch,
        Stage::SelectUsbClock => 21 + switch,
        Stage::EnableUsbClock => 22 + switch,
        Stage::AssertUsbReset => 23 + switch,
        Stage::Settle(_) => 24 + switch,
        Stage::Done => 25 + switch,
    }
}

/// The writes so far are the head of one of the two listings, as long as the
/// stage reached says, and the delays so far are those of the settling.
spec fn traced(stage: Stage, leaves_pll: bool, writes: Seq<ClockWrite>, delay: nat) -> bool {
    &&& stage.wf()
    &&& writes == listing(leaves_pll).take(written(stage, leaves_pll))
    &&& stage.rank() <= Stage::LeavePll.rank() ==> !leaves_pll
    &&& stage is AwaitHsiClock ==> leaves_pll
    &&& delay == match stage {
        Stage::Settle(i) => i * SETTLE_CYCLES,
        Stage::Done => SETTLE_ROUNDS * SETTLE_CYCLES,
        _ => 0,
    }
}

proof fn lemma_take_push(writes: Seq<ClockWrite>, k: int)
    requires
        0 <= k < writes.len(),
    ensures
        writes.take(k).push(writes[k]) == writes.take(k + 1),
{
    assert(writes.take(k).push(writes[k]) =~= writes.take(k + 1));
}

proof fn lemma_traced(statuses: Seq<ClockStatus>)
    ensures
        traced(
            stage_after(Stage::ClearBypass, statuses),
            found_on_pll(statuses),
            writes_after(Stage::ClearBypass, statuses),
            delay_after(Stage::ClearBypass, statuses),
        ),
    decreases statuses.len(),
{
    let start = Stage::ClearBypass;
    if statuses.len() == 0 {
        assert(writes_after(start, statuses) =~= listing(false).take(0));
    } else {
        let before = statuses.drop_last();
        lemma_traced(before);
        let stage = stage_after(start, before);
        let leaves_pll = found_on_pll(before);
        assert(listing(false).len() == 25);
        assert(listing(true).len() == 26);
        if stage is LeavePll {
            assert(listing(false).take(11) =~= listing(true).take(11));
            lemma_take_push(listing(true), 11);
        } else if !(stage is Done) {
            lemma_take_push(listing(leaves_pll), written(stage, leaves_pll));
        }
    }
}

/// The writes of every run from the head of the listing are the head of one
/// listing, and which one is settled by what the run found: the listing that
/// first switches the system clock to the internal oscillator where the run
/// found the system clock on the PLL, the other listing where it did not. A
/// run that has come to its end has answered that listing in full, with
/// delays of `SETTLE_ROUNDS` times `SETTLE_CYCLES` core cycles in all,
/// whatever the clock tree reported on the way. Neither quantity changes once
/// the end is reached.
///
/// In the listing of a run that found the system clock on the PLL, the switch
/// to the internal oscillator comes straight before the switching off of the
/// PLL, and that before every write that configures the PLL.
pub proof fn lemma_writes_follow_listing(statuses: Seq<ClockStatus>)
    ensures
        writes_after(Stage::ClearBypass, statuses).is_prefix_of(
            listing(found_on_pll(statuses)),
        ),
        stage_after(Stage::ClearBypass, statuses) is Done ==> {
            &&& writes_after(Stage::ClearBypass, statuses) == listing(found_on_pll(statuses))
            &&& delay_after(Stage::ClearBypass, statuses) == SETTLE_ROUNDS * SETTLE_CYCLES
        },
        stage_after(Stage::ClearBypass, statuses).rank() <= Stage::LeavePll.rank()
            ==> !found_on_pll(statuses),
        found_on_pll(statuses) ==> {
            let writes = writes_after(Stage::ClearBypass, statuses);
            &&& writes.len() >= 12
            &&& writes[11] == ClockWrite::SystemClock(ClockSource::Hsi)
        },
        listing(true)[11] == ClockWrite::SystemClock(ClockSource::Hsi),
        listing(true)[12] == ClockWrite::PllEnable(false),
        listing(true)[13] == ClockWrite::PllSourceHse,
        listing(true)[14] == ClockWrite::PllMultiplier6,
        listing(true)[15] == ClockWrite::PllPredivider1,
        listing(false)[11] == ClockWrite::PllEnable(false),
{
    lemma_traced(statuses);
    let stage = stage_after(Stage::ClearBypass, statuses);
    assert(listing(false).len() == 25);
    assert(listing(true).len() == 26);
    if stage is Done {
        assert(listing(false).take(25) =~= listing(false));
        assert(listing(true).take(26) =~= listing(true));
    }
}

/// What a run found is what its step at the stage that is to take the system
/// clock off the PLL was handed: where step `j` of the run stood at that
/// stage, the run found the system clock on the PLL exactly if status `j`
/// shows it there. No later step stands at that stage again.
pub proof fn lemma_found_at(statuses: Seq<ClockStatus>, j: int)
    requires
        0 <= j < statuses.len(),
        stage_after(Stage::ClearBypass, statuses.take(j)) is LeavePll,
    ensures
        found_on_pll(statuses) == (statuses[j].sysclk is Pll),
        stage_after(Stage::ClearBypass, statuses).rank() > Stage::LeavePll.rank(),
    decreases statuses.len(),
{
    let before = statuses.drop_last();
    lemma_traced(before);
    if j == statuses.len() - 1 {
        assert(before == statuses.take(j));
    } else {
        assert(before.take(j) == statuses.take(j));
        lemma_found_at(before, j);
        lemma_walks_in_order(stage_after(Stage::ClearBypass, before), statuses.last());
    }
}

proof fn lemma_up_was_read(statuses: Seq<ClockStatus>)
    ensures
        watch_after(Stage::ClearBypass, statuses).hse_up ==> exists|j: int|
            0 <= j < statuses.len() && (#[trigger] statuses[j]).hse_ready,
        watch_after(Stage::ClearBypass, statuses).hsi_up ==> exists|j: int|
            0 <= j < statuses.len() && (#[trigger] statuses[j]).hsi_ready,
    decreases statuses.len(),
{
    if statuses.len() > 0 {
        let before = statuses.drop_last();
        let last = statuses.len() - 1;
        lemma_up_was_read(before);
        let watch = watch_after(Stage::ClearBypass, before);
        if watch_after(Stage::ClearBypass, statuses).hse_up {
            if watch.hse_up {
                let j = choose|j: int| 0 <= j < before.len() && (#[trigger] before[j]).hse_ready;
                assert(statuses[j].hse_ready);
            } else {
                assert(statuses[last].hse_ready);
            }
        }
        if watch_after(Stage::ClearBypass, statuses).hsi_up {
            if watch.hsi_up {
                let j = choose|j: int| 0 <= j < before.len() && (#[trigger] before[j]).hsi_ready;
                assert(statuses[j].hsi_ready);
            } else {
                assert(statuses[last].hsi_ready);
            }
        }
    }
}

/// In every run from the head of the listing, a write to the system clock,
/// the PLL or the bus prescalers is answered only after a status has shown
/// the external oscillator ready and a status has shown the internal
/// oscillator ready.
pub proof fn lemma_oscillators_read_first(statuses: Seq<ClockStatus>, i: int)
    requires
        0 <= i < statuses.len(),
        last_op(Stage::ClearBypass, statuses.take(i + 1)) matches ClockOp::Write(write)
            && write.drives_clock(),
    ensures
        exists|j: int| 0 <= j < i && (#[trigger] statuses[j]).hse_ready,
        exists|j: int| 0 <= j < i && (#[trigger] statuses[j]).hsi_ready,
{
    let before = statuses.take(i);
    lemma_operations_in_order(statuses, i);
    lemma_up_was_read(before);
    let j = choose|j: int| 0 <= j < before.len() && (#[trigger] before[j]).hse_ready;
    assert(statuses[j].hse_ready);
    let k = choose|k: int| 0 <= k < before.len() && (#[trigger] before[k]).hsi_ready;
    assert(statuses[k].hsi_ready);
}

/// In a run that found the system clock on the PLL, the PLL is switched off
/// only straight after the step that waited for the internal oscillator to
/// drive the system clock and was handed a status that shows it does.
pub proof fn lemma_pll_left_before_stopped(statuses: Seq<ClockStatus>, i: int)
    requires
        0 <= i < statuses.len(),
        last_op(Stage::ClearBypass, statuses.take(i + 1)) == ClockOp::Write(
            ClockWrite::PllEnable(false),
        ),
        found_on_pll(statuses.take(i)),
    ensures
        i >= 1,
        stage_after(Stage::ClearBypass, statuses.take(i - 1)) is AwaitHsiClock,
        statuses[i - 1].sysclk is Hsi,
{
    let before = statuses.take(i);
    assert(statuses.take(i + 1).drop_last() == before);
    assert(statuses.take(i + 1).last() == statuses[i]);
    lemma_traced(before);
    assert(stage_after(Stage::ClearBypass, before) is StopPll);
    assert(i >= 1);
    assert(before.drop_last() == statuses.take(i - 1));
    assert(before.last() == statuses[i - 1]);
    lemma_traced(statuses.take(i - 1));
}

} // verus!
