//! The settings of the clock tree, and what the writes of the bring-up do to
//! them.
//!
//! [`ClockTree`] holds what the clock controller has been told: which
//! oscillators are switched on, how the PLL is fed and what drives the system
//! clock, the bus prescalers and the clocks of the peripherals that the bridge
//! uses. It says nothing of what the tree reports back: that is
//! [`ClockStatus`](crate::hal::rcc::ClockStatus). It stands in for the
//! controller where a bring-up is to be followed without one, and it is what
//! the law on the outcome of the bring-up is stated over.

use crate::hal::rcc::{
    last_op, lemma_walks_in_order, next, stage_after, writes_after, ClockOp, ClockSource,
    ClockStatus, ClockWrite, Oscillator, Stage,
};
use vstd::prelude::*;

verus! {

/// Which oscillators raise an interrupt when they become ready.
#[derive(Copy, Clone, PartialEq, Eq, Debug)]
pub struct ReadyInterrupts {
    pub lsi: bool,
    pub lse: bool,
    pub hsi: bool,
    pub hse: bool,
    pub pll: bool,
    pub hsi14: bool,
    pub hsi48: bool,
}

/// The settings of the clock tree.
#[derive(Copy, Clone, PartialEq, Eq, Debug)]
pub struct ClockTree {
    /// The external oscillator input takes a fed-in clock, not a crystal.
    pub hse_bypass: bool,
    pub ready_interrupts: ReadyInterrupts,
    pub hse_on: bool,
    pub hsi_on: bool,
    pub security_on: bool,
    /// The source selected to drive the system clock.
    pub system_clock: ClockSource,
    pub pll_on: bool,
    /// The PLL is fed from the external oscillator, through the predivider.
    pub pll_from_hse: bool,
    pub pll_multiplier: u8,
    pub pll_predivider: u8,
    pub apb_prescaler: u8,
    pub ahb_prescaler: u16,
    pub port_a_clocked: bool,
    pub port_b_clocked: bool,
    pub dma_clocked: bool,
    pub spi_clocked: bool,
    /// The USB controller is clocked from the PLL.
    pub usb_from_pll: bool,
    pub usb_clocked: bool,
    pub usb_in_reset: bool,
}

impl ReadyInterrupts {
    /// The interrupts with that of one oscillator masked.
    pub open spec fn without(self, oscillator: Oscillator) -> ReadyInterrupts {
        match oscillator {
            Oscillator::Lsi => ReadyInterrupts { lsi: false, ..self },
            Oscillator::Lse => ReadyInterrupts { lse: false, ..self },
            Oscillator::Hsi => ReadyInterrupts { hsi: false, ..self },
            Oscillator::Hse => ReadyInterrupts { hse: false, ..self },
            Oscillator::Pll => ReadyInterrupts { pll: false, ..self },
            Oscillator::Hsi14 => ReadyInterrupts { hsi14: false, ..self },
            Oscillator::Hsi48 => ReadyInterrupts { hsi48: false, ..self },
        }
    }

    /// Masks the interrupt of one oscillator.
    pub fn mask(self, oscillator: Oscillator) -> (masked: ReadyInterrupts)
        ensures
            masked == self.without(oscillator),
    {
        match oscillator {
            Oscillator::Lsi => ReadyInterrupts { lsi: false, ..self },
            Oscillator::Lse => ReadyInterrupts { lse: false, ..self },
            Oscillator::Hsi => ReadyInterrupts { hsi: false, ..self },
            Oscillator::Hse => ReadyInterrupts { hse: false, ..self },
            Oscillator::Pll => ReadyInterrupts { pll: false, ..self },
            Oscillator::Hsi14 => ReadyInterrupts { hsi14: false, ..self },
            Oscillator::Hsi48 => ReadyInterrupts { hsi48: false, ..self },
        }
    }
}

impl ClockTree {
    /// The settings that a bring-up ends with: the system clock on the PLL,
    /// which multiplies the undivided external oscillator by six; both
    /// oscillators on and watched by the security system; no ready interrupt;
    /// the buses undivided; ports, DMA, SPI and USB clocked, the USB
    /// controller from the PLL and out of reset.
    pub open spec fn target() -> ClockTree {
        ClockTree {
            hse_bypass: false,
            ready_interrupts: ReadyInterrupts {
                lsi: false,
                lse: false,
                hsi: false,
                hse: false,
                pll: false,
                hsi14: false,
                hsi48: false,
            },
            hse_on: true,
            hsi_on: true,
            security_on: true,
            system_clock: ClockSource::Pll,
            pll_on: true,
            pll_from_hse: true,
            pll_multiplier: 6,
            pll_predivider: 1,
            apb_prescaler: 1,
            ahb_prescaler: 1,
            port_a_clocked: true,
            port_b_clocked: true,
            dma_clocked: true,
            spi_clocked: true,
            usb_from_pll: true,
            usb_clocked: true,
            usb_in_reset: false,
        }
    }

    /// The settings after one write.
    pub open spec fn after(self, write: ClockWrite) -> ClockTree {
        match write {
            ClockWrite::HseBypassOff => ClockTree { hse_bypass: false, ..self },
            ClockWrite::ReadyInterruptOff(oscillator) => ClockTree {
                ready_interrupts: self.ready_interrupts.without(oscillator),
                ..self
            },
            ClockWrite::HseOn => ClockTree { hse_on: true, ..self },
            ClockWrite::HsiOn => ClockTree { hsi_on: true, ..self },
            ClockWrite::SecurityOn => ClockTree { security_on: true, ..self },
            ClockWrite::SystemClock(source) => ClockTree { system_clock: source, ..self },
            ClockWrite::PllEnable(on) => ClockTree { pll_on: on, ..self },
            ClockWrite::PllSourceHse => ClockTree { pll_from_hse: true, ..self },
            ClockWrite::PllMultiplier6 => ClockTree { pll_multiplier: 6, ..self },
            ClockWrite::PllPredivider1 => ClockTree { pll_predivider: 1, ..self },
            ClockWrite::ApbPrescaler1 => ClockTree { apb_prescaler: 1, ..self },
            ClockWrite::AhbPrescaler1 => ClockTree { ahb_prescaler: 1, ..self },
            ClockWrite::EnablePortsAndDma => ClockTree {
                port_a_clocked: true,
                port_b_clocked: true,
                dma_clocked: true,
                ..self
            },
            ClockWrite::EnableSpi => ClockTree { spi_clocked: true, ..self },
            ClockWrite::UsbClockFromPll => ClockTree { usb_from_pll: true, ..self },
            ClockWrite::EnableUsb => ClockTree { usb_clocked: true, ..self },
            ClockWrite::UsbReset(on) => ClockTree { usb_in_reset: on, ..self },
        }
    }

    /// What the tree reports where every flag follows its setting at once: an
    /// oscillator is ready exactly while it is switched on, and the system
    /// clock runs from the source selected.
    pub open spec fn reports(self) -> ClockStatus {
        ClockStatus {
            hse_ready: self.hse_on,
            hsi_ready: self.hsi_on,
            pll_ready: self.pll_on,
            sysclk: self.system_clock,
        }
    }

    /// The settings after a run of writes, performed in order.
    pub open spec fn after_all(self, writes: Seq<ClockWrite>) -> ClockTree
        decreases writes.len(),
    {
        if writes.len() == 0 {
            self
        } else {
            self.after_all(writes.drop_last()).after(writes.last())
        }
    }

    /// Performs one write on the settings.
    pub fn perform(&mut self, write: ClockWrite)
        ensures
            *final(self) == old(self).after(write),
    {
        let tree = *self;
        *self = match write {
            ClockWrite::HseBypassOff => ClockTree { hse_bypass: false, ..tree },
            ClockWrite::ReadyInterruptOff(oscillator) => ClockTree {
                ready_interrupts: tree.ready_interrupts.mask(oscillator),
                ..tree
            },
            ClockWrite::HseOn => ClockTree { hse_on: true, ..tree },
            ClockWrite::HsiOn => ClockTree { hsi_on: true, ..tree },
            ClockWrite::SecurityOn => ClockTree { security_on: true, ..tree },
            ClockWrite::SystemClock(source) => ClockTree { system_clock: source, ..tree },
            ClockWrite::PllEnable(on) => ClockTree { pll_on: on, ..tree },
            ClockWrite::PllSourceHse => ClockTree { pll_from_hse: true, ..tree },
            ClockWrite::PllMultiplier6 => ClockTree { pll_multiplier: 6, ..tree },
            ClockWrite::PllPredivider1 => ClockTree { pll_predivider: 1, ..tree },
            ClockWrite::ApbPrescaler1 => ClockTree { apb_prescaler: 1, ..tree },
            ClockWrite::AhbPrescaler1 => ClockTree { ahb_prescaler: 1, ..tree },
            ClockWrite::EnablePortsAndDma => ClockTree {
                port_a_clocked: true,
                port_b_clocked: true,
                dma_clocked: true,
                ..tree
            },
            ClockWrite::EnableSpi => ClockTree { spi_clocked: true, ..tree },
            ClockWrite::UsbClockFromPll => ClockTree { usb_from_pll: true, ..tree },
            ClockWrite::EnableUsb => ClockTree { usb_clocked: true, ..tree },
            ClockWrite::UsbReset(on) => ClockTree { usb_in_reset: on, ..tree },
        };
    }
}

/// What the stage reached implies of the settings, in a run from the head of
/// the listing: the write of every stage passed is in effect.
spec fn applied(stage: Stage, tree: ClockTree) -> bool {
    let r = stage.rank();
    &&& r > 0 ==> !tree.hse_bypass
    &&& r > 1 ==> !tree.ready_interrupts.lsi
    &&& r > 2 ==> !tree.ready_interrupts.lse
    &&& r > 3 ==> !tree.ready_interrupts.hsi
    &&& r > 4 ==> !tree.ready_interrupts.hse
    &&& r > 5 ==> !tree.ready_interrupts.pll
    &&& r > 6 ==> !tree.ready_interrupts.hsi14
    &&& r > 7 ==> !tree.ready_interrupts.hsi48
    &&& r > 8 ==> tree.hse_on
    &&& r > 9 ==> tree.hsi_on
    &&& r > 10 ==> tree.security_on
    &&& 15 < r <= 20 ==> !tree.pll_on
    &&& r > 17 ==> tree.pll_from_hse
    &&& r > 18 ==> tree.pll_multiplier == 6
    &&& r > 19 ==> tree.pll_predivider == 1
    &&& r > 20 ==> tree.pll_on
    &&& stage is AwaitHsiClock ==> tree.system_clock is Hsi
    &&& r > 22 ==> tree.system_clock is Pll
    &&& r > 24 ==> tree.apb_prescaler == 1
    &&& r > 25 ==> tree.ahb_prescaler == 1
    &&& r > 26 ==> tree.port_a_clocked && tree.port_b_clocked && tree.dma_clocked
    &&& r > 27 ==> tree.spi_clocked
    &&& r > 28 ==> tree.usb_from_pll
    &&& r > 29 ==> tree.usb_clocked
    &&& 30 < r < Stage::Done.rank() ==> tree.usb_in_reset
    &&& stage is Done ==> !tree.usb_in_reset
}

/// Whether one step from `stage` keeps the writes of the stages passed in
/// effect.
spec fn step_applies(stage: Stage, tree: ClockTree, status: ClockStatus) -> bool {
    &&& next(stage, status).0.wf()
    &&& match next(stage, status).1 {
        ClockOp::Write(write) => applied(next(stage, status).0, tree.after(write)),
        _ => applied(next(stage, status).0, tree),
    }
}

/// One step keeps the writes of the stages passed in effect.
proof fn lemma_applied_step(stage: Stage, tree: ClockTree, status: ClockStatus)
    requires
        stage.wf(),
        applied(stage, tree),
    ensures
        step_applies(stage, tree, status),
{
    // Stage by stage: each arm is checked on its own stage.
    match stage {
        Stage::MaskReady(oscillator) => match oscillator {
            Oscillator::Lsi => {},
            Oscillator::Lse => {},
            Oscillator::Hsi => {},
            Oscillator::Hse => {},
            Oscillator::Pll => {},
            Oscillator::Hsi14 => {},
            Oscillator::Hsi48 => {},
        },
        Stage::Settle(_) => {},
        Stage::ClearBypass => {},
        Stage::StartHse => {},
        Stage::StartHsi => {},
        Stage::ArmSecurity => {},
        Stage::AwaitHse => {},
        Stage::AwaitHsi => {},
        Stage::LeavePll => {},
        Stage::AwaitHsiClock => {},
        Stage::StopPll => {},
        Stage::AwaitPllStopped => {},
        Stage::SelectPllSource => {},
        Stage::SetPllMultiplier => {},
        Stage::SetPllPredivider => {},
        Stage::StartPll => {},
        Stage::AwaitPll => {},
        Stage::SwitchToPll => {},
        Stage::AwaitPllClock => {},
        Stage::SetApbPrescaler => {},
        Stage::SetAhbPrescaler => {},
        Stage::EnableBusClocks => {},
        Stage::EnableSpiClock => {},
        Stage::SelectUsbClock => {},
        Stage::EnableUsbClock => {},
        Stage::AssertUsbReset => {},
        Stage::Done => {},
    }
}

proof fn lemma_applied(tree: ClockTree, statuses: Seq<ClockStatus>)
    ensures
        stage_after(Stage::ClearBypass, statuses).wf(),
        applied(
            stage_after(Stage::ClearBypass, statuses),
            tree.after_all(writes_after(Stage::ClearBypass, statuses)),
        ),
    decreases statuses.len(),
{
    let start = Stage::ClearBypass;
    if statuses.len() > 0 {
        let before = statuses.drop_last();
        lemma_applied(tree, before);
        let writes = writes_after(start, before);
        lemma_applied_step(stage_after(start, before), tree.after_all(writes), statuses.last());
        match last_op(start, statuses) {
            ClockOp::Write(write) => {
                assert(writes.push(write).drop_last() == writes);
            },
            _ => {},
        }
    }
}

/// A bring-up that has come to the end of its listing leaves the clock tree
/// with the settings of `target`, whatever the settings were before it and
/// whatever the tree reported on the way.
pub proof fn lemma_ends_on_target(tree: ClockTree, statuses: Seq<ClockStatus>)
    requires
        stage_after(Stage::ClearBypass, statuses) is Done,
    ensures
        tree.after_all(writes_after(Stage::ClearBypass, statuses)) == ClockTree::target(),
{
    lemma_applied(tree, statuses);
}

/// In every run from the head of the listing, a write that configures the PLL
/// finds the PLL switched off, whatever the settings were before the run.
pub proof fn lemma_pll_configured_while_off(
    tree: ClockTree,
    statuses: Seq<ClockStatus>,
    i: int,
)
    requires
        0 <= i < statuses.len(),
        last_op(Stage::ClearBypass, statuses.take(i + 1)) matches ClockOp::Write(write)
            && write.configures_pll(),
    ensures
        !tree.after_all(writes_after(Stage::ClearBypass, statuses.take(i))).pll_on,
{
    lemma_applied(tree, statuses.take(i));
    assert(statuses.take(i + 1).drop_last() == statuses.take(i));
    assert(statuses.take(i + 1).last() == statuses[i]);
}

/// The stage and the settings after `steps` steps of a bring-up on a clock
/// tree that does at once what it is told: each step is handed what the
/// settings report, and its write, if it answers with one, is performed
/// before the next.
pub open spec fn told(stage: Stage, tree: ClockTree, steps: nat) -> (Stage, ClockTree)
    decreases steps,
{
    if steps == 0 {
        (stage, tree)
    } else {
        let (reached, settings) = told(stage, tree, (steps - 1) as nat);
        let (following, op) = next(reached, settings.reports());
        match op {
            ClockOp::Write(write) => (following, settings.after(write)),
            _ => (following, settings),
        }
    }
}

proof fn lemma_told(tree: ClockTree, steps: nat)
    ensures
        ({
            let (stage, settings) = told(Stage::ClearBypass, tree, steps);
            &&& stage.wf()
            &&& applied(stage, settings)
            &&& stage.rank() >= steps || stage is Done
        }),
    decreases steps,
{
    if steps > 0 {
        lemma_told(tree, (steps - 1) as nat);
        let (reached, settings) = told(Stage::ClearBypass, tree, (steps - 1) as nat);
        lemma_applied_step(reached, settings, settings.reports());
        lemma_walks_in_order(reached, settings.reports());
    }
}

/// On a clock tree that does at once what it is told, the bring-up comes to
/// the end of its listing within as many steps as the listing has stages,
/// whatever the settings were before it, and leaves the settings of `target`.
/// No wait of the listing is for a flag that the listing has not asked for.
pub proof fn lemma_told_tree_comes_up(tree: ClockTree)
    ensures
        told(Stage::ClearBypass, tree, Stage::Done.rank()) == (Stage::Done, ClockTree::target()),
{
    lemma_told(tree, Stage::Done.rank());
}

} // verus!
