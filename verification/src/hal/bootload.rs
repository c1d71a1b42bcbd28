//! The flag that survives a reset, and the latch that reads it.
//!
//! A bootload request arms the flag and resets the device. The latch runs
//! first after every reset, before anything else of the firmware is set up:
//! where it finds the flag armed it disarms it and sends the boot into the
//! system bootloader, otherwise the boot goes on into the application.
//!
//! [`Retained`] is the only state whose life spans a reset. It is made once
//! per power cycle, disarmed, and is otherwise carried over every reset as it
//! is.

use crate::actions::Action;
use crate::app::{effects, Request};
use vstd::prelude::*;

verus! {

/// Where a boot goes.
#[derive(Copy, Clone, PartialEq, Eq, Debug)]
pub enum Boot {
    /// On into the application.
    Application,
    /// Into the system bootloader, never to return.
    Bootloader,
}

/// The state that a reset leaves as it is.
#[derive(Copy, Clone, PartialEq, Eq, Debug)]
pub struct Retained {
    armed: bool,
}

impl Retained {
    /// Whether the next boot is to enter the system bootloader.
    pub closed spec fn spec_armed(&self) -> bool {
        self.armed
    }

    /// Tells whether the next boot is to enter the system bootloader.
    #[verifier::when_used_as_spec(spec_armed)]
    pub fn armed(&self) -> (armed: bool)
        ensures
            armed == self.armed(),
    {
        self.armed
    }

    /// Where the boot goes on this state.
    pub open spec fn boot(self) -> Boot {
        if self.armed() {
            Boot::Bootloader
        } else {
            Boot::Application
        }
    }

    /// The state after one operation of the core: arming arms it, and nothing
    /// else touches it, a reset least of all.
    pub open spec fn after(self, action: Action) -> Retained {
        if action is ArmBootloader {
            Retained::holding(true)
        } else {
            self
        }
    }

    /// The state after a run of operations, performed in order.
    pub open spec fn after_all(self, actions: Seq<Action>) -> Retained
        decreases actions.len(),
    {
        if actions.len() == 0 {
            self
        } else {
            self.after_all(actions.drop_last()).after(actions.last())
        }
    }

    /// The state after a run of requests, each served in full before the
    /// next.
    pub open spec fn after_requests(self, requests: Seq<Request>) -> Retained
        decreases requests.len(),
    {
        if requests.len() == 0 {
            self
        } else {
            self.after_requests(requests.drop_last()).after_all(effects(requests.last()))
        }
    }

    /// The state with the flag as given.
    pub closed spec fn holding(armed: bool) -> Retained {
        Retained { armed }
    }

    /// The state at power-on: disarmed.
    pub fn power_on() -> (retained: Retained)
        ensures
            retained == Retained::holding(false),
            !retained.armed(),
    {
        Retained { armed: false }
    }

    /// The state as a reset left it, from what the retained memory holds.
    pub fn restore(armed: bool) -> (retained: Retained)
        ensures
            retained == Retained::holding(armed),
            retained.armed() == armed,
    {
        Retained { armed }
    }

    /// Arms the flag: the boot after the next reset enters the bootloader.
    pub fn arm(&mut self)
        ensures
            *final(self) == old(self).after(Action::ArmBootloader),
            final(self).armed(),
    {
        self.armed = true;
    }

    /// The latch. Reads the flag once and leaves it disarmed; returns where the
    /// boot goes.
    pub fn check(&mut self) -> (boot: Boot)
        ensures
            boot == old(self).boot(),
            *final(self) == Retained::holding(false),
            !final(self).armed(),
    {
        if self.armed {
            self.armed = false;
            Boot::Bootloader
        } else {
            Boot::Application
        }
    }
}

/// What the flag is under `holding`.
pub proof fn lemma_holding(armed: bool)
    ensures
        Retained::holding(armed).armed() == armed,
        Retained::holding(armed).boot() == if armed {
            Boot::Bootloader
        } else {
            Boot::Application
        },
{
}

/// The retained state after the operations of a request: armed by a bootload
/// request, left as it was by every other.
pub proof fn lemma_only_bootload_arms(retained: Retained, req: Request)
    ensures
        retained.after_all(effects(req)) == if req is Bootload {
            Retained::holding(true)
        } else {
            retained
        },
{
    reveal_with_fuel(Retained::after_all, 5);
    let actions = effects(req);
    if actions.len() == 4 {
        assert(actions.drop_last().drop_last().drop_last().drop_last().len() == 0);
    } else if actions.len() == 2 {
        assert(actions.drop_last().drop_last().len() == 0);
    } else {
        assert(actions.drop_last().len() == 0);
    }
}

/// A bootload request arms the flag and then asks for the reset, in that
/// order and with nothing after. The state that the reset carries over sends
/// the boot that follows into the bootloader, whatever the state was before
/// the request; the latch disarms it, so the boot after that one goes on into
/// the application.
pub proof fn lemma_bootload_enters_bootloader(retained: Retained)
    ensures
        effects(Request::Bootload) == seq![Action::ArmBootloader, Action::Reset],
        retained.after_all(effects(Request::Bootload)).boot() == Boot::Bootloader,
        Retained::holding(false).boot() == Boot::Application,
{
    lemma_only_bootload_arms(retained, Request::Bootload);
}

/// A boot goes on into the application when no bootload request was served
/// since power-on, however many other requests were.
pub proof fn lemma_cold_boot_proceeds(requests: Seq<Request>)
    requires
        forall|i: int| 0 <= i < requests.len() ==> !(#[trigger] requests[i] is Bootload),
    ensures
        Retained::holding(false).after_requests(requests) == Retained::holding(false),
        Retained::holding(false).after_requests(requests).boot() == Boot::Application,
    decreases requests.len(),
{
    if requests.len() > 0 {
        lemma_cold_boot_proceeds(requests.drop_last());
        lemma_only_bootload_arms(Retained::holding(false), requests.last());
    }
}

} // verus!
