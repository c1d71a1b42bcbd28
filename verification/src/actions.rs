//! The operations that the core asks the drivers to perform.

use crate::app::{Mode, PinState, BUFFER_SIZE};
use vstd::prelude::*;
use vstd::slice::slice_subrange;

verus! {

/// Most operations that one answer of the core holds.
pub const MAX_ACTIONS: usize = 8;

/// A peripheral that is brought up once, before the first event.
#[derive(Copy, Clone, PartialEq, Eq, Debug)]
pub enum Peripheral {
    Flash,
    /// The clock tree: the whole bring-up of [`crate::hal::rcc`].
    Clocks,
    InterruptController,
    Dma,
    Pins,
    Spi,
    Usb,
}

/// An output line that is set on its own, whatever the mode.
#[derive(Copy, Clone, PartialEq, Eq, Debug)]
pub enum Pin {
    ChipSelect,
    FpgaReset,
    TargetPower,
    Led,
}

/// One operation for the drivers to perform.
#[derive(Copy, Clone, PartialEq, Eq, Debug)]
pub enum Action {
    /// Run the one-shot initializer of a peripheral.
    Init(Peripheral),
    /// Wait in low power for the next event of the core.
    Sleep,
    /// Decode at most one request from the transport; answered by
    /// [`Event::Decoded`](crate::app::Event::Decoded).
    Decode,
    /// Clear the pending transport interrupt.
    Unpend,
    /// Drive one output line to a level.
    SetPin(Pin, PinState),
    /// Reconfigure the target-facing lines for a mode, as one operation.
    Route(Mode),
    /// Let bulk data of the host in (`true`) or keep it out (`false`).
    DataRx(bool),
    /// Exchange the leading bytes of the buffer over the bus; answered by
    /// [`Event::Exchanged`](crate::app::Event::Exchanged).
    Exchange(([u8; 64], usize)),
    /// Read the target-power-detect line; answered by
    /// [`Event::TargetPower`](crate::app::Event::TargetPower).
    ReadTargetPower,
    /// Send the leading bytes of the buffer to the host.
    ReplyData(([u8; 64], usize)),
    /// Send a level to the host.
    ReplyTargetPower(PinState),
    /// Set the flag that survives a reset.
    ArmBootloader,
    /// Reset the device. Nothing is performed after it.
    Reset,
}

impl Action {
    /// A buffer is never used beyond its size.
    pub open spec fn wf(self) -> bool {
        match self {
            Action::Exchange((_, n)) => n <= BUFFER_SIZE,
            Action::ReplyData((_, n)) => n <= BUFFER_SIZE,
            _ => true,
        }
    }
}

/// The operations of one answer of the core, in the order in which they are
/// to be performed. Holds them in place: nothing is allocated.
#[derive(Copy, Clone, Debug)]
pub struct Actions {
    items: [Action; MAX_ACTIONS],
    len: usize,
}

impl View for Actions {
    type V = Seq<Action>;

    closed spec fn view(&self) -> Seq<Action> {
        self.items@.take(self.len as int)
    }
}

impl Actions {
    #[verifier::type_invariant]
    spec fn inv(self) -> bool {
        self.len <= MAX_ACTIONS
    }

    /// No operation.
    pub(crate) fn new() -> (actions: Actions)
        ensures
            actions@ == Seq::<Action>::empty(),
    {
        Actions { items: [Action::Sleep; MAX_ACTIONS], len: 0 }
    }

    /// Number of operations.
    pub fn len(&self) -> (len: usize)
        ensures
            len == self@.len(),
            len <= MAX_ACTIONS,
    {
        proof {
            use_type_invariant(self);
        }
        self.len
    }

    /// The operation at a position, counted from the first to perform, if
    /// there is one.
    pub fn get(&self, i: usize) -> (action: Option<Action>)
        ensures
            action == if i < self@.len() {
                Some(self@[i as int])
            } else {
                None
            },
    {
        proof {
            use_type_invariant(self);
        }
        if i < self.len {
            Some(self.items[i])
        } else {
            None
        }
    }

    /// The operations as a slice.
    pub fn as_slice(&self) -> (slice: &[Action])
        ensures
            slice@ == self@,
    {
        proof {
            use_type_invariant(self);
        }
        slice_subrange(self.items.as_slice(), 0, self.len)
    }

    /// Appends an operation, to be performed after those held.
    pub(crate) fn push(&mut self, action: Action)
        requires
            old(self)@.len() < MAX_ACTIONS,
        ensures
            final(self)@ == old(self)@.push(action),
    {
        proof {
            use_type_invariant(&*self);
        }
        let mut items = self.items;
        items[self.len] = action;
        *self = Actions { items, len: self.len + 1 };
        assert(self@ =~= old(self)@.push(action));
    }
}

} // verus!
