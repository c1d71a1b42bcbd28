//! Requests of the host, the dispatcher that serves them, and the event loop.
//!
//! [`App`] performs nothing itself. It is handed an [`Event`], what a driver
//! has just observed, and answers with the [`Action`]s that the drivers are to
//! perform, in order. Where the last of them yields a result (a decoded
//! request, the bytes of an exchange, the level of a pin), that result is the
//! next event; otherwise the next event is the state of the transport
//! interrupt.

use crate::actions::{Action, Actions, Peripheral, Pin};
use vstd::prelude::*;

verus! {

/// Number of bytes a transmit buffer holds.
pub const BUFFER_SIZE: usize = 64;

/// Level of a single output or input line.
#[derive(Copy, Clone, PartialEq, Eq, Debug)]
pub enum PinState {
    Low,
    High,
}

/// The target, if any, that the shared bus is attached to.
#[derive(Copy, Clone, PartialEq, Eq, Debug)]
pub enum Mode {
    HighImpedance,
    Flash,
    FPGA,
}

/// One decoded command of the host.
#[derive(Copy, Clone, PartialEq, Eq, Debug)]
pub enum Request {
    SetCS(PinState),
    SetFPGA(PinState),
    SetTPwr(PinState),
    SetLED(PinState),
    SetMode(Mode),
    /// A buffer and the number of its leading bytes to exchange.
    Transmit(([u8; 64], usize)),
    GetTPwr,
    Bootload,
    Suspend,
}

impl Request {
    /// A transmit request never asks for more bytes than its buffer holds.
    pub open spec fn wf(self) -> bool {
        self matches Request::Transmit((_, n)) ==> n <= BUFFER_SIZE
    }

    /// Requests that enter a mode whole: a mode request, and a suspend
    /// request, which enters high impedance.
    pub open spec fn enters_mode(self) -> bool {
        self is SetMode || self is Suspend
    }

    /// Tells whether the request is well formed.
    pub fn valid(&self) -> (ok: bool)
        ensures
            ok == self.wf(),
    {
        match self {
            Request::Transmit((_, n)) => *n <= BUFFER_SIZE,
            _ => true,
        }
    }
}

impl Mode {
    /// Whether bulk data of the host is let in: only while a target is
    /// attached.
    pub open spec fn admits_data(self) -> bool {
        !(self is HighImpedance)
    }

    /// Whether the flash chip is attached to the bus.
    pub open spec fn flash_attached(self) -> bool {
        self is Flash
    }

    /// Whether the FPGA is attached to the bus.
    pub open spec fn fpga_attached(self) -> bool {
        self is FPGA
    }

    /// Tells whether bulk data of the host is let in under this mode.
    pub fn data_rx(&self) -> (on: bool)
        ensures
            on == self.admits_data(),
    {
        match self {
            Mode::HighImpedance => false,
            _ => true,
        }
    }
}

/// What a driver has observed.
#[derive(Copy, Clone, PartialEq, Eq, Debug)]
pub enum Event {
    /// Whether a transport interrupt is pending.
    Interrupt(bool),
    /// What the transport decoded.
    Decoded(Option<Request>),
    /// The buffer after an exchange: each exchanged position holds the byte
    /// received at it.
    Exchanged([u8; 64]),
    /// The level of the target-power-detect line.
    TargetPower(PinState),
}

/// What the core waits for.
#[derive(Copy, Clone, PartialEq, Eq, Debug)]
pub enum Phase {
    /// Nothing outstanding: the state of the transport interrupt.
    Idle,
    /// What the transport decoded.
    Decoding,
    /// The result of an exchange of this many bytes.
    Exchanging(usize),
    /// The level of the target-power-detect line.
    Sensing,
    /// The reset it has asked for. Nothing is answered any more.
    Resetting,
}

impl Event {
    /// A decoded request is well formed.
    pub open spec fn wf(self) -> bool {
        self matches Event::Decoded(Some(req)) ==> req.wf()
    }
}

impl Phase {
    /// An exchange in flight fits the buffer.
    pub open spec fn wf(self) -> bool {
        self matches Phase::Exchanging(n) ==> n <= BUFFER_SIZE
    }
}

/// The bytes that a buffer and a length stand for: the leading `frame.1` bytes
/// of the buffer.
pub open spec fn payload(frame: ([u8; 64], usize)) -> Seq<u8>
    recommends
        frame.1 <= BUFFER_SIZE,
{
    frame.0@.subrange(0, frame.1 as int)
}

/// The operations that serve a request, in the order in which they are
/// performed. A mode is entered whole: the lines are routed and bulk data is
/// let in or kept out as the mode has it. Suspending enters high impedance
/// in that way, and then takes the LED and the target power low.
pub open spec fn effects(req: Request) -> Seq<Action> {
    match req {
        Request::SetCS(level) => seq![Action::SetPin(Pin::ChipSelect, level)],
        Request::SetFPGA(level) => seq![Action::SetPin(Pin::FpgaReset, level)],
        Request::SetTPwr(level) => seq![Action::SetPin(Pin::TargetPower, level)],
        Request::SetLED(level) => seq![Action::SetPin(Pin::Led, level)],
        Request::SetMode(mode) => seq![Action::Route(mode), Action::DataRx(mode.admits_data())],
        Request::Transmit(frame) => seq![Action::Exchange(frame)],
        Request::GetTPwr => seq![Action::ReadTargetPower],
        Request::Bootload => seq![Action::ArmBootloader, Action::Reset],
        Request::Suspend => seq![
            Action::Route(Mode::HighImpedance),
            Action::DataRx(false),
            Action::SetPin(Pin::Led, PinState::Low),
            Action::SetPin(Pin::TargetPower, PinState::Low),
        ],
    }
}

/// What is outstanding once the operations of a request have been performed.
pub open spec fn outstanding(req: Request) -> Phase {
    match req {
        Request::Transmit((_, n)) => Phase::Exchanging(n),
        Request::GetTPwr => Phase::Sensing,
        Request::Bootload => Phase::Resetting,
        _ => Phase::Idle,
    }
}

/// The peripherals in the order in which they are brought up: each one after
/// the clocks and interrupts that it relies on.
pub open spec fn bring_up() -> Seq<Action> {
    seq![
        Action::Init(Peripheral::Flash),
        Action::Init(Peripheral::Clocks),
        Action::Init(Peripheral::InterruptController),
        Action::Init(Peripheral::Dma),
        Action::Init(Peripheral::Pins),
        Action::Init(Peripheral::Spi),
        Action::Init(Peripheral::Usb),
    ]
}

/// One turn of the event loop: what is waited for and what was observed give
/// what is waited for next and the operations to perform.
///
/// With nothing outstanding, a pending interrupt has the transport decode and
/// no pending interrupt puts the core to sleep. A decoded request is served,
/// and the interrupt is cleared once it is served in full: at once, or after
/// the reply where the request has one. An event that does not answer what is
/// waited for is not acted upon.
pub open spec fn step(phase: Phase, event: Event) -> (Phase, Seq<Action>) {
    match (phase, event) {
        (Phase::Idle, Event::Interrupt(pending)) => if pending {
            (Phase::Decoding, seq![Action::Decode])
        } else {
            (Phase::Idle, seq![Action::Sleep])
        },
        (Phase::Decoding, Event::Decoded(None)) => (Phase::Idle, seq![Action::Unpend]),
        (Phase::Decoding, Event::Decoded(Some(req))) => if outstanding(req) is Idle {
            (Phase::Idle, effects(req).push(Action::Unpend))
        } else {
            (outstanding(req), effects(req))
        },
        (Phase::Exchanging(n), Event::Exchanged(buffer)) => (
            Phase::Idle,
            seq![Action::ReplyData((buffer, n)), Action::Unpend],
        ),
        (Phase::Sensing, Event::TargetPower(level)) => (
            Phase::Idle,
            seq![Action::ReplyTargetPower(level), Action::Unpend],
        ),
        _ => (phase, Seq::empty()),
    }
}

/// The core of the bridge: the dispatcher and the event loop.
pub struct App {
    phase: Phase,
}

impl App {
    #[verifier::type_invariant]
    spec fn inv(self) -> bool {
        self.phase.wf()
    }

    /// What the core waits for.
    pub closed spec fn spec_phase(&self) -> Phase {
        self.phase
    }

    /// Returns what the core waits for.
    #[verifier::when_used_as_spec(spec_phase)]
    pub fn phase(&self) -> (phase: Phase)
        ensures
            phase == self.phase(),
            phase.wf(),
    {
        proof {
            use_type_invariant(self);
        }
        self.phase
    }

    /// A core with nothing outstanding.
    pub fn new() -> (app: App)
        ensures
            app.phase() == Phase::Idle,
    {
        App { phase: Phase::Idle }
    }

    /// Returns the initializers of the peripherals in the order in which they
    /// are to be run, and leaves nothing outstanding.
    pub fn setup(&mut self) -> (actions: Actions)
        ensures
            actions@ == bring_up(),
            final(self).phase() == Phase::Idle,
    {
        let mut actions = Actions::new();
        actions.push(Action::Init(Peripheral::Flash));
        actions.push(Action::Init(Peripheral::Clocks));
        actions.push(Action::Init(Peripheral::InterruptController));
        actions.push(Action::Init(Peripheral::Dma));
        actions.push(Action::Init(Peripheral::Pins));
        actions.push(Action::Init(Peripheral::Spi));
        actions.push(Action::Init(Peripheral::Usb));
        self.phase = Phase::Idle;
        actions
    }

    /// Takes one turn of the event loop on what a driver observed, and returns
    /// the operations to perform.
    pub fn poll(&mut self, event: Event) -> (actions: Actions)
        requires
            event.wf(),
        ensures
            (final(self).phase(), actions@) == step(old(self).phase(), event),
            final(self).phase().wf(),
            forall|i: int| 0 <= i < actions@.len() ==> (#[trigger] actions@[i]).wf(),
    {
        proof {
            use_type_invariant(&*self);
        }
        let mut actions = Actions::new();
        match (self.phase, event) {
            (Phase::Idle, Event::Interrupt(pending)) => {
                if pending {
                    actions.push(Action::Decode);
                    self.phase = Phase::Decoding;
                } else {
                    actions.push(Action::Sleep);
                }
            },
            (Phase::Decoding, Event::Decoded(None)) => {
                actions.push(Action::Unpend);
                self.phase = Phase::Idle;
            },
            (Phase::Decoding, Event::Decoded(Some(req))) => {
                actions = self.process_request(req);
                match self.phase {
                    Phase::Idle => {
                        actions.push(Action::Unpend);
                    },
                    _ => {},
                }
            },
            (Phase::Exchanging(n), Event::Exchanged(buffer)) => {
                actions.push(Action::ReplyData((buffer, n)));
                actions.push(Action::Unpend);
                self.phase = Phase::Idle;
            },
            (Phase::Sensing, Event::TargetPower(level)) => {
                actions.push(Action::ReplyTargetPower(level));
                actions.push(Action::Unpend);
                self.phase = Phase::Idle;
            },
            _ => {},
        }
        actions
    }

    /// Serves one request: returns its operations and records what they leave
    /// outstanding.
    pub fn process_request(&mut self, req: Request) -> (actions: Actions)
        requires
            req.wf(),
        ensures
            actions@ == effects(req),
            final(self).phase() == outstanding(req),
            forall|i: int| 0 <= i < actions@.len() ==> (#[trigger] actions@[i]).wf(),
    {
        let mut actions = Actions::new();
        match req {
            Request::SetCS(level) => {
                actions.push(Action::SetPin(Pin::ChipSelect, level));
                self.phase = Phase::Idle;
            },
            Request::SetFPGA(level) => {
                actions.push(Action::SetPin(Pin::FpgaReset, level));
                self.phase = Phase::Idle;
            },
            Request::SetTPwr(level) => {
                actions.push(Action::SetPin(Pin::TargetPower, level));
                self.phase = Phase::Idle;
            },
            Request::SetLED(level) => {
                actions.push(Action::SetPin(Pin::Led, level));
                self.phase = Phase::Idle;
            },
            Request::SetMode(mode) => {
                actions.push(Action::Route(mode));
                actions.push(Action::DataRx(mode.data_rx()));
                self.phase = Phase::Idle;
            },
            Request::Transmit((buffer, n)) => {
                actions.push(Action::Exchange((buffer, n)));
                self.phase = Phase::Exchanging(n);
            },
            Request::GetTPwr => {
                actions.push(Action::ReadTargetPower);
                self.phase = Phase::Sensing;
            },
            Request::Bootload => {
                actions.push(Action::ArmBootloader);
                actions.push(Action::Reset);
                self.phase = Phase::Resetting;
            },
            Request::Suspend => {
                actions.push(Action::Route(Mode::HighImpedance));
                actions.push(Action::DataRx(false));
                actions.push(Action::SetPin(Pin::Led, PinState::Low));
                actions.push(Action::SetPin(Pin::TargetPower, PinState::Low));
                self.phase = Phase::Idle;
            },
        }
        actions
    }
}

/// What the core waits for, and all it has asked the drivers to perform, once
/// every event of `events` has been answered in order.
pub open spec fn run(phase: Phase, events: Seq<Event>) -> (Phase, Seq<Action>)
    decreases events.len(),
{
    if events.len() == 0 {
        (phase, Seq::empty())
    } else {
        let before = run(phase, events.drop_last());
        let turn = step(before.0, events.last());
        (turn.0, before.1 + turn.1)
    }
}

/// A transmit request is answered with exactly as many bytes as it asked to
/// exchange, each of them the byte that the buffer holds at its position after
/// the exchange. Where the target hands every byte back as it was sent, the
/// reply is the bytes of the request.
pub proof fn lemma_transmit_round_trip(buffer: [u8; 64], n: usize, received: [u8; 64])
    requires
        n <= BUFFER_SIZE,
    ensures
        step(Phase::Decoding, Event::Decoded(Some(Request::Transmit((buffer, n))))) == (
            Phase::Exchanging(n),
            seq![Action::Exchange((buffer, n))],
        ),
        step(Phase::Exchanging(n), Event::Exchanged(received)) == (
            Phase::Idle,
            seq![Action::ReplyData((received, n)), Action::Unpend],
        ),
        payload((received, n)).len() == n,
        forall|i: int| 0 <= i < n ==> payload((received, n))[i] == received@[i],
        (forall|i: int| 0 <= i < n ==> received@[i] == buffer@[i]) ==> payload((received, n))
            == payload((buffer, n)),
{
    broadcast use vstd::array::array_len_matches_n;

    assert(received@.len() == 64);
    assert(buffer@.len() == 64);
    if forall|i: int| 0 <= i < n ==> received@[i] == buffer@[i] {
        assert(payload((received, n)) =~= payload((buffer, n)));
    }
}

/// A query of the target power is answered with the level that was read for
/// it, whatever that level is and whatever was requested before.
pub proof fn lemma_target_power_reply(level: PinState)
    ensures
        step(Phase::Decoding, Event::Decoded(Some(Request::GetTPwr))) == (
            Phase::Sensing,
            seq![Action::ReadTargetPower],
        ),
        step(Phase::Sensing, Event::TargetPower(level)) == (
            Phase::Idle,
            seq![Action::ReplyTargetPower(level), Action::Unpend],
        ),
{
}

/// What a run that has not asked for a reset looks like, and one that has.
spec fn reset_last(phase: Phase, actions: Seq<Action>) -> bool {
    if phase is Resetting {
        &&& actions.len() > 0
        &&& actions.last() is Reset
        &&& forall|j: int| 0 <= j < actions.len() - 1 ==> !(#[trigger] actions[j] is Reset)
    } else {
        forall|j: int| 0 <= j < actions.len() ==> !(#[trigger] actions[j] is Reset)
    }
}

proof fn lemma_reset_last(phase: Phase, events: Seq<Event>)
    requires
        !(phase is Resetting),
    ensures
        reset_last(run(phase, events).0, run(phase, events).1),
    decreases events.len(),
{
    if events.len() > 0 {
        lemma_reset_last(phase, events.drop_last());
    }
}

/// In every run of the event loop a reset is the last operation asked for:
/// once the core has asked for it, no event is answered with anything.
pub proof fn lemma_nothing_after_reset(phase: Phase, events: Seq<Event>, i: int)
    requires
        !(phase is Resetting),
        0 <= i < run(phase, events).1.len(),
        run(phase, events).1[i] is Reset,
    ensures
        i == run(phase, events).1.len() - 1,
        run(phase, events).0 is Resetting,
        forall|event: Event| step(Phase::Resetting, event) == (Phase::Resetting, Seq::<Action>::empty()),
{
    lemma_reset_last(phase, events);
}

/// Number of times that `action` occurs in `actions`.
pub open spec fn tally(actions: Seq<Action>, action: Action) -> nat
    decreases actions.len(),
{
    if actions.len() == 0 {
        0
    } else if actions.last() == action {
        tally(actions.drop_last(), action) + 1
    } else {
        tally(actions.drop_last(), action)
    }
}

proof fn lemma_tally_push(actions: Seq<Action>, pushed: Action, action: Action)
    ensures
        tally(actions.push(pushed), action) == tally(actions, action) + if pushed == action {
            1nat
        } else {
            0nat
        },
{
    assert(actions.push(pushed).drop_last() == actions);
}

proof fn lemma_tally_add(first: Seq<Action>, second: Seq<Action>, action: Action)
    ensures
        tally(first + second, action) == tally(first, action) + tally(second, action),
    decreases second.len(),
{
    if second.len() == 0 {
        assert(first + second == first);
    } else {
        lemma_tally_add(first, second.drop_last(), action);
        assert((first + second).drop_last() == first + second.drop_last());
    }
}

proof fn lemma_tally_none(actions: Seq<Action>, action: Action)
    requires
        forall|i: int| 0 <= i < actions.len() ==> actions[i] != action,
    ensures
        tally(actions, action) == 0,
    decreases actions.len(),
{
    if actions.len() > 0 {
        lemma_tally_none(actions.drop_last(), action);
    }
}

/// One turn takes up an interrupt where it goes from waiting for the
/// interrupt to waiting for something else, and clears one where it comes
/// back.
proof fn lemma_tally_step(phase: Phase, event: Event)
    ensures
        ({
            let (after, actions) = step(phase, event);
            &&& tally(actions, Action::Decode) == if phase is Idle && !(after is Idle) {
                1nat
            } else {
                0nat
            }
            &&& tally(actions, Action::Unpend) == if !(phase is Idle) && after is Idle {
                1nat
            } else {
                0nat
            }
        }),
{
    let (after, actions) = step(phase, event);
    if actions.len() > 0 {
        // Every turn answers with operations that hold neither a decode nor
        // a clearing, followed by at most one of the two.
        let last = actions.last();
        let body = if last is Decode || last is Unpend {
            actions.drop_last()
        } else {
            actions
        };
        lemma_tally_none(body, Action::Decode);
        lemma_tally_none(body, Action::Unpend);
        if body != actions {
            assert(actions == body.push(last));
            lemma_tally_push(body, last, Action::Decode);
            lemma_tally_push(body, last, Action::Unpend);
        }
    }
}

/// In every run of the event loop that starts with nothing outstanding, each
/// interrupt taken up is cleared once, and not before what it brought has been
/// served: the interrupts cleared are those taken up, less the one that is
/// still being served. An interrupt that brings a bootload request is never
/// cleared.
pub proof fn lemma_interrupts_cleared_once(events: Seq<Event>)
    ensures
        ({
            let (phase, actions) = run(Phase::Idle, events);
            tally(actions, Action::Decode) == tally(actions, Action::Unpend) + if phase is Idle {
                0nat
            } else {
                1nat
            }
        }),
    decreases events.len(),
{
    if events.len() > 0 {
        let before = run(Phase::Idle, events.drop_last());
        let turn = step(before.0, events.last());
        lemma_interrupts_cleared_once(events.drop_last());
        lemma_tally_step(before.0, events.last());
        lemma_tally_add(before.1, turn.1, Action::Decode);
        lemma_tally_add(before.1, turn.1, Action::Unpend);
    }
}

} // verus!
