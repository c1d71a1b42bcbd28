//! The outputs of the bridge, and what the operations of the core do to them.
//!
//! [`Board`] is the bridge as the pin and transport drivers leave it: the
//! routing of the target-facing lines, whether bulk data of the host is let
//! in, and the four lines that are set on their own. It stands in for the hardware
//! where a run of the core is to be followed without one, and it is what the
//! laws on the requests are stated over.

use crate::actions::{Action, Pin};
use crate::app::{effects, step, Event, Mode, Phase, PinState, Request};
use vstd::prelude::*;

verus! {

/// The outputs of the bridge.
#[derive(Copy, Clone, PartialEq, Eq, Debug)]
pub struct Board {
    /// The routing of the target-facing lines.
    pub mode: Mode,
    /// Whether bulk data of the host is let in.
    pub data_rx: bool,
    pub cs: PinState,
    pub fpga_rst: PinState,
    pub tpwr_en: PinState,
    pub led: PinState,
}

impl Board {
    /// The board after one operation. Setting a line changes that line,
    /// routing changes the mode, and letting bulk data in or keeping it out
    /// changes just that; every other operation leaves the outputs as they
    /// are.
    pub open spec fn after(self, action: Action) -> Board {
        match action {
            Action::SetPin(Pin::ChipSelect, level) => Board { cs: level, ..self },
            Action::SetPin(Pin::FpgaReset, level) => Board { fpga_rst: level, ..self },
            Action::SetPin(Pin::TargetPower, level) => Board { tpwr_en: level, ..self },
            Action::SetPin(Pin::Led, level) => Board { led: level, ..self },
            Action::Route(mode) => Board { mode, ..self },
            Action::DataRx(on) => Board { data_rx: on, ..self },
            _ => self,
        }
    }

    /// The board after a run of operations, performed in order.
    pub open spec fn after_all(self, actions: Seq<Action>) -> Board
        decreases actions.len(),
    {
        if actions.len() == 0 {
            self
        } else {
            self.after_all(actions.drop_last()).after(actions.last())
        }
    }

    /// The board after a run of requests, each served in full before the
    /// next.
    pub open spec fn after_requests(self, requests: Seq<Request>) -> Board
        decreases requests.len(),
    {
        if requests.len() == 0 {
            self
        } else {
            self.after_requests(requests.drop_last()).after_all(effects(requests.last()))
        }
    }

    /// The reception of bulk data agrees with the routing: on exactly while
    /// a target is attached.
    pub open spec fn consistent(self) -> bool {
        self.data_rx == self.mode.admits_data()
    }

    /// Performs one operation on the board.
    pub fn perform(&mut self, action: Action)
        ensures
            *final(self) == old(self).after(action),
    {
        match action {
            Action::SetPin(pin, level) => match pin {
                Pin::ChipSelect => {
                    self.cs = level;
                },
                Pin::FpgaReset => {
                    self.fpga_rst = level;
                },
                Pin::TargetPower => {
                    self.tpwr_en = level;
                },
                Pin::Led => {
                    self.led = level;
                },
            },
            Action::Route(mode) => {
                self.mode = mode;
            },
            Action::DataRx(on) => {
                self.data_rx = on;
            },
            _ => {},
        }
    }

    /// Performs a run of operations on the board, in order.
    pub fn perform_all(&mut self, actions: &[Action])
        ensures
            *final(self) == old(self).after_all(actions@),
    {
        let ghost start = *self;
        let mut i: usize = 0;
        while i < actions.len()
            invariant
                i <= actions.len(),
                *self == start.after_all(actions@.take(i as int)),
            decreases actions.len() - i,
        {
            self.perform(actions[i]);
            assert(actions@.take(i + 1).drop_last() == actions@.take(i as int));
            i += 1;
        }
        assert(actions@.take(i as int) == actions@);
    }
}

/// The board after the operations of a request, written out.
proof fn lemma_served(board: Board, req: Request)
    ensures
        board.after_all(effects(req)) == match req {
            Request::SetCS(level) => Board { cs: level, ..board },
            Request::SetFPGA(level) => Board { fpga_rst: level, ..board },
            Request::SetTPwr(level) => Board { tpwr_en: level, ..board },
            Request::SetLED(level) => Board { led: level, ..board },
            Request::SetMode(mode) => Board { mode, data_rx: mode.admits_data(), ..board },
            Request::Suspend => Board {
                mode: Mode::HighImpedance,
                data_rx: false,
                led: PinState::Low,
                tpwr_en: PinState::Low,
                ..board
            },
            _ => board,
        },
{
    reveal_with_fuel(Board::after_all, 5);
    let actions = effects(req);
    if actions.len() == 4 {
        assert(actions.drop_last().drop_last().drop_last().drop_last().len() == 0);
    } else if actions.len() == 2 {
        assert(actions.drop_last().drop_last().len() == 0);
    } else {
        assert(actions.drop_last().len() == 0);
    }
}

/// The two targets are never attached at once, whatever the board.
pub proof fn lemma_one_target_at_most(board: Board)
    ensures
        !(board.mode.flash_attached() && board.mode.fpga_attached()),
{
}

/// A mode request leaves the board in the mode asked for, with bulk data let
/// in exactly where that mode attaches a target, whatever the board was
/// before; the four single lines stay as they were.
pub proof fn lemma_set_mode(board: Board, mode: Mode)
    ensures
        board.after_all(effects(Request::SetMode(mode))) == (Board {
            mode,
            data_rx: !(mode is HighImpedance),
            ..board
        }),
        board.after_all(effects(Request::SetMode(mode))).consistent(),
{
    lemma_served(board, Request::SetMode(mode));
}

/// After every request of a run of mode requests, from any board, the board is
/// in the mode last asked for and lets bulk data in exactly where that mode
/// attaches a target: kept out under high impedance, let in under flash and
/// under FPGA.
pub proof fn lemma_mode_requests(board: Board, modes: Seq<Mode>, k: int)
    requires
        0 < k <= modes.len(),
    ensures
        ({
            let requests = modes.take(k).map_values(|m: Mode| Request::SetMode(m));
            let reached = board.after_requests(requests);
            &&& reached.mode == modes[k - 1]
            &&& reached.data_rx == !(modes[k - 1] is HighImpedance)
            &&& !(reached.mode.flash_attached() && reached.mode.fpga_attached())
        }),
{
    let requests = modes.take(k).map_values(|m: Mode| Request::SetMode(m));
    assert(requests.last() == Request::SetMode(modes[k - 1]));
    lemma_set_mode(board.after_requests(requests.drop_last()), modes[k - 1]);
}

/// A suspend request leaves the board in high impedance as a mode request for
/// it does, with bulk data kept out, and with the LED low and the target
/// power off, whatever the board was before. Chip select and FPGA reset stay
/// as they were.
pub proof fn lemma_suspend(board: Board)
    ensures
        board.after_all(effects(Request::Suspend)) == (Board {
            mode: Mode::HighImpedance,
            data_rx: false,
            led: PinState::Low,
            tpwr_en: PinState::Low,
            ..board
        }),
        board.after_all(effects(Request::Suspend)) == (Board {
            led: PinState::Low,
            tpwr_en: PinState::Low,
            ..board.after_all(effects(Request::SetMode(Mode::HighImpedance)))
        }),
        board.after_all(effects(Request::Suspend)).consistent(),
{
    lemma_served(board, Request::Suspend);
    lemma_served(board, Request::SetMode(Mode::HighImpedance));
}

/// A request that sets a single line changes that line and nothing else.
pub proof fn lemma_single_lines(board: Board, level: PinState)
    ensures
        board.after_all(effects(Request::SetCS(level))) == (Board { cs: level, ..board }),
        board.after_all(effects(Request::SetFPGA(level))) == (Board { fpga_rst: level, ..board }),
        board.after_all(effects(Request::SetTPwr(level))) == (Board { tpwr_en: level, ..board }),
        board.after_all(effects(Request::SetLED(level))) == (Board { led: level, ..board }),
{
    lemma_served(board, Request::SetCS(level));
    lemma_served(board, Request::SetFPGA(level));
    lemma_served(board, Request::SetTPwr(level));
    lemma_served(board, Request::SetLED(level));
}

/// Requests that transfer, query or reset leave the outputs alone.
pub proof fn lemma_outputs_untouched(board: Board, req: Request)
    requires
        req is Transmit || req is GetTPwr || req is Bootload,
    ensures
        board.after_all(effects(req)) == board,
{
    lemma_served(board, req);
}

/// Every request keeps the reception of bulk data in agreement with the
/// routing, and a mode request or a suspend request brings the two into
/// agreement whatever the board was before.
pub proof fn lemma_reception_follows_routing(board: Board, req: Request)
    ensures
        board.consistent() ==> board.after_all(effects(req)).consistent(),
        req.enters_mode() ==> board.after_all(effects(req)).consistent(),
{
    lemma_served(board, req);
}

/// Over every run of requests the reception of bulk data stays in agreement
/// with the routing once it is: from a board on which the two agree, or from
/// any board once a mode request or a suspend request has been served.
pub proof fn lemma_requests_keep_reception(board: Board, requests: Seq<Request>)
    requires
        board.consistent() || exists|i: int|
            0 <= i < requests.len() && (#[trigger] requests[i]).enters_mode(),
    ensures
        board.after_requests(requests).consistent(),
    decreases requests.len(),
{
    if requests.len() > 0 {
        let before = requests.drop_last();
        let last = requests.last();
        lemma_reception_follows_routing(board.after_requests(before), last);
        if !last.enters_mode() {
            if !board.consistent() {
                let i = choose|i: int|
                    0 <= i < requests.len() && (#[trigger] requests[i]).enters_mode();
                assert(before[i] == requests[i]);
            }
            lemma_requests_keep_reception(board, before);
        }
    }
}

/// A turn of the event loop changes the outputs only by serving a request:
/// decoding, sleeping, replying and clearing the interrupt leave them alone.
pub proof fn lemma_turn_serves(board: Board, phase: Phase, event: Event)
    ensures
        board.after_all(step(phase, event).1) == if phase is Decoding {
            match event {
                Event::Decoded(Some(req)) => board.after_all(effects(req)),
                _ => board,
            }
        } else {
            board
        },
{
    reveal_with_fuel(Board::after_all, 3);
    let actions = step(phase, event).1;
    if phase is Decoding {
        match event {
            Event::Decoded(Some(req)) => {
                if actions != effects(req) {
                    assert(actions.drop_last() == effects(req));
                }
            },
            Event::Decoded(None) => {
                assert(actions.drop_last().len() == 0);
            },
            _ => {},
        }
    } else if actions.len() == 2 {
        assert(actions.drop_last().drop_last().len() == 0);
    } else if actions.len() == 1 {
        assert(actions.drop_last().len() == 0);
    }
}

} // verus!
