//! The outbound pump's rule. The pump owns a connection's write half and
//! drains its channel; the caller performs each action and reports what
//! happened next.
use vstd::prelude::*;

verus! {

/// What the pump observes.
pub enum PumpEvent {
    /// The next frame came out of the channel.
    Queued(String),
    /// Every handle of the channel is gone.
    ChannelClosed,
    /// Writing the last frame to the stream failed.
    WriteFailed,
}

/// What the pump does next.
pub enum PumpAction {
    /// Write this frame to the stream.
    Write(String),
    /// Flush and close the stream, then exit.
    CloseStream,
    /// Exit without touching the stream again.
    Stop,
}

#[derive(Clone, Copy, Debug, PartialEq, Eq, Structural)]
pub enum PumpState {
    Running,
    Finished,
}

/// One connection's pump. Frames are written one at a time, in the order
/// they were queued; a broken stream ends the pump rather than the process.
pub struct Pump {
    state: PumpState,
}

impl View for Pump {
    type V = PumpState;

    closed spec fn view(&self) -> PumpState {
        self.state
    }
}

impl Pump {
    /// A pump that has not yet seen any event.
    pub fn new() -> (r: Pump)
        ensures
            r@ == PumpState::Running,
    {
        Pump { state: PumpState::Running }
    }

    /// Whether the pump still runs.
    pub fn state(&self) -> (r: PumpState)
        ensures
            r == self@,
    {
        self.state
    }

    /// Decides the next action. A running pump writes each queued frame as
    /// it comes, closes the stream once the channel is closed, and stops
    /// after a failed write; a finished pump only stops.
    pub fn on_event(&mut self, event: PumpEvent) -> (r: PumpAction)
        ensures
            old(self)@ == PumpState::Finished ==> r is Stop && final(self)@ == PumpState::Finished,
            old(self)@ == PumpState::Running ==> match event {
                PumpEvent::Queued(f) => r == PumpAction::Write(f) && final(self)@ == PumpState::Running,
                PumpEvent::ChannelClosed => r is CloseStream && final(self)@ == PumpState::Finished,
                PumpEvent::WriteFailed => r is Stop && final(self)@ == PumpState::Finished,
            },
    {
        if self.state == PumpState::Finished {
            return PumpAction::Stop;
        }
        match event {
            PumpEvent::Queued(f) => PumpAction::Write(f),
            PumpEvent::ChannelClosed => {
                self.state = PumpState::Finished;
                PumpAction::CloseStream
            },
            PumpEvent::WriteFailed => {
                self.state = PumpState::Finished;
                PumpAction::Stop
            },
        }
    }
}

} // verus!
