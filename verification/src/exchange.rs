//! One command and its acknowledgment: the events that the link reports,
//! the actions that are asked of it, and the phases in between.

use crate::ack::{contains_ack, has_ack};
use vstd::prelude::*;

verus! {

/// Why a command was not delivered.
#[derive(Clone, Copy, Debug, PartialEq, Eq, Structural)]
pub enum TransportError {
    /// The channel rejected a write. The link is taken to be unusable.
    WriteFailure,
    /// No acknowledgment was seen within the deadline.
    Timeout,
    /// A read failed for a reason other than the channel's own timeout
    /// while the acknowledgment was awaited.
    ReadFailure,
}

/// Proof of delivery: the controller acknowledged.
#[derive(Clone, Copy, Debug, PartialEq, Eq, Structural)]
pub struct Acknowledged;

/// Where one command stands between being handed over and being settled.
#[derive(Clone, Copy, Debug, PartialEq, Eq, Structural)]
pub enum Phase {
    /// Handed over for writing, outcome of the write not yet known.
    Idle,
    /// Written; no read has come back yet.
    Sent,
    /// Polling; the last read brought no acknowledgment.
    WaitingAck,
    /// Polling again after a read that timed out locally.
    LocalRetry,
    /// Settled: the controller acknowledged.
    Acked,
    /// Settled: the deadline passed without an acknowledgment.
    TimedOut,
    /// Settled: the write was rejected.
    WriteFailed,
    /// Settled: a read failed for a reason other than the channel's own
    /// timeout.
    ReadFailed,
}

/// What the caller reports after carrying out an action.
#[derive(Debug)]
pub enum Event {
    /// The bytes were written.
    Written,
    /// The channel rejected the write.
    WriteFailed,
    /// A read returned these bytes.
    Received(Vec<u8>),
    /// A read ran into the channel's own timeout with nothing received.
    ReadTimedOut,
    /// A read failed for another reason.
    ReadFailed,
}

/// An event with its payload already judged.
#[derive(Clone, Copy, Debug, PartialEq, Eq, Structural)]
pub enum Signal {
    Written,
    WriteFailed,
    /// A read returned bytes that hold the acknowledgment token.
    AckSeen,
    /// A read returned bytes without the token.
    NoAck,
    ReadTimedOut,
    ReadFailed,
}

/// The signal that an event amounts to.
pub open spec fn signal_of(event: Event) -> Signal {
    match event {
        Event::Written => Signal::Written,
        Event::WriteFailed => Signal::WriteFailed,
        Event::Received(bytes) => if has_ack(bytes@) {
            Signal::AckSeen
        } else {
            Signal::NoAck
        },
        Event::ReadTimedOut => Signal::ReadTimedOut,
        Event::ReadFailed => Signal::ReadFailed,
    }
}

/// Judges an event: what was received is scanned for the acknowledgment
/// token, each read on its own.
pub fn classify(event: &Event) -> (signal: Signal)
    ensures
        signal == signal_of(*event),
{
    match event {
        Event::Written => Signal::Written,
        Event::WriteFailed => Signal::WriteFailed,
        Event::Received(bytes) => {
            if contains_ack(bytes.as_slice()) {
                Signal::AckSeen
            } else {
                Signal::NoAck
            }
        },
        Event::ReadTimedOut => Signal::ReadTimedOut,
        Event::ReadFailed => Signal::ReadFailed,
    }
}

/// What the caller is asked to do next.
#[derive(Debug)]
pub enum Action {
    /// Write these bytes to the channel in one piece, then report
    /// `Written` or `WriteFailed`.
    Write(Vec<u8>),
    /// Read what is available and report what came of it.
    Read,
    /// Nothing more: the call has ended with this result.
    Finish(Result<Acknowledged, TransportError>),
}

/// An action as the contracts see it.
pub enum ActionView {
    Write(Seq<u8>),
    Read,
    Finish(Result<Acknowledged, TransportError>),
}

impl View for Action {
    type V = ActionView;

    open spec fn view(&self) -> ActionView {
        match self {
            Action::Write(bytes) => ActionView::Write(bytes@),
            Action::Read => ActionView::Read,
            Action::Finish(result) => ActionView::Finish(*result),
        }
    }
}

/// The progress of one command: its phase, and the clock reading at which
/// its write was reported.
#[derive(Clone, Copy, Debug, PartialEq, Eq, Structural)]
pub struct Exchange {
    pub phase: Phase,
    pub sent_at: u64,
}

impl Exchange {
    /// The exchange of a command that was just handed over.
    pub open spec fn fresh() -> Exchange {
        Exchange { phase: Phase::Idle, sent_at: 0 }
    }

    /// More than `deadline` milliseconds have passed since the write.
    pub open spec fn overdue(self, now: u64, deadline: u64) -> bool {
        now - self.sent_at > deadline
    }

    /// The command is written and its acknowledgment is awaited.
    pub open spec fn is_polling(self) -> bool {
        self.phase is Sent || self.phase is WaitingAck || self.phase is LocalRetry
    }

    /// The command is settled, one way or another.
    pub open spec fn is_settled(self) -> bool {
        self.phase is Acked || self.phase is TimedOut || self.phase is WriteFailed
            || self.phase is ReadFailed
    }

    /// The exchange after `signal` arrived at clock reading `now`.
    ///
    /// A write that is reported moves `Idle` on. While polling, a token
    /// settles the exchange at once, whatever the clock says, and so does a
    /// failed read. A read that brought no token, or ran into the channel's
    /// own timeout, settles the exchange as timed out once the deadline has
    /// passed, and asks for another read before that. A signal that does
    /// not fit the phase changes nothing, and neither does any signal once
    /// the exchange is settled.
    pub open spec fn next(self, signal: Signal, now: u64, deadline: u64) -> Exchange {
        if self.phase is Idle {
            match signal {
                Signal::Written => Exchange { phase: Phase::Sent, sent_at: now },
                Signal::WriteFailed => Exchange { phase: Phase::WriteFailed, sent_at: self.sent_at },
                _ => self,
            }
        } else if self.is_polling() {
            match signal {
                Signal::AckSeen => Exchange { phase: Phase::Acked, sent_at: self.sent_at },
                Signal::ReadFailed => Exchange { phase: Phase::ReadFailed, sent_at: self.sent_at },
                Signal::NoAck => Exchange {
                    phase: if self.overdue(now, deadline) {
                        Phase::TimedOut
                    } else {
                        Phase::WaitingAck
                    },
                    sent_at: self.sent_at,
                },
                Signal::ReadTimedOut => Exchange {
                    phase: if self.overdue(now, deadline) {
                        Phase::TimedOut
                    } else {
                        Phase::LocalRetry
                    },
                    sent_at: self.sent_at,
                },
                _ => self,
            }
        } else {
            self
        }
    }

    /// Starts the exchange of a command that is being handed over.
    pub fn begin() -> (exchange: Exchange)
        ensures
            exchange == Exchange::fresh(),
    {
        Exchange { phase: Phase::Idle, sent_at: 0 }
    }

    /// Tells whether the deadline has passed at clock reading `now`.
    pub fn is_overdue(&self, now: u64, deadline: u64) -> (late: bool)
        ensures
            late == self.overdue(now, deadline),
    {
        now > self.sent_at && now - self.sent_at > deadline
    }

    /// Takes in one signal.
    pub fn advance(&self, signal: Signal, now: u64, deadline: u64) -> (next: Exchange)
        ensures
            next == self.next(signal, now, deadline),
    {
        match self.phase {
            Phase::Idle => match signal {
                Signal::Written => Exchange { phase: Phase::Sent, sent_at: now },
                Signal::WriteFailed => Exchange { phase: Phase::WriteFailed, sent_at: self.sent_at },
                _ => *self,
            },
            Phase::Sent | Phase::WaitingAck | Phase::LocalRetry => {
                let retry: Phase = match signal {
                    Signal::AckSeen => {
                        return Exchange { phase: Phase::Acked, sent_at: self.sent_at };
                    },
                    Signal::ReadFailed => {
                        return Exchange { phase: Phase::ReadFailed, sent_at: self.sent_at };
                    },
                    Signal::NoAck => Phase::WaitingAck,
                    Signal::ReadTimedOut => Phase::LocalRetry,
                    _ => {
                        return *self;
                    },
                };
                if self.is_overdue(now, deadline) {
                    Exchange { phase: Phase::TimedOut, sent_at: self.sent_at }
                } else {
                    Exchange { phase: retry, sent_at: self.sent_at }
                }
            },
            _ => *self,
        }
    }
}

} // verus!
