//! The shutdown sequence: home the axes, switch the fan off, release the
//! motors.
//!
//! The sequence is best effort. A command that goes unacknowledged, or whose
//! acknowledgment is cut short by a failed read, is given up and the next
//! one is tried; only a rejected write, after which nothing can be sent,
//! ends the sequence early. It starts from a fresh exchange, so it can
//! follow a send that failed.

use crate::command::{framed, Command};
use crate::exchange::{Acknowledged, Action, ActionView, Event, Exchange, Phase, Signal,
    TransportError, classify, signal_of};
use vstd::prelude::*;

verus! {

/// Number of commands in the shutdown sequence.
pub const SHUTDOWN_LENGTH: u8 = 3;

/// The text of the shutdown command with number `index`: `G28`, `M107`,
/// `M84`.
pub open spec fn shutdown_text(index: int) -> Seq<u8> {
    if index == 0 {
        seq!['G' as u8, '2' as u8, '8' as u8]
    } else if index == 1 {
        seq!['M' as u8, '1' as u8, '0' as u8, '7' as u8]
    } else {
        seq!['M' as u8, '8' as u8, '4' as u8]
    }
}

/// The shutdown sequence as it goes over the wire.
pub open spec fn shutdown_frames() -> Seq<Seq<u8>> {
    seq![framed(shutdown_text(0)), framed(shutdown_text(1)), framed(shutdown_text(2))]
}

/// Builds the shutdown command with number `index`.
pub fn shutdown_command(index: u8) -> (command: Command)
    requires
        index < SHUTDOWN_LENGTH,
    ensures
        command@ == shutdown_text(index as int),
{
    if index == 0 {
        Command::new(vec!['G' as u8, '2' as u8, '8' as u8])
    } else if index == 1 {
        Command::new(vec!['M' as u8, '1' as u8, '0' as u8, '7' as u8])
    } else {
        Command::new(vec!['M' as u8, '8' as u8, '4' as u8])
    }
}

/// Builds the whole shutdown sequence, in order.
pub fn shutdown_commands() -> (commands: Vec<Command>)
    ensures
        commands@.len() == SHUTDOWN_LENGTH,
        forall|i: int| 0 <= i < commands@.len() ==> (#[trigger] commands@[i])@ == shutdown_text(i),
{
    let mut commands: Vec<Command> = Vec::new();
    commands.push(shutdown_command(0));
    commands.push(shutdown_command(1));
    commands.push(shutdown_command(2));
    commands
}

/// Progress through the shutdown sequence.
#[derive(Clone, Copy, Debug, PartialEq, Eq, Structural)]
pub struct Sequencer {
    /// Number of commands that are settled, acknowledged or given up.
    pub done: u8,
    /// The exchange of the command with number `done`.
    pub exchange: Exchange,
    /// Why the first settled command that was not acknowledged was given
    /// up: `Timeout` or `ReadFailure`.
    pub failed: Option<TransportError>,
}

impl Sequencer {
    /// The sequencer before its first command is written.
    pub open spec fn fresh() -> Sequencer {
        Sequencer { done: 0, exchange: Exchange::fresh(), failed: None }
    }

    /// A sequencer in a state that it can reach: it is at most through,
    /// and the command in progress is neither acknowledged nor given up,
    /// because settling a command moves on to the next.
    pub open spec fn wf(self) -> bool {
        &&& self.done <= SHUTDOWN_LENGTH
        &&& !(self.exchange.phase is Acked)
        &&& !(self.exchange.phase is TimedOut)
        &&& !(self.exchange.phase is ReadFailed)
        &&& self.done == SHUTDOWN_LENGTH ==> self.exchange == Exchange::fresh()
        &&& self.done == 0 ==> self.failed is None
        &&& self.failed != Some(TransportError::WriteFailure)
    }

    /// How the sequence ended, if it has: with the rejected write; else,
    /// once it is through, with the error of the first command that was
    /// given up, or well if each was acknowledged.
    pub open spec fn outcome(self) -> Option<Result<Acknowledged, TransportError>> {
        if self.exchange.phase is WriteFailed {
            Some(Err(TransportError::WriteFailure))
        } else if self.done >= SHUTDOWN_LENGTH {
            match self.failed {
                Some(error) => Some(Err(error)),
                None => Some(Ok(Acknowledged)),
            }
        } else {
            None
        }
    }

    /// The record of failures after one more command was given up for
    /// `error`: the first failure stays.
    pub open spec fn noted(self, error: TransportError) -> Option<TransportError> {
        match self.failed {
            Some(first) => Some(first),
            None => Some(error),
        }
    }

    /// The sequencer after `signal` arrived at clock reading `now`.
    ///
    /// A command that is acknowledged, times out or meets a failed read is
    /// settled, and the next command starts afresh; the first timeout or
    /// failed read is kept for the outcome. A rejected write stays where it
    /// is and ends the sequence.
    pub open spec fn next(self, signal: Signal, now: u64, deadline: u64) -> Sequencer {
        if self.outcome() is Some {
            self
        } else {
            let exchange = self.exchange.next(signal, now, deadline);
            if exchange.phase is Acked {
                Sequencer {
                    done: (self.done + 1) as u8,
                    exchange: Exchange::fresh(),
                    failed: self.failed,
                }
            } else if exchange.phase is TimedOut {
                Sequencer {
                    done: (self.done + 1) as u8,
                    exchange: Exchange::fresh(),
                    failed: self.noted(TransportError::Timeout),
                }
            } else if exchange.phase is ReadFailed {
                Sequencer {
                    done: (self.done + 1) as u8,
                    exchange: Exchange::fresh(),
                    failed: self.noted(TransportError::ReadFailure),
                }
            } else {
                Sequencer { done: self.done, exchange, failed: self.failed }
            }
        }
    }

    /// What the sequencer waits for.
    pub open spec fn pending(self) -> ActionView {
        match self.outcome() {
            Some(result) => ActionView::Finish(result),
            None => if self.exchange.phase is Idle {
                ActionView::Write(framed(shutdown_text(self.done as int)))
            } else {
                ActionView::Read
            },
        }
    }

    /// Number of shutdown commands that were handed over for writing.
    pub open spec fn issued(self) -> int {
        if self.done >= SHUTDOWN_LENGTH {
            SHUTDOWN_LENGTH as int
        } else {
            self.done + 1
        }
    }

    /// Starts the sequence.
    pub fn begin() -> (sequencer: Sequencer)
        ensures
            sequencer == Sequencer::fresh(),
            sequencer.wf(),
    {
        Sequencer { done: 0, exchange: Exchange::begin(), failed: None }
    }

    /// Tells how the sequence ended, if it has.
    pub fn result(&self) -> (outcome: Option<Result<Acknowledged, TransportError>>)
        ensures
            outcome == self.outcome(),
    {
        if self.exchange.phase == Phase::WriteFailed {
            Some(Err(TransportError::WriteFailure))
        } else if self.done >= SHUTDOWN_LENGTH {
            match self.failed {
                Some(error) => Some(Err(error)),
                None => Some(Ok(Acknowledged)),
            }
        } else {
            None
        }
    }

    /// Notes that one more command was given up for `error`.
    fn note(&self, error: TransportError) -> (failed: Option<TransportError>)
        ensures
            failed == self.noted(error),
    {
        match self.failed {
            Some(first) => Some(first),
            None => Some(error),
        }
    }

    /// Takes in one signal.
    pub fn advance(&self, signal: Signal, now: u64, deadline: u64) -> (next: Sequencer)
        ensures
            next == self.next(signal, now, deadline),
            self.wf() ==> next.wf(),
    {
        if self.result().is_some() {
            return *self;
        }
        let exchange: Exchange = self.exchange.advance(signal, now, deadline);
        match exchange.phase {
            Phase::Acked => Sequencer {
                done: self.done + 1,
                exchange: Exchange::begin(),
                failed: self.failed,
            },
            Phase::TimedOut => Sequencer {
                done: self.done + 1,
                exchange: Exchange::begin(),
                failed: self.note(TransportError::Timeout),
            },
            Phase::ReadFailed => Sequencer {
                done: self.done + 1,
                exchange: Exchange::begin(),
                failed: self.note(TransportError::ReadFailure),
            },
            _ => Sequencer { done: self.done, exchange, failed: self.failed },
        }
    }

    /// Takes in what the caller reports at clock reading `now` and tells
    /// what to do next.
    pub fn step(&mut self, event: &Event, now: u64, deadline: u64) -> (action: Action)
        ensures
            *final(self) == old(self).next(signal_of(*event), now, deadline),
            action@ == final(self).pending(),
            old(self).wf() ==> final(self).wf(),
    {
        let next: Sequencer = self.advance(classify(event), now, deadline);
        *self = next;
        self.action()
    }

    /// Tells what to do next.
    pub fn action(&self) -> (action: Action)
        ensures
            action@ == self.pending(),
    {
        match self.result() {
            Some(result) => Action::Finish(result),
            None => {
                if self.exchange.phase == Phase::Idle {
                    Action::Write(shutdown_command(self.done).frame())
                } else {
                    Action::Read
                }
            },
        }
    }
}

/// A shutdown command that goes unacknowledged past the deadline is given
/// up, and the sequence goes on: the next command is handed over for
/// writing, or after the last the sequence ends with the first failure.
pub proof fn lemma_shutdown_goes_on(s: Sequencer, signal: Signal, now: u64, deadline: u64)
    requires
        s.wf(),
        s.pending() is Read,
        signal is NoAck || signal is ReadTimedOut,
        s.exchange.overdue(now, deadline),
    ensures
        s.next(signal, now, deadline).done == s.done + 1,
        s.next(signal, now, deadline).failed == s.noted(TransportError::Timeout),
        s.done + 1 < SHUTDOWN_LENGTH ==> s.next(signal, now, deadline).pending()
            == ActionView::Write(framed(shutdown_text(s.done + 1))),
        s.done + 1 == SHUTDOWN_LENGTH ==> s.next(signal, now, deadline).pending()
            == ActionView::Finish(Err(s.noted(TransportError::Timeout)->0)),
{
}

/// A failed read gives the awaited shutdown command up at once, whatever
/// the clock says, and the sequence goes on as after a timeout: no further
/// read is asked for that command.
pub proof fn lemma_shutdown_read_failure(s: Sequencer, now: u64, deadline: u64)
    requires
        s.wf(),
        s.pending() is Read,
    ensures
        s.next(Signal::ReadFailed, now, deadline).done == s.done + 1,
        s.next(Signal::ReadFailed, now, deadline).failed == s.noted(TransportError::ReadFailure),
        s.done + 1 < SHUTDOWN_LENGTH ==> s.next(Signal::ReadFailed, now, deadline).pending()
            == ActionView::Write(framed(shutdown_text(s.done + 1))),
        s.done + 1 == SHUTDOWN_LENGTH ==> s.next(Signal::ReadFailed, now, deadline).pending()
            == ActionView::Finish(Err(s.noted(TransportError::ReadFailure)->0)),
{
}

/// Before the deadline a read that brings no acknowledgment, or that runs
/// into the channel's own timeout, is answered with another read.
pub proof fn lemma_shutdown_read_is_retried(s: Sequencer, signal: Signal, now: u64, deadline: u64)
    requires
        s.wf(),
        s.pending() is Read,
        signal is NoAck || signal is ReadTimedOut,
        !s.exchange.overdue(now, deadline),
    ensures
        s.next(signal, now, deadline).pending() is Read,
        s.next(signal, now, deadline).done == s.done,
        s.next(signal, now, deadline).failed == s.failed,
{
}

/// A sequence that ended without a rejected write went through all of its
/// commands, and it ended well exactly if each was acknowledged.
pub proof fn lemma_shutdown_ends_complete(s: Sequencer)
    requires
        s.wf(),
        s.outcome() is Some,
        s.outcome() != Some(Err::<Acknowledged, TransportError>(TransportError::WriteFailure)),
    ensures
        s.done == SHUTDOWN_LENGTH,
        s.outcome() == Some(Ok::<Acknowledged, TransportError>(Acknowledged)) <==> s.failed
            is None,
{
}

} // verus!
