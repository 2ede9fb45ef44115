//! Delivery of a run of commands: one command at a time, each awaited
//! until it is acknowledged, with the shutdown sequence on a timeout.
//!
//! The transport is a state machine. It never touches the channel or the
//! clock: it hands out one action at a time, and the caller carries the
//! action out and reports what happened together with a reading of a
//! monotonic millisecond clock.

use crate::command::{framed, Command};
use crate::exchange::{Acknowledged, Action, ActionView, Event, Exchange, Phase, Signal,
    TransportError, classify, signal_of};
use crate::shutdown::{shutdown_frames, Sequencer, SHUTDOWN_LENGTH};
use vstd::prelude::*;

verus! {

/// The part of a transport's state that changes from step to step.
#[derive(Clone, Copy, Debug, PartialEq, Eq, Structural)]
pub struct Control {
    /// Number of commands of the run that were acknowledged.
    pub cursor: usize,
    /// The exchange of the command with number `cursor`.
    pub primary: Exchange,
    /// The shutdown sequence that follows a timeout of that command.
    pub recovery: Sequencer,
}

/// The frames of the first `count` commands of a run.
pub open spec fn frames(commands: Seq<Seq<u8>>, count: int) -> Seq<Seq<u8>> {
    Seq::new(count as nat, |i: int| framed(commands[i]))
}

/// A transport as the contracts see it.
pub struct Model {
    /// The texts of the run's commands, in sending order.
    pub commands: Seq<Seq<u8>>,
    /// Time allowed for each acknowledgment, in milliseconds.
    pub deadline_ms: u64,
    pub control: Control,
}

impl Model {
    /// The transport of a run before anything was reported.
    pub open spec fn start(commands: Seq<Seq<u8>>, deadline_ms: u64) -> Model {
        Model {
            commands,
            deadline_ms,
            control: Control {
                cursor: 0,
                primary: Exchange::fresh(),
                recovery: Sequencer::fresh(),
            },
        }
    }

    /// A transport in a state that it can reach, over a run that fits in
    /// memory.
    pub open spec fn wf(self) -> bool {
        &&& self.commands.len() <= usize::MAX
        &&& self.control.cursor <= self.commands.len()
        &&& self.control.recovery.wf()
        &&& !(self.control.primary.phase is Acked)
        &&& self.control.cursor == self.commands.len() ==> self.control.primary
            == Exchange::fresh()
        &&& !(self.control.primary.phase is TimedOut) ==> self.control.recovery
            == Sequencer::fresh()
    }

    /// How the run ended, if it has.
    ///
    /// It ends well once every command is acknowledged. A rejected write
    /// ends it at once with `WriteFailure`, also when the write belonged to
    /// the shutdown sequence. A failed read while a command of the run is
    /// awaited ends it at once with `ReadFailure`; no shutdown follows. A
    /// command that timed out ends it with `Timeout`, but not before the
    /// shutdown sequence is through; what goes wrong with the reads of the
    /// shutdown sequence does not change that.
    pub open spec fn outcome(self) -> Option<Result<Acknowledged, TransportError>> {
        if self.control.cursor >= self.commands.len() {
            Some(Ok(Acknowledged))
        } else if self.control.primary.phase is WriteFailed {
            Some(Err(TransportError::WriteFailure))
        } else if self.control.primary.phase is ReadFailed {
            Some(Err(TransportError::ReadFailure))
        } else if self.control.primary.phase is TimedOut {
            match self.control.recovery.outcome() {
                Some(Err(TransportError::WriteFailure)) => Some(Err(TransportError::WriteFailure)),
                Some(_) => Some(Err(TransportError::Timeout)),
                None => None,
            }
        } else {
            None
        }
    }

    /// The phase of the command in progress; `Acked` once the run is
    /// delivered.
    pub open spec fn phase(self) -> Phase {
        if self.control.cursor >= self.commands.len() {
            Phase::Acked
        } else {
            self.control.primary.phase
        }
    }

    /// The transport after `signal` arrived at clock reading `now`.
    ///
    /// An acknowledgment moves on to the next command. A timeout starts the
    /// shutdown sequence, which then takes the signals. A rejected write or
    /// a failed read ends the run, and a run that has ended stays as it is.
    pub open spec fn next(self, signal: Signal, now: u64) -> Model {
        if self.outcome() is Some {
            self
        } else if self.control.primary.phase is TimedOut {
            Model {
                control: Control {
                    recovery: self.control.recovery.next(signal, now, self.deadline_ms),
                    ..self.control
                },
                ..self
            }
        } else {
            let primary = self.control.primary.next(signal, now, self.deadline_ms);
            if primary.phase is Acked {
                Model {
                    control: Control {
                        cursor: (self.control.cursor + 1) as usize,
                        primary: Exchange::fresh(),
                        recovery: self.control.recovery,
                    },
                    ..self
                }
            } else {
                Model { control: Control { primary, ..self.control }, ..self }
            }
        }
    }

    /// What the transport waits for.
    pub open spec fn pending(self) -> ActionView {
        match self.outcome() {
            Some(result) => ActionView::Finish(result),
            None => if self.control.primary.phase is TimedOut {
                self.control.recovery.pending()
            } else if self.control.primary.phase is Idle {
                ActionView::Write(framed(self.commands[self.control.cursor as int]))
            } else {
                ActionView::Read
            },
        }
    }

    /// Everything that was handed over for writing so far, in order: the
    /// run's commands up to the one in progress, and after a timeout the
    /// shutdown commands up to the one in progress.
    pub open spec fn issued(self) -> Seq<Seq<u8>> {
        let reached = if self.control.cursor < self.commands.len() {
            self.control.cursor + 1
        } else {
            self.commands.len() as int
        };
        let own = frames(self.commands, reached);
        if self.control.cursor < self.commands.len() && self.control.primary.phase is TimedOut {
            own + shutdown_frames().take(self.control.recovery.issued())
        } else {
            own
        }
    }
}

impl Model {
    /// The exchange that takes the next signal: that of the shutdown
    /// command in progress after a timeout, else that of the run's command
    /// in progress.
    pub open spec fn current(self) -> Exchange {
        if self.control.primary.phase is TimedOut {
            self.control.recovery.exchange
        } else {
            self.control.primary
        }
    }
}

/// A transport starts in a reachable state, with its first command handed
/// over for writing and nothing else; an empty run has ended before it
/// began.
pub proof fn lemma_start(commands: Seq<Seq<u8>>, deadline_ms: u64)
    requires
        commands.len() <= usize::MAX,
    ensures
        Model::start(commands, deadline_ms).wf(),
        commands.len() > 0 ==> {
            &&& Model::start(commands, deadline_ms).pending() == ActionView::Write(
                framed(commands[0]),
            )
            &&& Model::start(commands, deadline_ms).issued() == seq![framed(commands[0])]
        },
        commands.len() == 0 ==> {
            &&& Model::start(commands, deadline_ms).pending() == ActionView::Finish(
                Ok(Acknowledged),
            )
            &&& Model::start(commands, deadline_ms).issued() == Seq::<Seq<u8>>::empty()
        },
{
    let m = Model::start(commands, deadline_ms);
    if commands.len() > 0 {
        assert(m.issued() =~= seq![framed(commands[0])]);
    } else {
        assert(m.issued() =~= Seq::<Seq<u8>>::empty());
    }
}

/// Every step leads from a reachable state to a reachable state.
pub proof fn lemma_next_keeps_wf(m: Model, signal: Signal, now: u64)
    requires
        m.wf(),
    ensures
        m.next(signal, now).wf(),
{
}

/// A step hands over at most one more write, and that write is the action
/// it asks for: nothing reaches the channel that is not in `issued`.
pub proof fn lemma_issued_follows_writes(m: Model, signal: Signal, now: u64)
    requires
        m.wf(),
    ensures
        m.next(signal, now).issued() == m.issued() || (m.next(signal, now).pending()
            matches ActionView::Write(frame) && m.next(signal, now).issued() == m.issued().push(
            frame,
        )),
{
    let n = m.next(signal, now);
    if m.outcome() is Some {
    } else if m.control.primary.phase is TimedOut {
        let before = m.control.recovery;
        let after = n.control.recovery;
        if after.done == before.done || before.done + 1 >= SHUTDOWN_LENGTH {
            assert(after.issued() == before.issued());
        } else {
            assert(shutdown_frames().take(after.issued()) =~= shutdown_frames().take(
                before.issued(),
            ).push(framed(crate::shutdown::shutdown_text(after.done as int))));
            assert(n.issued() =~= m.issued().push(
                framed(crate::shutdown::shutdown_text(after.done as int)),
            ));
        }
    } else {
        let primary = m.control.primary.next(signal, now, m.deadline_ms);
        if primary.phase is Acked {
            if m.control.cursor + 1 < m.commands.len() {
                assert(n.issued() =~= m.issued().push(framed(m.commands[m.control.cursor + 1])));
            } else {
                assert(n.issued() =~= m.issued());
            }
        } else if primary.phase is TimedOut {
            assert(shutdown_frames().take(1) =~= seq![framed(crate::shutdown::shutdown_text(0))]);
            assert(n.issued() =~= m.issued().push(framed(crate::shutdown::shutdown_text(0))));
        } else {
            assert(n.issued() =~= m.issued());
        }
    }
}

/// A run ends with `Timeout` only after the whole shutdown sequence was
/// handed over for writing, behind the command that timed out: home the
/// axes, fan off, motors off.
pub proof fn lemma_timeout_follows_shutdown(m: Model)
    requires
        m.wf(),
        m.outcome() == Some(Err::<Acknowledged, TransportError>(TransportError::Timeout)),
    ensures
        m.phase() is TimedOut,
        m.control.cursor < m.commands.len(),
        m.issued() == frames(m.commands, m.control.cursor + 1) + shutdown_frames(),
{
    assert(shutdown_frames().take(SHUTDOWN_LENGTH as int) =~= shutdown_frames());
}

/// A run that has ended stays ended: no signal changes it, and all it
/// asks for is to finish with its result.
pub proof fn lemma_ended_run_stays(m: Model, signal: Signal, now: u64)
    requires
        m.outcome() is Some,
    ensures
        m.next(signal, now) == m,
        m.pending() == ActionView::Finish(m.outcome().unwrap()),
{
}

/// A rejected write ends the run at once with `WriteFailure`, and nothing
/// further is handed over for writing: neither the rest of the run nor a
/// shutdown command.
pub proof fn lemma_write_failure_ends_run(m: Model, now: u64)
    requires
        m.wf(),
        m.pending() is Write,
    ensures
        m.next(Signal::WriteFailed, now).outcome() == Some(
            Err::<Acknowledged, TransportError>(TransportError::WriteFailure),
        ),
        m.next(Signal::WriteFailed, now).issued() == m.issued(),
{
    let n = m.next(Signal::WriteFailed, now);
    assert(n.issued() =~= m.issued());
}

/// Before the deadline a read that brings no acknowledgment, or that runs
/// into the channel's own timeout, is answered with another read and ends
/// nothing.
pub proof fn lemma_read_is_retried(m: Model, signal: Signal, now: u64)
    requires
        m.wf(),
        m.pending() is Read,
        signal is NoAck || signal is ReadTimedOut,
        !m.current().overdue(now, m.deadline_ms),
    ensures
        m.next(signal, now).pending() is Read,
        m.next(signal, now).outcome() is None,
        m.next(signal, now).issued() == m.issued(),
        signal is ReadTimedOut ==> m.next(signal, now).current().phase is LocalRetry,
{
    let n = m.next(signal, now);
    assert(n.issued() =~= m.issued());
}

/// An acknowledgment settles the awaited command of the run whatever the
/// clock says, also past the deadline.
pub proof fn lemma_ack_delivers(m: Model, now: u64)
    requires
        m.wf(),
        m.pending() is Read,
        !(m.control.primary.phase is TimedOut),
    ensures
        m.next(Signal::AckSeen, now).control.cursor == m.control.cursor + 1,
        m.control.cursor + 1 == m.commands.len() ==> m.next(Signal::AckSeen, now).outcome()
            == Some(Ok::<Acknowledged, TransportError>(Acknowledged)),
{
}

/// A failed read while a command of the run is awaited ends the run at once
/// with `ReadFailure`, before the deadline and after it: no further read is
/// asked for, and nothing further is handed over for writing, neither the
/// rest of the run nor a shutdown command.
pub proof fn lemma_read_failure_ends_run(m: Model, now: u64)
    requires
        m.wf(),
        m.pending() is Read,
        !(m.control.primary.phase is TimedOut),
    ensures
        m.next(Signal::ReadFailed, now).outcome() == Some(
            Err::<Acknowledged, TransportError>(TransportError::ReadFailure),
        ),
        m.next(Signal::ReadFailed, now).pending() == ActionView::Finish(
            Err(TransportError::ReadFailure),
        ),
        m.next(Signal::ReadFailed, now).phase() is ReadFailed,
        m.next(Signal::ReadFailed, now).issued() == m.issued(),
{
    let n = m.next(Signal::ReadFailed, now);
    assert(n.issued() =~= m.issued());
}

/// A failed read while a shutdown command is awaited gives that command
/// up and the shutdown sequence goes on with the next; the run still ends
/// with `Timeout`, for the command that brought the shutdown about.
pub proof fn lemma_read_failure_in_shutdown(m: Model, now: u64)
    requires
        m.wf(),
        m.pending() is Read,
        m.control.primary.phase is TimedOut,
    ensures
        m.next(Signal::ReadFailed, now).control.recovery.done == m.control.recovery.done + 1,
        m.control.recovery.done + 1 < SHUTDOWN_LENGTH ==> m.next(Signal::ReadFailed, now).pending()
            == ActionView::Write(shutdown_frames()[m.control.recovery.done + 1]),
        m.control.recovery.done + 1 == SHUTDOWN_LENGTH ==> m.next(
            Signal::ReadFailed,
            now,
        ).pending() == ActionView::Finish(Err(TransportError::Timeout)),
{
}

/// Once the deadline has passed, a read without an acknowledgment times the
/// run's command out and the first shutdown command is handed over.
pub proof fn lemma_deadline_starts_shutdown(m: Model, signal: Signal, now: u64)
    requires
        m.wf(),
        m.pending() is Read,
        !(m.control.primary.phase is TimedOut),
        signal is NoAck || signal is ReadTimedOut,
        m.current().overdue(now, m.deadline_ms),
    ensures
        m.next(signal, now).phase() is TimedOut,
        m.next(signal, now).outcome() is None,
        m.next(signal, now).pending() == ActionView::Write(shutdown_frames()[0]),
{
}

/// The texts of a sequence of commands.
pub open spec fn texts(commands: Seq<Command>) -> Seq<Seq<u8>> {
    Seq::new(commands.len(), |i: int| commands[i]@)
}

/// The sender's side of the link for one run of commands.
#[derive(Debug)]
pub struct Transport {
    commands: Vec<Command>,
    deadline_ms: u64,
    control: Control,
}

impl View for Transport {
    type V = Model;

    closed spec fn view(&self) -> Model {
        Model {
            commands: texts(self.commands@),
            deadline_ms: self.deadline_ms,
            control: self.control,
        }
    }
}

impl Transport {
    /// Sets up the delivery of a single command.
    pub fn send(command: Command, deadline_ms: u64) -> (transport: Transport)
        ensures
            transport@ == Model::start(seq![command@], deadline_ms),
            transport@.wf(),
    {
        let mut commands: Vec<Command> = Vec::new();
        commands.push(command);
        proof {
            assert(texts(commands@) =~= seq![command@]);
        }
        Transport::stream(commands, deadline_ms)
    }

    /// Sets up the delivery of a run of commands, in order.
    pub fn stream(commands: Vec<Command>, deadline_ms: u64) -> (transport: Transport)
        ensures
            transport@ == Model::start(texts(commands@), deadline_ms),
            transport@.wf(),
    {
        proof {
            assert(commands@.len() == commands.len());
        }
        Transport {
            commands,
            deadline_ms,
            control: Control {
                cursor: 0,
                primary: Exchange::begin(),
                recovery: Sequencer::begin(),
            },
        }
    }

    /// Tells how the run ended, if it has.
    pub fn outcome(&self) -> (outcome: Option<Result<Acknowledged, TransportError>>)
        ensures
            outcome == self@.outcome(),
    {
        if self.control.cursor >= self.commands.len() {
            Some(Ok(Acknowledged))
        } else if self.control.primary.phase == Phase::WriteFailed {
            Some(Err(TransportError::WriteFailure))
        } else if self.control.primary.phase == Phase::ReadFailed {
            Some(Err(TransportError::ReadFailure))
        } else if self.control.primary.phase == Phase::TimedOut {
            match self.control.recovery.result() {
                Some(Err(TransportError::WriteFailure)) => Some(Err(TransportError::WriteFailure)),
                Some(_) => Some(Err(TransportError::Timeout)),
                None => None,
            }
        } else {
            None
        }
    }

    /// The phase of the command in progress.
    pub fn phase(&self) -> (phase: Phase)
        ensures
            phase == self@.phase(),
    {
        if self.control.cursor >= self.commands.len() {
            Phase::Acked
        } else {
            self.control.primary.phase
        }
    }

    /// Number of commands of the run that were acknowledged.
    pub fn delivered(&self) -> (count: usize)
        ensures
            count == self@.control.cursor,
    {
        self.control.cursor
    }

    /// Tells what to do next.
    pub fn action(&self) -> (action: Action)
        ensures
            action@ == self@.pending(),
    {
        match self.outcome() {
            Some(result) => Action::Finish(result),
            None => {
                if self.control.primary.phase == Phase::TimedOut {
                    self.control.recovery.action()
                } else if self.control.primary.phase == Phase::Idle {
                    Action::Write(self.commands[self.control.cursor].frame())
                } else {
                    Action::Read
                }
            },
        }
    }

    /// Takes in what the caller reports at clock reading `now_ms` and tells
    /// what to do next.
    pub fn step(&mut self, event: &Event, now_ms: u64) -> (action: Action)
        ensures
            final(self)@ == old(self)@.next(signal_of(*event), now_ms),
            action@ == final(self)@.pending(),
            old(self)@.wf() ==> final(self)@.wf(),
    {
        let signal: Signal = classify(event);
        if self.outcome().is_none() {
            assert(self.control.cursor < self.commands.len()) by {
                assert(self@.commands.len() == self.commands.len());
            }
            if self.control.primary.phase == Phase::TimedOut {
                self.control.recovery = self.control.recovery.advance(
                    signal,
                    now_ms,
                    self.deadline_ms,
                );
            } else {
                let primary: Exchange = self.control.primary.advance(
                    signal,
                    now_ms,
                    self.deadline_ms,
                );
                if primary.phase == Phase::Acked {
                    self.control.cursor = self.control.cursor + 1;
                    self.control.primary = Exchange::begin();
                } else {
                    self.control.primary = primary;
                }
            }
        }
        self.action()
    }
}

} // verus!
