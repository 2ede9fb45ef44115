//! Whole calls: what reaches the channel over any sequence of reports.
//!
//! The laws here are stated over every sequence of signals by which a
//! caller answers the transport's actions, whatever the channel and the
//! clock do.

use crate::command::framed;
use crate::exchange::{Acknowledged, ActionView, Signal, TransportError};
use crate::shutdown::{shutdown_frames, shutdown_text, SHUTDOWN_LENGTH};
use crate::transport::{frames, lemma_next_keeps_wf, Model};
use vstd::prelude::*;

verus! {

/// One report of the caller: a signal and the clock reading it came with.
pub struct Report {
    pub signal: Signal,
    pub now: u64,
}

/// `signal` reports the outcome of `action`: a write is answered by its
/// success or failure, a read by what it brought. A finished call is not
/// answered at all.
pub open spec fn answers(action: ActionView, signal: Signal) -> bool {
    match action {
        ActionView::Write(_) => signal is Written || signal is WriteFailed,
        ActionView::Read => signal is AckSeen || signal is NoAck || signal is ReadTimedOut
            || signal is ReadFailed,
        ActionView::Finish(_) => false,
    }
}

/// The transport after it took in `reports`, one after the other.
pub open spec fn replay(m: Model, reports: Seq<Report>) -> Model
    decreases reports.len(),
{
    if reports.len() == 0 {
        m
    } else {
        replay(m, reports.drop_last()).next(reports.last().signal, reports.last().now)
    }
}

/// Every report answers the action that the transport was waiting for.
pub open spec fn in_turn(m: Model, reports: Seq<Report>) -> bool
    decreases reports.len(),
{
    reports.len() == 0 || (in_turn(m, reports.drop_last()) && answers(
        replay(m, reports.drop_last()).pending(),
        reports.last().signal,
    ))
}

/// The frame that the transport waits to have written, if any.
pub open spec fn pending_write(m: Model) -> Seq<Seq<u8>> {
    match m.pending() {
        ActionView::Write(frame) => seq![frame],
        _ => Seq::empty(),
    }
}

/// What the caller wrote to the channel while it gave `reports`: the frame
/// of every write that it answered, in order.
pub open spec fn written(m: Model, reports: Seq<Report>) -> Seq<Seq<u8>>
    decreases reports.len(),
{
    if reports.len() == 0 {
        Seq::empty()
    } else {
        written(m, reports.drop_last()) + pending_write(replay(m, reports.drop_last()))
    }
}

/// A report in turn adds to what was handed over exactly the write that is
/// asked for next, if one is.
proof fn lemma_step_in_turn(m: Model, signal: Signal, now: u64)
    requires
        m.wf(),
        answers(m.pending(), signal),
    ensures
        m.next(signal, now).wf(),
        m.next(signal, now).issued() == m.issued() + pending_write(m.next(signal, now)),
{
    let n = m.next(signal, now);
    lemma_next_keeps_wf(m, signal, now);
    if m.control.primary.phase is TimedOut {
        let before = m.control.recovery;
        let after = n.control.recovery;
        if after.done == before.done || before.done + 1 >= SHUTDOWN_LENGTH {
            assert(after.issued() == before.issued());
            assert(n.issued() =~= m.issued() + pending_write(n));
        } else {
            assert(shutdown_frames().take(after.issued()) =~= shutdown_frames().take(
                before.issued(),
            ).push(framed(shutdown_text(after.done as int))));
            assert(n.issued() =~= m.issued() + pending_write(n));
        }
    } else {
        let primary = m.control.primary.next(signal, now, m.deadline_ms);
        if primary.phase is TimedOut {
            assert(shutdown_frames().take(1) =~= seq![framed(shutdown_text(0))]);
        }
        assert(n.issued() =~= m.issued() + pending_write(n));
    }
}

/// Over reports in turn, what was handed over for writing is what the
/// caller wrote, and behind it the write that is asked for next.
pub proof fn lemma_written_is_issued(commands: Seq<Seq<u8>>, deadline_ms: u64, reports: Seq<Report>)
    requires
        commands.len() <= usize::MAX,
        in_turn(Model::start(commands, deadline_ms), reports),
    ensures
        replay(Model::start(commands, deadline_ms), reports).wf(),
        replay(Model::start(commands, deadline_ms), reports).commands == commands,
        replay(Model::start(commands, deadline_ms), reports).issued() == written(
            Model::start(commands, deadline_ms),
            reports,
        ) + pending_write(replay(Model::start(commands, deadline_ms), reports)),
    decreases reports.len(),
{
    let start = Model::start(commands, deadline_ms);
    if reports.len() == 0 {
        assert(start.issued() =~= written(start, reports) + pending_write(start));
    } else {
        let earlier = reports.drop_last();
        lemma_written_is_issued(commands, deadline_ms, earlier);
        let before = replay(start, earlier);
        lemma_step_in_turn(before, reports.last().signal, reports.last().now);
        let after = replay(start, reports);
        assert(after.issued() =~= written(start, reports) + pending_write(after));
    }
}

/// A call that ends with `Timeout` has written the run up to the command
/// that went unacknowledged and then the whole shutdown sequence, and
/// nothing else: home the axes, fan off, motors off.
pub proof fn lemma_timeout_writes_shutdown(
    commands: Seq<Seq<u8>>,
    deadline_ms: u64,
    reports: Seq<Report>,
)
    requires
        commands.len() <= usize::MAX,
        in_turn(Model::start(commands, deadline_ms), reports),
        replay(Model::start(commands, deadline_ms), reports).outcome() == Some(
            Err::<Acknowledged, TransportError>(TransportError::Timeout),
        ),
    ensures
        replay(Model::start(commands, deadline_ms), reports).control.cursor < commands.len(),
        written(Model::start(commands, deadline_ms), reports) == frames(
            commands,
            replay(Model::start(commands, deadline_ms), reports).control.cursor + 1,
        ) + shutdown_frames(),
{
    let start = Model::start(commands, deadline_ms);
    let end = replay(start, reports);
    lemma_written_is_issued(commands, deadline_ms, reports);
    assert(shutdown_frames().take(SHUTDOWN_LENGTH as int) =~= shutdown_frames());
    assert(written(start, reports) =~= end.issued());
    assert(end.issued() =~= frames(commands, end.control.cursor + 1) + shutdown_frames());
}

/// A call that ends with `WriteFailure` ended on the report of that
/// failure: the rejected write is the last thing the caller wrote. Where
/// the rejected write was a command of the run, no shutdown command was
/// written.
pub proof fn lemma_write_failure_writes_no_more(
    commands: Seq<Seq<u8>>,
    deadline_ms: u64,
    reports: Seq<Report>,
)
    requires
        commands.len() <= usize::MAX,
        in_turn(Model::start(commands, deadline_ms), reports),
        replay(Model::start(commands, deadline_ms), reports).outcome() == Some(
            Err::<Acknowledged, TransportError>(TransportError::WriteFailure),
        ),
    ensures
        reports.len() > 0,
        reports.last().signal is WriteFailed,
        pending_write(replay(Model::start(commands, deadline_ms), reports.drop_last())).len() == 1,
        written(Model::start(commands, deadline_ms), reports) == written(
            Model::start(commands, deadline_ms),
            reports.drop_last(),
        ) + pending_write(replay(Model::start(commands, deadline_ms), reports.drop_last())),
        replay(Model::start(commands, deadline_ms), reports).phase() is WriteFailed ==> written(
            Model::start(commands, deadline_ms),
            reports,
        ) == frames(
            commands,
            replay(Model::start(commands, deadline_ms), reports).control.cursor + 1,
        ),
{
    let start = Model::start(commands, deadline_ms);
    let end = replay(start, reports);
    lemma_written_is_issued(commands, deadline_ms, reports);
    if reports.len() == 0 {
        assert(end == start);
    } else {
        let before = replay(start, reports.drop_last());
        lemma_written_is_issued(commands, deadline_ms, reports.drop_last());
        assert(before.outcome() is None);
    }
    if end.phase() is WriteFailed {
        assert(written(start, reports) =~= end.issued());
        assert(end.issued() =~= frames(commands, end.control.cursor + 1));
    }
}

/// A call that ends with `ReadFailure` ended on the report of a failed
/// read, given while a command of the run was awaited. It has written the
/// run up to that command and nothing else: no shutdown command.
pub proof fn lemma_read_failure_writes_no_more(
    commands: Seq<Seq<u8>>,
    deadline_ms: u64,
    reports: Seq<Report>,
)
    requires
        commands.len() <= usize::MAX,
        in_turn(Model::start(commands, deadline_ms), reports),
        replay(Model::start(commands, deadline_ms), reports).outcome() == Some(
            Err::<Acknowledged, TransportError>(TransportError::ReadFailure),
        ),
    ensures
        reports.len() > 0,
        reports.last().signal is ReadFailed,
        replay(Model::start(commands, deadline_ms), reports.drop_last()).pending() is Read,
        replay(Model::start(commands, deadline_ms), reports).control.cursor < commands.len(),
        written(Model::start(commands, deadline_ms), reports) == frames(
            commands,
            replay(Model::start(commands, deadline_ms), reports).control.cursor + 1,
        ),
{
    let start = Model::start(commands, deadline_ms);
    let end = replay(start, reports);
    lemma_written_is_issued(commands, deadline_ms, reports);
    if reports.len() == 0 {
        assert(end == start);
    } else {
        let before = replay(start, reports.drop_last());
        lemma_written_is_issued(commands, deadline_ms, reports.drop_last());
        assert(before.outcome() is None);
    }
    assert(written(start, reports) =~= end.issued());
    assert(end.issued() =~= frames(commands, end.control.cursor + 1));
}

/// A call that ends well has written every command of the run, in order,
/// and nothing else.
pub proof fn lemma_success_writes_the_run(
    commands: Seq<Seq<u8>>,
    deadline_ms: u64,
    reports: Seq<Report>,
)
    requires
        commands.len() <= usize::MAX,
        in_turn(Model::start(commands, deadline_ms), reports),
        replay(Model::start(commands, deadline_ms), reports).outcome() == Some(
            Ok::<Acknowledged, TransportError>(Acknowledged),
        ),
    ensures
        written(Model::start(commands, deadline_ms), reports) == frames(
            commands,
            commands.len() as int,
        ),
{
    let start = Model::start(commands, deadline_ms);
    let end = replay(start, reports);
    lemma_written_is_issued(commands, deadline_ms, reports);
    assert(written(start, reports) =~= end.issued());
    assert(end.issued() =~= frames(commands, commands.len() as int));
}

} // verus!
