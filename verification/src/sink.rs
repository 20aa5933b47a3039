//! What a run of scripted calls does to a sink of bytes.
//!
//! The sink is taken as the bytes that it has accepted so far, with the number
//! of times it was flushed and closed. A write offers a buffer, of which the
//! sink accepts a prefix: at most what it is willing to take at that moment
//! (`grant`). The lemmas of this module say what every run of writes, flushes
//! and closes through a script has in common with making the calls directly.

use vstd::prelude::*;
use crate::op::{allowed_len, sized_step, unit_step, wakes, PartialOp, SizedStep, UnitStep};
use crate::script::{head_of, planned, rest_of};

verus! {

/// One call on a sink.
pub enum SinkCall {
    /// Offer `buf`; the sink takes at most `grant` bytes of it.
    Write { buf: Seq<u8>, grant: usize },
    Flush,
    Close,
}

/// A sink: what it has accepted, and how often it was flushed and closed.
pub struct Sink {
    pub accepted: Seq<u8>,
    pub flushes: nat,
    pub closes: nat,
}

/// A sink behind what is left of a script.
pub struct WriteSession {
    pub script: Seq<PartialOp>,
    pub sink: Sink,
}

/// The number of bytes that a sink accepts of `len` offered bytes when it
/// grants `grant`.
pub open spec fn taken(len: nat, grant: nat) -> nat {
    if len <= grant {
        len
    } else {
        grant
    }
}

/// The sink after a direct write that offers the first `len` bytes of `buf`.
pub open spec fn sink_write(sink: Sink, buf: Seq<u8>, len: nat, grant: nat) -> Sink
    recommends
        len <= buf.len(),
{
    Sink {
        accepted: sink.accepted + buf.subrange(0, taken(len, grant) as int),
        flushes: sink.flushes,
        closes: sink.closes,
    }
}

/// The sink after one direct call.
pub open spec fn sink_call(sink: Sink, call: SinkCall) -> Sink {
    match call {
        SinkCall::Write { buf, grant } => sink_write(sink, buf, buf.len(), grant as nat),
        SinkCall::Flush => Sink {
            accepted: sink.accepted,
            flushes: sink.flushes + 1,
            closes: sink.closes,
        },
        SinkCall::Close => Sink {
            accepted: sink.accepted,
            flushes: sink.flushes,
            closes: sink.closes + 1,
        },
    }
}

/// The sink after a run of direct calls.
pub open spec fn sink_call_all(sink: Sink, calls: Seq<SinkCall>) -> Sink
    decreases calls.len(),
{
    if calls.len() == 0 {
        sink
    } else {
        sink_call(sink_call_all(sink, calls.drop_last()), calls.last())
    }
}

/// The call that reaches the sink when `call` is made under `op`, if one does:
/// a write is cut to what the entry allows, a flush or a close goes through
/// under `Unlimited` alone.
pub open spec fn forwarded_call(op: PartialOp, call: SinkCall) -> Option<SinkCall> {
    match (op, call) {
        (PartialOp::Error(_), _) => None,
        (_, SinkCall::Write { buf, grant }) => Some(
            SinkCall::Write { buf: buf.subrange(0, allowed_len(op, buf.len()) as int), grant },
        ),
        (PartialOp::Unlimited, _) => Some(call),
        (PartialOp::Limited(_), _) => None,
    }
}

/// What one call through the script returns: the number of bytes accepted
/// (none for a flush or a close), or the kind of the planned failure.
pub open spec fn call_result(session: WriteSession, call: SinkCall) -> Result<nat, std::io::ErrorKind> {
    match (head_of(session.script), call) {
        (PartialOp::Error(kind), _) => Err(kind),
        (op, SinkCall::Write { buf, grant }) => Ok(taken(allowed_len(op, buf.len()), grant as nat)),
        _ => Ok(0),
    }
}

/// The session after one call through the script.
pub open spec fn call_once(session: WriteSession, call: SinkCall) -> WriteSession {
    WriteSession {
        script: rest_of(session.script),
        sink: match forwarded_call(head_of(session.script), call) {
            Some(direct) => sink_call(session.sink, direct),
            None => session.sink,
        },
    }
}

/// The session after a run of calls through the script.
pub open spec fn call_all(session: WriteSession, calls: Seq<SinkCall>) -> WriteSession
    decreases calls.len(),
{
    if calls.len() == 0 {
        session
    } else {
        call_once(call_all(session, calls.drop_last()), calls.last())
    }
}

/// The calls that reach the sink in a run.
pub open spec fn forwarded_calls(script: Seq<PartialOp>, calls: Seq<SinkCall>) -> Seq<SinkCall>
    decreases calls.len(),
{
    if calls.len() == 0 {
        Seq::<SinkCall>::empty()
    } else {
        let earlier = forwarded_calls(script, calls.drop_last());
        match forwarded_call(planned(script, calls.len() - 1), calls.last()) {
            Some(direct) => earlier.push(direct),
            None => earlier,
        }
    }
}

/// A write through the script does to the sink what the step decided for it
/// says: a forwarded write offers the first bytes of the buffer, as many as
/// the step's length, and a failure leaves the sink alone.
pub proof fn lemma_write_follows_step(
    session: WriteSession,
    buf: Seq<u8>,
    grant: usize,
    scheduled: bool,
)
    requires
        buf.len() <= usize::MAX,
    ensures
        ({
            let call = SinkCall::Write { buf, grant };
            match sized_step(head_of(session.script), buf.len() as usize, scheduled) {
                SizedStep::Forward { len } => {
                    &&& len <= buf.len()
                    &&& call_once(session, call).sink == sink_write(
                        session.sink,
                        buf,
                        len as nat,
                        grant as nat,
                    )
                    &&& call_result(session, call) == Ok::<nat, std::io::ErrorKind>(
                        taken(len as nat, grant as nat),
                    )
                },
                SizedStep::Fail { kind, wake } => {
                    &&& call_once(session, call).sink == session.sink
                    &&& call_result(session, call) == Err::<nat, std::io::ErrorKind>(kind)
                    &&& wake == wakes(kind, scheduled)
                },
            }
        }),
{
    let op = head_of(session.script);
    let len = allowed_len(op, buf.len());
    let cut = buf.subrange(0, len as int);
    assert(cut.subrange(0, taken(len, grant as nat) as int) =~= buf.subrange(
        0,
        taken(len, grant as nat) as int,
    ));
}

/// A flush or a close through the script does what the step decided for it
/// says: forwarded, it is the direct call; skipped, it succeeds and leaves the
/// sink alone; failed, it leaves the sink alone and returns the planned kind.
pub proof fn lemma_unit_follows_step(session: WriteSession, call: SinkCall, scheduled: bool)
    requires
        call is Flush || call is Close,
    ensures
        match unit_step(head_of(session.script), scheduled) {
            UnitStep::Forward => {
                &&& call_once(session, call).sink == sink_call(session.sink, call)
                &&& call_result(session, call) is Ok
            },
            UnitStep::Skip => {
                &&& call_once(session, call).sink == session.sink
                &&& call_result(session, call) is Ok
            },
            UnitStep::Fail { kind, wake } => {
                &&& call_once(session, call).sink == session.sink
                &&& call_result(session, call) == Err::<nat, std::io::ErrorKind>(kind)
                &&& wake == wakes(kind, scheduled)
            },
        },
{
}

/// Under `Limited(n)` a write accepts bytes from the first `n` of the buffer
/// and no others; it accepts exactly the lesser of `n` and the buffer's
/// length where the sink takes that many.
pub proof fn lemma_limited_write(session: WriteSession, buf: Seq<u8>, grant: usize, n: usize)
    requires
        head_of(session.script) == PartialOp::Limited(n),
    ensures
        ({
            let call = SinkCall::Write { buf, grant };
            let bound = if n <= buf.len() { n as nat } else { buf.len() };
            let after = call_once(session, call).sink;
            &&& call_result(session, call) matches Ok(count) && count <= bound
                && after.accepted == session.sink.accepted + buf.subrange(0, count as int)
            &&& bound <= grant ==> call_result(session, call) == Ok::<nat, std::io::ErrorKind>(
                bound,
            )
        }),
{
    let bound = if n <= buf.len() { n as nat } else { buf.len() };
    let cut = buf.subrange(0, bound as int);
    assert(cut.subrange(0, taken(bound, grant as nat) as int) =~= buf.subrange(
        0,
        taken(bound, grant as nat) as int,
    ));
}

/// A planned failure comes back with its own kind, whatever the call, and
/// nothing reaches the sink.
pub proof fn lemma_failed_call(session: WriteSession, call: SinkCall, kind: std::io::ErrorKind)
    requires
        head_of(session.script) == PartialOp::Error(kind),
    ensures
        call_result(session, call) == Err::<nat, std::io::ErrorKind>(kind),
        call_once(session, call).sink == session.sink,
        call_once(session, call).script == rest_of(session.script),
{
}

/// Entries are consumed in the order in which the script holds them, one per
/// call, whether the call is a write, a flush or a close.
pub proof fn lemma_calls_run_in_order(session: WriteSession, calls: Seq<SinkCall>)
    ensures
        call_all(session, calls).script == if calls.len() <= session.script.len() {
            session.script.subrange(calls.len() as int, session.script.len() as int)
        } else {
            Seq::<PartialOp>::empty()
        },
        head_of(call_all(session, calls).script) == planned(session.script, calls.len() as int),
    decreases calls.len(),
{
    if calls.len() > 0 {
        lemma_calls_run_in_order(session, calls.drop_last());
        let before = call_all(session, calls.drop_last()).script;
        let expected = if calls.len() <= session.script.len() {
            session.script.subrange(calls.len() as int, session.script.len() as int)
        } else {
            Seq::<PartialOp>::empty()
        };
        assert(rest_of(before) =~= expected);
    } else {
        assert(session.script.subrange(0, session.script.len() as int) =~= session.script);
    }
}

/// Once the script has run out, every run of calls through the wrapper leaves
/// the sink as the same run of direct calls would, and returns what they
/// would.
pub proof fn lemma_exhausted_script_passes_through(session: WriteSession, calls: Seq<SinkCall>)
    requires
        session.script.len() == 0,
    ensures
        call_all(session, calls).script.len() == 0,
        call_all(session, calls).sink == sink_call_all(session.sink, calls),
        forall|call: SinkCall| #[trigger]
            call_result(call_all(session, calls), call) == match call {
                SinkCall::Write { buf, grant } => Ok::<nat, std::io::ErrorKind>(
                    taken(buf.len(), grant as nat),
                ),
                _ => Ok::<nat, std::io::ErrorKind>(0),
            },
    decreases calls.len(),
{
    if calls.len() > 0 {
        lemma_exhausted_script_passes_through(session, calls.drop_last());
        match calls.last() {
            SinkCall::Write { buf, grant } => {
                assert(buf.subrange(0, buf.len() as int) =~= buf);
            },
            _ => {},
        }
    }
}

/// The sink that a wrapper gives back is the sink after the forwarded calls
/// alone, made directly: what the script withheld never reached it.
pub proof fn lemma_unwrapped_sink(session: WriteSession, calls: Seq<SinkCall>)
    ensures
        call_all(session, calls).sink == sink_call_all(
            session.sink,
            forwarded_calls(session.script, calls),
        ),
    decreases calls.len(),
{
    if calls.len() > 0 {
        let earlier = calls.drop_last();
        lemma_unwrapped_sink(session, earlier);
        lemma_calls_run_in_order(session, earlier);
        let direct = forwarded_calls(session.script, earlier);
        match forwarded_call(planned(session.script, calls.len() - 1), calls.last()) {
            Some(call) => {
                assert(direct.push(call).drop_last() =~= direct);
                assert(direct.push(call).last() == call);
            },
            None => {},
        }
    }
}

} // verus!
