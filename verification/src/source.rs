//! What a run of scripted reads does to a source of bytes.
//!
//! The source is taken as the bytes that it has not given out yet. A read of
//! `len` bytes gives out a prefix of them: at most `len`, and at most what
//! the source is willing to give at that moment (`grant`). A session is such
//! a source behind a script. The lemmas of this module say what every run of
//! reads through a script has in common with reading the source directly.

use vstd::prelude::*;
use crate::op::{allowed_len, sized_step, wakes, PartialOp, SizedStep};
use crate::script::{head_of, planned, rest_of};

verus! {

/// One read as the two sides see it: the length of the caller's buffer, and
/// the most that the source gives at this call.
pub struct ReadCall {
    pub len: usize,
    pub grant: usize,
}

/// A source of bytes: those already given out, and those still to come.
pub struct Source {
    pub delivered: Seq<u8>,
    pub unread: Seq<u8>,
}

/// A source behind what is left of a script.
pub struct ReadSession {
    pub script: Seq<PartialOp>,
    pub source: Source,
}

/// The number of bytes that a source with `available` unread bytes returns
/// for a read of `len` bytes at which it grants `grant`.
pub open spec fn served(len: nat, grant: nat, available: nat) -> nat {
    let wanted = if len <= grant { len } else { grant };
    if wanted <= available { wanted } else { available }
}

/// The source after one direct read of `len` bytes.
pub open spec fn source_read(source: Source, len: nat, grant: nat) -> Source {
    let count = served(len, grant, source.unread.len()) as int;
    Source {
        delivered: source.delivered + source.unread.subrange(0, count),
        unread: source.unread.subrange(count, source.unread.len() as int),
    }
}

/// The source after a run of direct reads.
pub open spec fn source_read_all(source: Source, calls: Seq<ReadCall>) -> Source
    decreases calls.len(),
{
    if calls.len() == 0 {
        source
    } else {
        let before = source_read_all(source, calls.drop_last());
        source_read(before, calls.last().len as nat, calls.last().grant as nat)
    }
}

/// What one read through the script returns: the number of bytes read, or
/// the kind of the planned failure.
pub open spec fn read_result(session: ReadSession, call: ReadCall) -> Result<nat, std::io::ErrorKind> {
    match head_of(session.script) {
        PartialOp::Error(kind) => Err(kind),
        op => Ok(served(allowed_len(op, call.len as nat), call.grant as nat, session.source.unread.len())),
    }
}

/// The session after one read through the script.
pub open spec fn read_once(session: ReadSession, call: ReadCall) -> ReadSession {
    let op = head_of(session.script);
    ReadSession {
        script: rest_of(session.script),
        source: match op {
            PartialOp::Error(_) => session.source,
            _ => source_read(session.source, allowed_len(op, call.len as nat), call.grant as nat),
        },
    }
}

/// The session after a run of reads through the script.
pub open spec fn read_all(session: ReadSession, calls: Seq<ReadCall>) -> ReadSession
    decreases calls.len(),
{
    if calls.len() == 0 {
        session
    } else {
        read_once(read_all(session, calls.drop_last()), calls.last())
    }
}

/// A read through the script does to the source what the step decided for it
/// says: a forwarded read is one direct read of the step's length, and a
/// failure leaves the source alone.
pub proof fn lemma_read_follows_step(session: ReadSession, call: ReadCall, scheduled: bool)
    ensures
        match sized_step(head_of(session.script), call.len, scheduled) {
            SizedStep::Forward { len } => {
                &&& read_once(session, call).source == source_read(session.source, len as nat, call.grant as nat)
                &&& read_result(session, call) == Ok::<nat, std::io::ErrorKind>(
                    served(len as nat, call.grant as nat, session.source.unread.len()),
                )
            },
            SizedStep::Fail { kind, wake } => {
                &&& read_once(session, call).source == session.source
                &&& read_result(session, call) == Err::<nat, std::io::ErrorKind>(kind)
                &&& wake == wakes(kind, scheduled)
            },
        },
{
}

/// The session in which call `i` of a run takes place.
pub open spec fn session_at(session: ReadSession, calls: Seq<ReadCall>, i: int) -> ReadSession
    recommends
        0 <= i <= calls.len(),
{
    read_all(session, calls.subrange(0, i))
}

/// Entries are consumed in the order in which the script holds them, one per
/// call, whatever the calls ask for and whatever the source gives.
pub proof fn lemma_script_runs_in_order(session: ReadSession, calls: Seq<ReadCall>)
    ensures
        read_all(session, calls).script == if calls.len() <= session.script.len() {
            session.script.subrange(calls.len() as int, session.script.len() as int)
        } else {
            Seq::<PartialOp>::empty()
        },
        head_of(read_all(session, calls).script) == planned(session.script, calls.len() as int),
    decreases calls.len(),
{
    if calls.len() > 0 {
        lemma_script_runs_in_order(session, calls.drop_last());
        let before = read_all(session, calls.drop_last()).script;
        let expected = if calls.len() <= session.script.len() {
            session.script.subrange(calls.len() as int, session.script.len() as int)
        } else {
            Seq::<PartialOp>::empty()
        };
        assert(rest_of(before) =~= expected);
    } else {
        assert(session.script.subrange(0, session.script.len() as int) =~= session.script);
    }
}

/// No read duplicates, drops or reorders a byte: what has been delivered,
/// followed by what is unread, is always the same sequence, and the unread
/// part only shrinks.
pub proof fn lemma_reads_keep_the_bytes(session: ReadSession, calls: Seq<ReadCall>)
    ensures
        ({
            let after = read_all(session, calls).source;
            &&& after.delivered + after.unread == session.source.delivered + session.source.unread
            &&& after.unread.len() <= session.source.unread.len()
        }),
    decreases calls.len(),
{
    if calls.len() > 0 {
        lemma_reads_keep_the_bytes(session, calls.drop_last());
        let before = read_all(session, calls.drop_last());
        let after = read_once(before, calls.last());
        assert(after.source.delivered + after.source.unread =~= before.source.delivered
            + before.source.unread);
    }
}

/// Reading until the source has nothing left yields exactly the bytes that it
/// held, in their order, whatever the script and the buffers were.
pub proof fn lemma_exhausted_source_was_read_whole(session: ReadSession, calls: Seq<ReadCall>)
    requires
        read_all(session, calls).source.unread.len() == 0,
    ensures
        read_all(session, calls).source.delivered == session.source.delivered
            + session.source.unread,
{
    lemma_reads_keep_the_bytes(session, calls);
    let after = read_all(session, calls).source;
    assert(after.delivered + after.unread =~= after.delivered);
}

/// With buffers that hold all of the source and a source that gives what is
/// asked of it, one read more than the script has entries exhausts both.
pub proof fn lemma_reads_drain_the_source(session: ReadSession, calls: Seq<ReadCall>)
    requires
        calls.len() > session.script.len(),
        forall|i: int|
            0 <= i < calls.len() ==> (#[trigger] calls[i]).len >= session.source.unread.len()
                && calls[i].grant >= session.source.unread.len(),
    ensures
        read_all(session, calls).script.len() == 0,
        read_all(session, calls).source.unread.len() == 0,
        read_all(session, calls).source.delivered == session.source.delivered
            + session.source.unread,
    decreases calls.len(),
{
    let earlier = calls.drop_last();
    let before = read_all(session, earlier);
    lemma_script_runs_in_order(session, earlier);
    lemma_script_runs_in_order(session, calls);
    lemma_reads_keep_the_bytes(session, earlier);
    if earlier.len() > session.script.len() {
        lemma_reads_drain_the_source(session, earlier);
    }
    lemma_exhausted_source_was_read_whole(session, calls);
}

/// Under `Limited(n)` a read of `len` bytes touches the lesser of the two and
/// no more; it returns exactly that many bytes, the next ones of the source,
/// where the source has them and gives them.
pub proof fn lemma_limited_read(session: ReadSession, call: ReadCall, n: usize)
    requires
        head_of(session.script) == PartialOp::Limited(n),
    ensures
        ({
            let bound = if n <= call.len { n as nat } else { call.len as nat };
            let source = session.source;
            let after = read_once(session, call).source;
            &&& forall|scheduled: bool| #[trigger]
                sized_step(PartialOp::Limited(n), call.len, scheduled) == (SizedStep::Forward {
                    len: bound as usize,
                })
            &&& read_result(session, call) matches Ok(count) && count <= bound
            &&& after.delivered.len() <= source.delivered.len() + bound
            &&& bound <= call.grant && bound <= source.unread.len() ==> {
                &&& read_result(session, call) == Ok::<nat, std::io::ErrorKind>(bound)
                &&& after.delivered == source.delivered + source.unread.subrange(0, bound as int)
            }
        }),
{
}

/// A planned failure comes back with its own kind and leaves the source as it
/// was: nothing is read and nothing is delivered.
pub proof fn lemma_failed_read(session: ReadSession, call: ReadCall, kind: std::io::ErrorKind)
    requires
        head_of(session.script) == PartialOp::Error(kind),
    ensures
        read_result(session, call) == Err::<nat, std::io::ErrorKind>(kind),
        read_once(session, call).source == session.source,
        read_once(session, call).script == rest_of(session.script),
{
}

/// Once the script has run out, a read through the wrapper is the direct read
/// of the source with the same buffer.
pub proof fn lemma_exhausted_read_is_direct(session: ReadSession, call: ReadCall)
    requires
        session.script.len() == 0,
    ensures
        read_result(session, call) == Ok::<nat, std::io::ErrorKind>(
            served(call.len as nat, call.grant as nat, session.source.unread.len()),
        ),
        read_once(session, call).source == source_read(
            session.source,
            call.len as nat,
            call.grant as nat,
        ),
        read_once(session, call).script.len() == 0,
{
}

/// Once the script has run out, every run of reads through the wrapper leaves
/// the source as the same run of direct reads would.
pub proof fn lemma_exhausted_script_passes_through(session: ReadSession, calls: Seq<ReadCall>)
    requires
        session.script.len() == 0,
    ensures
        read_all(session, calls).script.len() == 0,
        read_all(session, calls).source == source_read_all(session.source, calls),
    decreases calls.len(),
{
    if calls.len() > 0 {
        lemma_exhausted_script_passes_through(session, calls.drop_last());
        lemma_exhausted_read_is_direct(read_all(session, calls.drop_last()), calls.last());
    }
}

/// The session with its script replaced.
pub open spec fn with_script(session: ReadSession, ops: Seq<PartialOp>) -> ReadSession {
    ReadSession { script: ops, source: session.source }
}

/// After the script has been replaced, the next read consumes the first entry
/// of the new script. What the old script still held has no part in it: two
/// sessions that differ only in their old scripts go on alike.
pub proof fn lemma_replaced_script_is_forgotten(
    first: ReadSession,
    second: ReadSession,
    ops: Seq<PartialOp>,
    call: ReadCall,
)
    requires
        first.source == second.source,
    ensures
        head_of(with_script(first, ops).script) == head_of(ops),
        read_once(with_script(first, ops), call).script == rest_of(ops),
        read_result(with_script(first, ops), call) == read_result(with_script(second, ops), call),
        read_once(with_script(first, ops), call) == read_once(with_script(second, ops), call),
{
}

/// Whether an entry makes its call fail as not ready yet.
pub open spec fn blocks(op: PartialOp) -> bool {
    op == PartialOp::Error(std::io::ErrorKind::WouldBlock)
}

/// Call `i` of a run fails as not ready yet exactly when entry `i` of the
/// script says so. A task is therefore woken once for each such entry and
/// never for another reason.
pub proof fn lemma_blocks_as_scripted(session: ReadSession, calls: Seq<ReadCall>, i: int)
    requires
        0 <= i < calls.len(),
    ensures
        read_result(session_at(session, calls, i), calls[i]) == Err::<nat, std::io::ErrorKind>(
            std::io::ErrorKind::WouldBlock,
        ) <==> i < session.script.len() && blocks(session.script[i]),
        sized_step(head_of(session_at(session, calls, i).script), calls[i].len, true)
            == sized_step(planned(session.script, i), calls[i].len, true),
{
    lemma_script_runs_in_order(session, calls.subrange(0, i));
}

/// A caller that tries again after "not ready yet" gets on: where no entry
/// from place `i` on blocks, no call from `i` on is told to wait, and every
/// call behind the script's end is forwarded to the source.
pub proof fn lemma_retry_gets_on(session: ReadSession, calls: Seq<ReadCall>, i: int, j: int)
    requires
        0 <= i <= j < calls.len(),
        forall|k: int| i <= k < session.script.len() ==> !blocks(#[trigger] session.script[k]),
    ensures
        read_result(session_at(session, calls, j), calls[j]) != Err::<nat, std::io::ErrorKind>(
            std::io::ErrorKind::WouldBlock,
        ),
        j >= session.script.len() ==> read_result(session_at(session, calls, j), calls[j]) is Ok,
{
    lemma_blocks_as_scripted(session, calls, j);
    lemma_script_runs_in_order(session, calls.subrange(0, j));
}

/// The reads that reach the source in a run: each call that its entry does
/// not fail, with its buffer cut to what the entry allows.
pub open spec fn forwarded(script: Seq<PartialOp>, calls: Seq<ReadCall>) -> Seq<ReadCall>
    decreases calls.len(),
{
    if calls.len() == 0 {
        Seq::<ReadCall>::empty()
    } else {
        let earlier = forwarded(script, calls.drop_last());
        let op = planned(script, calls.len() - 1);
        match op {
            PartialOp::Error(_) => earlier,
            _ => earlier.push(
                ReadCall {
                    len: allowed_len(op, calls.last().len as nat) as usize,
                    grant: calls.last().grant,
                },
            ),
        }
    }
}

/// The source that a wrapper gives back is the source after the forwarded
/// reads alone, made directly: what the script withheld never reached it.
pub proof fn lemma_unwrapped_source(session: ReadSession, calls: Seq<ReadCall>)
    ensures
        read_all(session, calls).source == source_read_all(
            session.source,
            forwarded(session.script, calls),
        ),
    decreases calls.len(),
{
    if calls.len() > 0 {
        let earlier = calls.drop_last();
        lemma_unwrapped_source(session, earlier);
        lemma_script_runs_in_order(session, earlier);
        let op = planned(session.script, calls.len() - 1);
        let direct = forwarded(session.script, earlier);
        match op {
            PartialOp::Error(_) => {},
            _ => {
                let cut = ReadCall {
                    len: allowed_len(op, calls.last().len as nat) as usize,
                    grant: calls.last().grant,
                };
                assert(direct.push(cut).drop_last() =~= direct);
                assert(direct.push(cut).last() == cut);
            },
        }
    }
}

} // verus!
