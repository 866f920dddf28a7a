//! What holds of every attempt that is run to its end.
//!
//! The statements are about [`run`]: an attempt that starts in the state that
//! `TcpSocket::connect` returns, against an arbitrary socket stack.
//! [`theorem_attempt`] says how every attempt ends and which calls it makes,
//! in which order. The laws after it are what follows for the single cases.

use crate::address::{candidate_of, AddressRecord, SocketAddress};
use crate::error::{classified, Error, FailurePoint};
use crate::hostname::{fits, terminated};
use crate::tcp::{
    operation, start, stream_hints, ActionView, ConnectingView, EventView, Stage, O_NONBLOCK,
};
use crate::world::{result, run, turn, Answer, Resolution, Tally, World};
use vstd::prelude::*;

verus! {

/// What the resolver of `world` returns for a hostname of these bytes.
pub open spec fn resolution(world: World, hostname: Seq<u8>) -> Resolution {
    (world.resolver)(terminated(hostname))
}

/// Whether the resolution succeeds: the code is zero and there is a record.
pub open spec fn resolves(world: World, hostname: Seq<u8>) -> bool {
    resolution(world, hostname).code == 0 && resolution(world, hostname).records.len() > 0
}

/// The answer to the attempt on candidate `index`, counted from zero, of an
/// attempt to connect that starts in `world`.
pub open spec fn answer(world: World, index: int) -> Answer {
    (world.answers)(world.tally.connects + index)
}

/// The number of candidates that are tried of `left` that remain, where
/// `answers(from)` is the answer to the first of them: the attempts go on
/// until one halts or none is left.
pub open spec fn tried(answers: spec_fn(int) -> Answer, from: int, left: int) -> int
    decreases left,
{
    if left <= 1 || answers(from).halts() {
        1
    } else {
        1 + tried(answers, from + 1, left - 1)
    }
}

/// The number of candidates that an attempt on `hostname` tries in `world`,
/// given that the resolution succeeds.
pub open spec fn candidates_tried(world: World, hostname: Seq<u8>) -> int {
    tried(
        world.answers,
        world.tally.connects as int,
        resolution(world, hostname).records.len() as int,
    )
}

/// The result of an attempt whose last candidate left `code`.
pub open spec fn outcome_of(code: i32, last_error: i32) -> Result<(), Error> {
    if code != 0 {
        Err(Error::ConnectFailed(operation(), code, last_error))
    } else {
        Ok(())
    }
}

/// The calls that one candidate takes, in their order: the flags are read and
/// the non-blocking flag is added, the connection is started and waited for,
/// the pending error is read if, and only if, the socket became ready, and
/// the flags that were read are put back.
pub open spec fn candidate_calls(
    descriptor: i32,
    flags: i32,
    timeout: u32,
    address: SocketAddress,
    reply: Answer,
) -> Seq<ActionView> {
    let waited = Seq::<ActionView>::empty().push(ActionView::GetFlags { descriptor }).push(
        ActionView::SetFlags { descriptor, flags: flags | O_NONBLOCK },
    ).push(ActionView::Connect { descriptor, address }).push(
        ActionView::Wait { descriptor, seconds: timeout, microseconds: 0 },
    );
    if reply.ready == 1 {
        waited.push(ActionView::GetPendingError { descriptor }).push(
            ActionView::SetFlags { descriptor, flags },
        )
    } else {
        waited.push(ActionView::SetFlags { descriptor, flags })
    }
}

/// The calls that `count` candidates take, one candidate after the other in
/// the order of `records`, starting with the record at `position`, to which
/// `answers(from)` is the answer.
pub open spec fn candidates_calls(
    descriptor: i32,
    port: u16,
    timeout: u32,
    flags: i32,
    records: Seq<AddressRecord>,
    answers: spec_fn(int) -> Answer,
    position: int,
    from: int,
    count: int,
) -> Seq<ActionView>
    decreases count,
{
    if count <= 0 {
        Seq::empty()
    } else {
        candidate_calls(
            descriptor,
            flags,
            timeout,
            candidate_of(records[position], port),
            answers(from),
        ) + candidates_calls(
            descriptor,
            port,
            timeout,
            flags,
            records,
            answers,
            position + 1,
            from + 1,
            count - 1,
        )
    }
}

/// The calls that end an attempt which owns a chain: the chain is released,
/// and only then, for a failure, the register is read.
pub open spec fn closing_calls(failed: bool) -> Seq<ActionView> {
    if failed {
        Seq::<ActionView>::empty().push(ActionView::Release).push(ActionView::ReadLastError)
    } else {
        Seq::<ActionView>::empty().push(ActionView::Release)
    }
}

/// All the calls that an attempt makes in `world`, in their order.
pub open spec fn calls(descriptor: i32, hostname: Seq<u8>, port: u16, timeout: u32, world: World)
    -> Seq<ActionView> {
    let found = resolution(world, hostname);
    let resolve = Seq::<ActionView>::empty().push(
        ActionView::Resolve { hostname: terminated(hostname), hints: stream_hints() },
    );
    let count = candidates_tried(world, hostname);
    if !fits(hostname) {
        Seq::empty()
    } else if !resolves(world, hostname) {
        if found.records.len() > 0 {
            resolve + closing_calls(true)
        } else {
            resolve.push(ActionView::ReadLastError)
        }
    } else {
        resolve + candidates_calls(
            descriptor,
            port,
            timeout,
            world.flags,
            found.records,
            world.answers,
            0,
            world.tally.connects as int,
            count,
        ) + closing_calls(answer(world, count - 1).code() != 0)
    }
}

/// The attempt and the socket stack after the six or five calls that one
/// candidate takes.
spec fn after_candidate(state: ConnectingView, world: World) -> (ConnectingView, World) {
    let reply = world.next_answer();
    let settled = ConnectingView {
        saved_flags: world.flags,
        code: reply.code(),
        timed_out: reply.timed_out(),
        ..state
    };
    let tally = world.tally;
    (
        if settled.stops() {
            ConnectingView { stage: Stage::Releasing, ..settled }
        } else {
            ConnectingView { stage: Stage::ReadingFlags, position: state.position + 1, ..settled }
        },
        World {
            tally: Tally {
                flag_reads: tally.flag_reads + 1,
                flag_writes: tally.flag_writes + 2,
                connects: tally.connects + 1,
                waits: tally.waits + 1,
                error_reads: if reply.ready == 1 {
                    tally.error_reads + 1
                } else {
                    tally.error_reads
                },
                ..tally
            },
            log: world.log + candidate_calls(
                state.descriptor,
                world.flags,
                state.timeout,
                candidate_of(state.chain[state.position], state.port),
                reply,
            ),
            ..world
        },
    )
}

proof fn lemma_candidate(state: ConnectingView, world: World)
    requires
        state.stage == Stage::ReadingFlags,
        state.valid(),
    ensures
        run(state, world) == run(
            after_candidate(state, world).0,
            after_candidate(state, world).1,
        ),
{
    let reply = world.next_answer();
    let t1 = turn(state, world);
    assert(t1.0.stage == Stage::EnteringNonBlocking);
    assert(run(state, world) == run(t1.0, t1.1));
    let t2 = turn(t1.0, t1.1);
    assert(t2.0.stage == Stage::Connecting);
    assert(run(t1.0, t1.1) == run(t2.0, t2.1));
    let t3 = turn(t2.0, t2.1);
    assert(t3.0.stage == Stage::Waiting);
    assert(t3.1.this_answer() == reply);
    assert(run(t2.0, t2.1) == run(t3.0, t3.1));
    let t4 = turn(t3.0, t3.1);
    assert(run(t3.0, t3.1) == run(t4.0, t4.1));
    if reply.ready == 1 {
        assert(t4.0.stage == Stage::ReadingPendingError);
        assert(t4.1.this_answer() == reply);
        let t5 = turn(t4.0, t4.1);
        assert(t5.0.stage == Stage::RestoringFlags);
        assert(run(t4.0, t4.1) == run(t5.0, t5.1));
        let t6 = turn(t5.0, t5.1);
        assert(run(t5.0, t5.1) == run(t6.0, t6.1));
        assert(t6.0 == after_candidate(state, world).0);
        assert(t6.1.log =~= after_candidate(state, world).1.log);
        assert(t6.1 == after_candidate(state, world).1);
    } else {
        assert(t4.0.stage == Stage::RestoringFlags);
        let t5 = turn(t4.0, t4.1);
        assert(run(t4.0, t4.1) == run(t5.0, t5.1));
        assert(t5.0 == after_candidate(state, world).0);
        assert(t5.1.log =~= after_candidate(state, world).1.log);
        assert(t5.1 == after_candidate(state, world).1);
    }
}

/// The socket stack after the chain was released and, for a failure, the
/// register was read.
spec fn after_release(state: ConnectingView, world: World) -> World {
    let tally = world.tally;
    World {
        tally: Tally {
            releases: tally.releases + 1,
            register_reads: if state.fails() {
                tally.register_reads + 1
            } else {
                tally.register_reads
            },
            ..tally
        },
        log: world.log + closing_calls(state.fails()),
        ..world
    }
}

proof fn lemma_release(state: ConnectingView, world: World)
    requires
        state.stage == Stage::Releasing,
    ensures
        run(state, world).1 == after_release(state, world),
        run(state, world).0.outcome == if state.fails() {
            Err(classified(state.point, operation(), state.code, world.last_error))
        } else {
            Ok(())
        },
{
    let t1 = turn(state, world);
    assert(run(state, world) == run(t1.0, t1.1));
    if state.fails() {
        assert(t1.0.stage == Stage::ReadingLastError);
        let t2 = turn(t1.0, t1.1);
        assert(t2.0.stage == Stage::Finished);
        assert(run(t1.0, t1.1) == run(t2.0, t2.1));
        assert(run(t2.0, t2.1) == t2);
        assert(t2.1.log =~= after_release(state, world).log);
        assert(t2.1 == after_release(state, world));
    } else {
        assert(t1.0.stage == Stage::Finished);
        assert(run(t1.0, t1.1) == t1);
        assert(t1.1.log =~= after_release(state, world).log);
        assert(t1.1 == after_release(state, world));
    }
}

/// The socket stack at the end of an attempt, as far as the candidates
/// decide it: `count` candidates were tried, each with one read and two
/// writes of the flags, one connect and one wait; the chain was released
/// once; the register was read if the attempt failed; the flags are what they
/// were; nothing else changed.
pub open spec fn after_candidates(world: World, end: World, count: int, failed: bool) -> bool {
    &&& end.flags == world.flags
    &&& end.resolver == world.resolver
    &&& end.answers == world.answers
    &&& end.last_error == world.last_error
    &&& end.tally.resolutions == world.tally.resolutions
    &&& end.tally.flag_reads == world.tally.flag_reads + count
    &&& end.tally.flag_writes == world.tally.flag_writes + 2 * count
    &&& end.tally.connects == world.tally.connects + count
    &&& end.tally.waits == world.tally.waits + count
    &&& world.tally.error_reads <= end.tally.error_reads <= world.tally.error_reads + count
    &&& end.tally.releases == world.tally.releases + 1
    &&& end.tally.register_reads == world.tally.register_reads + if failed {
        1int
    } else {
        0int
    }
}

proof fn lemma_candidates(state: ConnectingView, world: World)
    requires
        state.stage == Stage::ReadingFlags,
        state.valid(),
        state.point == FailurePoint::Connect,
    ensures
        ({
            let from = world.tally.connects as int;
            let count = tried(world.answers, from, state.chain.len() - state.position);
            let last = (world.answers)(from + count - 1);
            let end = run(state, world);
            &&& 1 <= count <= state.chain.len() - state.position
            &&& end.0.outcome == outcome_of(last.code(), world.last_error)
            &&& after_candidates(world, end.1, count, last.code() != 0)
            &&& end.1.log == world.log + candidates_calls(
                state.descriptor,
                state.port,
                state.timeout,
                world.flags,
                state.chain,
                world.answers,
                state.position,
                from,
                count,
            ) + closing_calls(last.code() != 0)
        }),
    decreases state.chain.len() - state.position,
{
    let from = world.tally.connects as int;
    let left = state.chain.len() - state.position;
    let count = tried(world.answers, from, left);
    let next = after_candidate(state, world);
    let first = candidate_calls(
        state.descriptor,
        world.flags,
        state.timeout,
        candidate_of(state.chain[state.position], state.port),
        (world.answers)(from),
    );
    let rest = candidates_calls(
        state.descriptor,
        state.port,
        state.timeout,
        world.flags,
        state.chain,
        world.answers,
        state.position + 1,
        from + 1,
        count - 1,
    );
    let all = candidates_calls(
        state.descriptor,
        state.port,
        state.timeout,
        world.flags,
        state.chain,
        world.answers,
        state.position,
        from,
        count,
    );
    let closing = closing_calls((world.answers)(from + count - 1).code() != 0);
    lemma_candidate(state, world);
    if next.0.stage == Stage::Releasing {
        lemma_release(next.0, next.1);
        assert(count == 1);
        assert(rest =~= Seq::empty());
        assert(all =~= first);
        assert(run(state, world).1.log =~= world.log + all + closing);
    } else {
        lemma_candidates(next.0, next.1);
        assert(count == 1 + tried(world.answers, from + 1, left - 1));
        assert(all == first + rest);
        assert(run(state, world).1.log =~= world.log + all + closing);
    }
}

/// Where the candidates before the `count`-th do not halt and the `count`-th
/// does, or is the last, `count` candidates are tried.
proof fn lemma_tried_until(answers: spec_fn(int) -> Answer, from: int, left: int, count: int)
    requires
        1 <= count <= left,
        forall|i: int| from <= i < from + count - 1 ==> !(#[trigger] answers(i)).halts(),
        count == left || answers(from + count - 1).halts(),
    ensures
        tried(answers, from, left) == count,
    decreases count,
{
    if count > 1 {
        assert(!answers(from).halts());
        lemma_tried_until(answers, from + 1, left - 1, count - 1);
    }
}

/// The socket stack after the resolver was asked once.
pub open spec fn resolved(world: World) -> World {
    World { tally: Tally { resolutions: world.tally.resolutions + 1, ..world.tally }, ..world }
}

/// The socket stack at the end of an attempt whose resolution failed: the
/// resolver was asked, the chain, if there was one, was released, and the
/// register was read. Nothing else was touched.
pub open spec fn unresolved(
    descriptor: i32,
    hostname: Seq<u8>,
    port: u16,
    timeout: u32,
    world: World,
) -> World {
    World {
        tally: Tally {
            resolutions: world.tally.resolutions + 1,
            releases: if resolution(world, hostname).records.len() > 0 {
                world.tally.releases + 1
            } else {
                world.tally.releases
            },
            register_reads: world.tally.register_reads + 1,
            ..world.tally
        },
        log: world.log + calls(descriptor, hostname, port, timeout, world),
        ..world
    }
}

/// Every attempt, whatever the socket stack answers, ends as follows.
///
/// - Its calls are exactly [`calls`], in that order.
/// - A hostname that does not fit: `HostnameTooLong`, and no call is made.
/// - A resolution that fails: `ResolutionFailed` with the resolver's code and
///   the register's value; only the resolver, the release of a chain that
///   was produced all the same, and the register are called on.
/// - Else the candidates are tried in the resolver's order until one halts or
///   none is left. The code of the last one tried decides the result, and
///   each candidate tried took one read and two writes of the flags, one
///   connect and one wait. The chain is released once, and the flags are
///   what they were.
pub proof fn theorem_attempt(
    descriptor: i32,
    hostname: Seq<u8>,
    port: u16,
    timeout: u32,
    world: World,
)
    ensures
        ({
            let end = run(start(descriptor, hostname, port, timeout), world);
            let found = resolution(world, hostname);
            let count = candidates_tried(world, hostname);
            let last = answer(world, count - 1);
            &&& end.0.stage == Stage::Finished
            &&& end.1.log == world.log + calls(descriptor, hostname, port, timeout, world)
            &&& !fits(hostname) ==> end.0.outcome == Err::<(), Error>(Error::HostnameTooLong)
                && end.1 == world
            &&& fits(hostname) && !resolves(world, hostname) ==> end.0.outcome == Err::<(), Error>(
                Error::ResolutionFailed(operation(), found.code, world.last_error),
            ) && end.1 == unresolved(descriptor, hostname, port, timeout, world)
            &&& fits(hostname) && resolves(world, hostname) ==> 1 <= count <= found.records.len()
                && end.0.outcome == outcome_of(last.code(), world.last_error) && after_candidates(
                resolved(world),
                end.1,
                count,
                last.code() != 0,
            )
        }),
{
    let state = start(descriptor, hostname, port, timeout);
    let found = resolution(world, hostname);
    let all = calls(descriptor, hostname, port, timeout, world);
    lemma_finishes(state, world);
    if !fits(hostname) {
        assert(run(state, world) == (state, world));
        assert(world.log =~= world.log + all);
    } else {
        let t1 = turn(state, world);
        assert(run(state, world) == run(t1.0, t1.1));
        if !resolves(world, hostname) {
            if found.records.len() == 0 {
                assert(t1.0.stage == Stage::ReadingLastError);
                let t2 = turn(t1.0, t1.1);
                assert(t2.0.stage == Stage::Finished);
                assert(run(t1.0, t1.1) == run(t2.0, t2.1));
                assert(run(t2.0, t2.1) == t2);
                assert(t2.1.log =~= world.log + all);
                assert(t2.1 == unresolved(descriptor, hostname, port, timeout, world));
            } else {
                assert(t1.0.stage == Stage::Releasing);
                lemma_release(t1.0, t1.1);
                assert(after_release(t1.0, t1.1).log =~= world.log + all);
                assert(after_release(t1.0, t1.1) == unresolved(
                    descriptor,
                    hostname,
                    port,
                    timeout,
                    world,
                ));
            }
        } else {
            assert(t1.0.stage == Stage::ReadingFlags);
            lemma_candidates(t1.0, t1.1);
            assert(run(state, world).1.log =~= world.log + all);
        }
    }
}

/// Every run of a valid attempt ends with the attempt finished.
proof fn lemma_finishes(state: ConnectingView, world: World)
    requires
        state.valid(),
    ensures
        run(state, world).0.stage == Stage::Finished,
    decreases crate::world::remaining(state, world),
{
    if state.stage != Stage::Finished {
        let next = turn(state, world);
        lemma_finishes(next.0, next.1);
    }
}

/// A hostname that is too long for the name buffer fails at once with
/// `HostnameTooLong`: the attempt is over before it starts, it asks for no
/// call, and the socket stack is exactly what it was, every count included.
pub proof fn law_long_hostname_makes_no_call(
    descriptor: i32,
    hostname: Seq<u8>,
    port: u16,
    timeout: u32,
    world: World,
)
    requires
        !fits(hostname),
    ensures
        start(descriptor, hostname, port, timeout).stage == Stage::Finished,
        start(descriptor, hostname, port, timeout).pending() == ActionView::Done(
            Err(Error::HostnameTooLong),
        ),
        result(start(descriptor, hostname, port, timeout), world) == Err::<(), Error>(
            Error::HostnameTooLong,
        ),
        run(start(descriptor, hostname, port, timeout), world).1 == world,
{
    theorem_attempt(descriptor, hostname, port, timeout, world);
}

/// A resolution that fails, by a non-zero code or by producing no record,
/// fails the attempt with `ResolutionFailed`, which carries the resolver's
/// code and the register's value. The flags of the socket are neither read
/// nor written, and no connect, wait or read of the pending error is made.
pub proof fn law_failed_resolution_leaves_socket_alone(
    descriptor: i32,
    hostname: Seq<u8>,
    port: u16,
    timeout: u32,
    world: World,
)
    requires
        fits(hostname),
        !resolves(world, hostname),
    ensures
        ({
            let end = run(start(descriptor, hostname, port, timeout), world).1;
            &&& result(start(descriptor, hostname, port, timeout), world) == Err::<(), Error>(
                Error::ResolutionFailed(
                    operation(),
                    resolution(world, hostname).code,
                    world.last_error,
                ),
            )
            &&& end.flags == world.flags
            &&& end.tally.flag_reads == world.tally.flag_reads
            &&& end.tally.flag_writes == world.tally.flag_writes
            &&& end.tally.connects == world.tally.connects
            &&& end.tally.waits == world.tally.waits
            &&& end.tally.error_reads == world.tally.error_reads
            &&& end.tally.resolutions == world.tally.resolutions + 1
        }),
{
    theorem_attempt(descriptor, hostname, port, timeout, world);
}

/// Where candidate `k`, counted from one, is the first whose attempt leaves
/// the code zero, and no candidate before it timed out, the attempt
/// succeeds after exactly `k` connects: the candidates after `k` are not
/// tried. The chain is released exactly once, and that is the last call of
/// the attempt: the register is not read.
pub proof fn law_first_success_ends_the_attempts(
    descriptor: i32,
    hostname: Seq<u8>,
    port: u16,
    timeout: u32,
    world: World,
    k: int,
)
    requires
        fits(hostname),
        resolves(world, hostname),
        1 <= k <= resolution(world, hostname).records.len(),
        forall|i: int| 0 <= i < k - 1 ==> !answer(world, i).halts(),
        answer(world, k - 1).code() == 0,
    ensures
        ({
            let end = run(start(descriptor, hostname, port, timeout), world).1;
            &&& result(start(descriptor, hostname, port, timeout), world) == Ok::<(), Error>(())
            &&& end.tally.connects == world.tally.connects + k
            &&& end.tally.releases == world.tally.releases + 1
            &&& end.tally.register_reads == world.tally.register_reads
            &&& end.log.len() > 0 && end.log.last() == ActionView::Release
        }),
{
    theorem_attempt(descriptor, hostname, port, timeout, world);
    let from = world.tally.connects as int;
    assert forall|i: int| from <= i < from + k - 1 implies !(#[trigger] (world.answers)(
        i,
    )).halts() by {
        assert(!answer(world, i - from).halts());
    }
    lemma_tried_until(
        world.answers,
        from,
        resolution(world, hostname).records.len() as int,
        k,
    );
}

/// Where no candidate halts the attempts, every candidate is tried once, in
/// order, and the attempt fails with `ConnectFailed`, which carries the code
/// of the last candidate and the register's value. The chain is released
/// exactly once.
pub proof fn law_exhaustion_reports_the_last_code(
    descriptor: i32,
    hostname: Seq<u8>,
    port: u16,
    timeout: u32,
    world: World,
)
    requires
        fits(hostname),
        resolves(world, hostname),
        forall|i: int|
            0 <= i < resolution(world, hostname).records.len() ==> !answer(world, i).halts(),
    ensures
        ({
            let end = run(start(descriptor, hostname, port, timeout), world).1;
            let count = resolution(world, hostname).records.len() as int;
            &&& result(start(descriptor, hostname, port, timeout), world) == Err::<(), Error>(
                Error::ConnectFailed(
                    operation(),
                    answer(world, count - 1).code(),
                    world.last_error,
                ),
            )
            &&& end.tally.connects == world.tally.connects + count
            &&& end.tally.releases == world.tally.releases + 1
        }),
{
    theorem_attempt(descriptor, hostname, port, timeout, world);
    let count = resolution(world, hostname).records.len() as int;
    let from = world.tally.connects as int;
    assert forall|i: int| from <= i < from + count - 1 implies !(#[trigger] (world.answers)(
        i,
    )).halts() by {
        assert(!answer(world, i - from).halts());
    }
    lemma_tried_until(world.answers, from, count, count);
}

/// Where the wait on the first candidate runs out of time, the attempts stop
/// there: one connect is made and no other candidate is tried, the chain is
/// released once, and the code that is retained is what the connect call
/// returned. That code is not zero where the call reported that the
/// connection is still in progress, and the attempt then fails with
/// `ConnectFailed`, which carries it. Where the call returned zero, the
/// socket is connected and the attempt succeeds.
pub proof fn law_timeout_ends_the_attempts(
    descriptor: i32,
    hostname: Seq<u8>,
    port: u16,
    timeout: u32,
    world: World,
)
    requires
        fits(hostname),
        resolves(world, hostname),
        answer(world, 0).timed_out(),
    ensures
        ({
            let end = run(start(descriptor, hostname, port, timeout), world).1;
            let code = answer(world, 0).connect;
            &&& end.tally.connects == world.tally.connects + 1
            &&& end.tally.releases == world.tally.releases + 1
            &&& result(start(descriptor, hostname, port, timeout), world) == outcome_of(
                code,
                world.last_error,
            )
            &&& code != 0 ==> result(start(descriptor, hostname, port, timeout), world) == Err::<
                (),
                Error,
            >(Error::ConnectFailed(operation(), code, world.last_error))
        }),
{
    theorem_attempt(descriptor, hostname, port, timeout, world);
    assert(answer(world, 0).halts());
}

/// Whatever way an attempt ends, the flags of the socket's descriptor are
/// afterwards what they were before it.
pub proof fn law_flags_are_restored(
    descriptor: i32,
    hostname: Seq<u8>,
    port: u16,
    timeout: u32,
    world: World,
)
    ensures
        run(start(descriptor, hostname, port, timeout), world).1.flags == world.flags,
{
    theorem_attempt(descriptor, hostname, port, timeout, world);
}

/// Whatever way an attempt ends, a chain that the resolver produced is
/// released exactly once, and where it produced none, nothing is released.
pub proof fn law_chain_is_released_once(
    descriptor: i32,
    hostname: Seq<u8>,
    port: u16,
    timeout: u32,
    world: World,
)
    requires
        fits(hostname),
    ensures
        run(start(descriptor, hostname, port, timeout), world).1.tally.releases
            == world.tally.releases + if resolution(world, hostname).records.len() > 0 {
            1int
        } else {
            0int
        },
{
    theorem_attempt(descriptor, hostname, port, timeout, world);
}

/// Nothing is remembered from one attempt to the next: of two attempts on
/// the same hostname, one after the other against a resolver that stays the
/// same, each asks the resolver exactly once.
pub proof fn law_each_attempt_resolves_once(
    descriptor: i32,
    hostname: Seq<u8>,
    port: u16,
    timeout: u32,
    world: World,
)
    requires
        fits(hostname),
    ensures
        ({
            let first = run(start(descriptor, hostname, port, timeout), world).1;
            let second = run(start(descriptor, hostname, port, timeout), first).1;
            &&& first.resolver == world.resolver
            &&& first.tally.resolutions == world.tally.resolutions + 1
            &&& second.tally.resolutions == first.tally.resolutions + 1
        }),
{
    theorem_attempt(descriptor, hostname, port, timeout, world);
    let first = run(start(descriptor, hostname, port, timeout), world).1;
    theorem_attempt(descriptor, hostname, port, timeout, first);
}

/// A wait that fails never counts as a connection: the code that is retained
/// of such a candidate is not zero, so the next candidate is tried if there
/// is one, and the attempt fails if there is none.
pub proof fn law_failed_wait_is_a_failed_attempt(reply: Answer)
    requires
        reply.wait_failed(),
    ensures
        reply.code() != 0,
        !reply.halts(),
{
}

/// A valid state stays valid whatever event it is handed.
pub proof fn law_validity_is_kept(state: ConnectingView, event: EventView)
    requires
        state.valid(),
    ensures
        state.advance(event).valid(),
{
}

} // verus!
