//! A socket stack as a mathematical object, and an attempt run against it.
//!
//! Nothing here is executable. A [`World`] fixes what every call into the
//! socket stack returns and counts the calls that are made. [`run`] carries an
//! attempt to its end against a world: it performs the pending action, hands
//! the event back, and goes on until the attempt is finished. What holds of
//! every such run is proved in module `laws`.

use crate::address::AddressRecord;
use crate::error::Error;
use crate::tcp::{unready_code, ActionView, ConnectingView, EventView, Stage};
use vstd::prelude::*;

verus! {

/// What the resolver returns for one name.
pub struct Resolution {
    /// The resolver's return code.
    pub code: i32,
    /// The chain that it produces, in its order; empty where it produces none.
    pub records: Seq<AddressRecord>,
}

/// How the socket stack answers one attempt on a candidate.
pub struct Answer {
    /// What the call that starts the connection returns.
    pub connect: i32,
    /// What the wait returns: one if the socket became ready, zero after the
    /// time ran out, anything else for an error of the wait itself.
    pub ready: i32,
    /// The pending error of the socket, for the case that it is read.
    pub pending: u16,
}

/// How often each call into the socket stack has been made.
pub struct Tally {
    pub resolutions: nat,
    pub flag_reads: nat,
    pub flag_writes: nat,
    pub connects: nat,
    pub waits: nat,
    pub error_reads: nat,
    pub releases: nat,
    pub register_reads: nat,
}

/// A socket stack: what it holds, what it answers, and what was asked of it.
pub struct World {
    /// The flags of the socket's descriptor.
    pub flags: i32,
    /// What the resolver returns for each NUL-terminated name.
    pub resolver: spec_fn(Seq<u8>) -> Resolution,
    /// How the attempt on a candidate goes, by the number of attempts that
    /// were made before it.
    pub answers: spec_fn(int) -> Answer,
    /// The value of the last-error register.
    pub last_error: i32,
    /// How often each call was made so far.
    pub tally: Tally,
    /// The calls made so far, in the order in which they were made.
    pub log: Seq<ActionView>,
}

impl Answer {
    /// The code that is retained of this attempt: the socket's pending error
    /// if the socket became ready; what the connect call returned if the
    /// wait timed out; and if the wait failed, what the connect call returned
    /// or, where that was zero, what the wait returned.
    pub open spec fn code(self) -> i32 {
        if self.ready == 1 {
            self.pending as i32
        } else {
            unready_code(self.connect, self.ready)
        }
    }

    /// Whether the wait itself failed: it neither found the socket ready nor
    /// ran out of time.
    pub open spec fn wait_failed(self) -> bool {
        self.ready != 1 && self.ready != 0
    }

    /// Whether the wait ran out of time.
    pub open spec fn timed_out(self) -> bool {
        self.ready == 0
    }

    /// Whether no further candidate is tried after this attempt, even if
    /// there is one: the attempt timed out, or its code is zero.
    pub open spec fn halts(self) -> bool {
        self.timed_out() || self.code() == 0
    }
}

impl World {
    /// The answer to the attempt that the next connect call starts.
    pub open spec fn next_answer(self) -> Answer {
        (self.answers)(self.tally.connects as int)
    }

    /// The answer to the attempt that the last connect call started.
    pub open spec fn this_answer(self) -> Answer {
        (self.answers)(self.tally.connects - 1)
    }

    /// What the socket stack returns for `action`. An attempt that is over
    /// makes no call, so nothing is ever returned for `Done`: the value
    /// given for it is never handed to an attempt.
    pub open spec fn event(self, action: ActionView) -> EventView {
        match action {
            ActionView::Resolve { hostname, hints } => EventView::Resolved {
                code: (self.resolver)(hostname).code,
                chain: (self.resolver)(hostname).records,
            },
            ActionView::GetFlags { descriptor } => EventView::Flags(self.flags),
            ActionView::SetFlags { descriptor, flags } => EventView::FlagsSet,
            ActionView::Connect { descriptor, address } => EventView::ConnectReturned(
                self.next_answer().connect,
            ),
            ActionView::Wait { descriptor, seconds, microseconds } => EventView::WaitReturned(
                self.this_answer().ready,
            ),
            ActionView::GetPendingError { descriptor } => EventView::PendingError(
                self.this_answer().pending,
            ),
            ActionView::Release => EventView::Released,
            ActionView::ReadLastError => EventView::LastError(self.last_error),
            ActionView::Done(result) => EventView::Released,
        }
    }

    /// The socket stack after `action` was performed: the call is counted
    /// and logged, and setting the flags changes them.
    pub open spec fn after(self, action: ActionView) -> World {
        match action {
            ActionView::Done(result) => self,
            _ => World { log: self.log.push(action), ..self.counted(action) },
        }
    }

    /// The socket stack after `action` was performed, but for the log.
    pub open spec fn counted(self, action: ActionView) -> World {
        let tally = self.tally;
        match action {
            ActionView::Resolve { hostname, hints } => World {
                tally: Tally { resolutions: tally.resolutions + 1, ..tally },
                ..self
            },
            ActionView::GetFlags { descriptor } => World {
                tally: Tally { flag_reads: tally.flag_reads + 1, ..tally },
                ..self
            },
            ActionView::SetFlags { descriptor, flags } => World {
                flags,
                tally: Tally { flag_writes: tally.flag_writes + 1, ..tally },
                ..self
            },
            ActionView::Connect { descriptor, address } => World {
                tally: Tally { connects: tally.connects + 1, ..tally },
                ..self
            },
            ActionView::Wait { descriptor, seconds, microseconds } => World {
                tally: Tally { waits: tally.waits + 1, ..tally },
                ..self
            },
            ActionView::GetPendingError { descriptor } => World {
                tally: Tally { error_reads: tally.error_reads + 1, ..tally },
                ..self
            },
            ActionView::Release => World {
                tally: Tally { releases: tally.releases + 1, ..tally },
                ..self
            },
            ActionView::ReadLastError => World {
                tally: Tally { register_reads: tally.register_reads + 1, ..tally },
                ..self
            },
            ActionView::Done(result) => self,
        }
    }
}

/// The place of a stage among the six calls that one candidate takes, counted
/// from the end.
pub open spec fn rank(stage: Stage) -> nat {
    match stage {
        Stage::ReadingFlags => 6,
        Stage::EnteringNonBlocking => 5,
        Stage::Connecting => 4,
        Stage::Waiting => 3,
        Stage::ReadingPendingError => 2,
        Stage::RestoringFlags => 1,
        _ => 0,
    }
}

/// A bound on the number of calls that a valid attempt still makes in
/// `world`.
pub open spec fn remaining(state: ConnectingView, world: World) -> nat {
    match state.stage {
        Stage::Finished => 0,
        Stage::ReadingLastError => 1,
        Stage::Releasing => 2,
        Stage::Resolving => 6 * (world.resolver)(state.name).records.len() + 4,
        _ => (6 * (state.chain.len() - state.position - 1) + rank(state.stage) + 2) as nat,
    }
}

/// The attempt and the socket stack after one call: the pending action is
/// performed, and the event is handed back.
pub open spec fn turn(state: ConnectingView, world: World) -> (ConnectingView, World) {
    (state.advance(world.event(state.pending())), world.after(state.pending()))
}

/// The attempt and the socket stack at the end of the attempt: calls are made
/// for as long as the attempt asks for one.
pub open spec fn run(state: ConnectingView, world: World) -> (ConnectingView, World)
    decreases remaining(state, world),
{
    if state.stage == Stage::Finished || !state.valid() {
        (state, world)
    } else {
        run(turn(state, world).0, turn(state, world).1)
    }
}

/// The result that the attempt returns at its end.
pub open spec fn result(state: ConnectingView, world: World) -> Result<(), Error> {
    run(state, world).0.outcome
}

} // verus!
