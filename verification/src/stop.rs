//! Ending a child without ever waiting for it forever: the child is asked to
//! end, looked at from time to time for as long as the patience lasts, and
//! killed by force if it is still there after that.
//!
//! A [`StopFlow`] says what is to be done next; whoever holds the child does
//! it and tells the flow what a look at the child has shown.

use vstd::prelude::*;

verus! {

/// How long a child that was asked to end is given to exit, in milliseconds.
pub const STOP_PATIENCE_MILLIS: u64 = 5000;

/// How long it is waited between two looks at the child, in milliseconds.
pub const STOP_PAUSE_MILLIS: u64 = 100;

/// What is to be done to the child next.
#[derive(Debug, Clone, Copy, PartialEq, Eq, Structural)]
pub enum StopAction {
    /// Ask the child to end.
    Terminate,
    /// Look whether the child has exited, without waiting for it.
    Check,
    /// Wait this long.
    Pause { millis: u64 },
    /// Kill the child by force.
    Kill,
}

/// What a look at the child has shown.
#[derive(Debug, Clone, Copy, PartialEq, Eq, Structural)]
pub enum ChildSeen {
    /// The child is still there.
    Running,
    /// The child has exited, or nothing can be told of it any more.
    Gone,
}

/// How far the ending of a child has come.
#[derive(Debug, Clone, Copy, PartialEq, Eq, Structural)]
pub enum StopFlow {
    /// Nothing was done yet.
    Begun,
    /// The child is being looked at, `waited` milliseconds after it was asked
    /// to end.
    Checking { waited: u64 },
    /// A pause is being made, `waited` milliseconds after the child was asked
    /// to end.
    Pausing { waited: u64 },
    /// The child is being killed by force.
    Killing,
    /// The child is done with: it exited by itself, or it was killed by force.
    Ended { forced: bool },
}

/// The time that is left of the patience after `waited` milliseconds.
pub open spec fn spec_patience_left(waited: u64) -> nat {
    if waited < STOP_PATIENCE_MILLIS {
        (STOP_PATIENCE_MILLIS - waited) as nat
    } else {
        0
    }
}

/// How long the pause after `waited` milliseconds is: the usual pause, or what
/// is left of the patience where that is less.
pub open spec fn spec_pause(waited: u64) -> nat {
    if spec_patience_left(waited) < STOP_PAUSE_MILLIS {
        spec_patience_left(waited)
    } else {
        STOP_PAUSE_MILLIS as nat
    }
}

impl StopFlow {
    /// What is to be done in this state; nothing once the child is done with.
    pub open spec fn spec_action(self) -> Option<StopAction> {
        match self {
            StopFlow::Begun => Some(StopAction::Terminate),
            StopFlow::Checking { .. } => Some(StopAction::Check),
            StopFlow::Pausing { waited } => Some(
                StopAction::Pause { millis: spec_pause(waited) as u64 },
            ),
            StopFlow::Killing => Some(StopAction::Kill),
            StopFlow::Ended { .. } => None,
        }
    }

    /// The state that follows once the action of this state was done, where
    /// the last look at the child has shown `seen`. Only a look is answered by
    /// `seen`. A child that is gone is never killed; a child that is still
    /// there is killed only when the patience is used up.
    pub open spec fn spec_advance(self, seen: ChildSeen) -> StopFlow {
        match self {
            StopFlow::Begun => StopFlow::Checking { waited: 0 },
            StopFlow::Checking { waited } => if seen == ChildSeen::Gone {
                StopFlow::Ended { forced: false }
            } else if spec_patience_left(waited) == 0 {
                StopFlow::Killing
            } else {
                StopFlow::Pausing { waited }
            },
            StopFlow::Pausing { waited } => StopFlow::Checking {
                waited: (waited + spec_pause(waited)) as u64,
            },
            StopFlow::Killing => StopFlow::Ended { forced: true },
            StopFlow::Ended { .. } => self,
        }
    }

    /// How many steps are left at most until the child is done with.
    pub open spec fn spec_steps_left(self) -> nat {
        match self {
            StopFlow::Begun => 2 * STOP_PATIENCE_MILLIS as nat + 5,
            StopFlow::Checking { waited } => 2 * spec_patience_left(waited) + 2,
            StopFlow::Pausing { waited } => if spec_patience_left(waited) == 0 {
                3
            } else {
                2 * spec_patience_left(waited) + 1
            },
            StopFlow::Killing => 1,
            StopFlow::Ended { .. } => 0,
        }
    }

    /// Whether a child that exits `exits_after` milliseconds after it was
    /// asked to end, or never, has to be killed by force: it has, exactly if
    /// it is still there when the patience is used up.
    pub open spec fn spec_forced(exits_after: Option<u64>) -> bool {
        match exits_after {
            Some(after) => after > STOP_PATIENCE_MILLIS,
            None => true,
        }
    }

    /// What a look at such a child shows after `waited` milliseconds.
    pub open spec fn spec_seen(exits_after: Option<u64>, waited: u64) -> ChildSeen {
        match exits_after {
            Some(after) => if after <= waited {
                ChildSeen::Gone
            } else {
                ChildSeen::Running
            },
            None => ChildSeen::Running,
        }
    }

    /// The ending of a child, before anything was done.
    pub fn begin() -> (flow: StopFlow)
        ensures
            flow == StopFlow::Begun,
    {
        StopFlow::Begun
    }

    /// What is to be done now; nothing once the child is done with.
    pub fn action(&self) -> (action: Option<StopAction>)
        ensures
            action == self.spec_action(),
    {
        match *self {
            StopFlow::Begun => Some(StopAction::Terminate),
            StopFlow::Checking { .. } => Some(StopAction::Check),
            StopFlow::Pausing { waited } => Some(StopAction::Pause { millis: pause(waited) }),
            StopFlow::Killing => Some(StopAction::Kill),
            StopFlow::Ended { .. } => None,
        }
    }

    /// The state that follows once the action of this state was done, where
    /// the last look at the child has shown `seen`.
    pub fn advance(self, seen: ChildSeen) -> (next: StopFlow)
        ensures
            next == self.spec_advance(seen),
    {
        match self {
            StopFlow::Begun => StopFlow::Checking { waited: 0 },
            StopFlow::Checking { waited } => match seen {
                ChildSeen::Gone => StopFlow::Ended { forced: false },
                ChildSeen::Running => if waited >= STOP_PATIENCE_MILLIS {
                    StopFlow::Killing
                } else {
                    StopFlow::Pausing { waited }
                },
            },
            StopFlow::Pausing { waited } => StopFlow::Checking { waited: waited + pause(waited) },
            StopFlow::Killing => StopFlow::Ended { forced: true },
            StopFlow::Ended { forced } => StopFlow::Ended { forced },
        }
    }

    /// Whether the child was killed by force, once it is done with.
    pub fn forced(&self) -> (forced: Option<bool>)
        ensures
            forced == (match *self {
                StopFlow::Ended { forced } => Some(forced),
                _ => None,
            }),
    {
        match *self {
            StopFlow::Ended { forced } => Some(forced),
            _ => None,
        }
    }
}

/// How long the pause after `waited` milliseconds is.
fn pause(waited: u64) -> (millis: u64)
    ensures
        millis == spec_pause(waited),
        waited + millis <= u64::MAX,
{
    if waited >= STOP_PATIENCE_MILLIS {
        0
    } else if STOP_PATIENCE_MILLIS - waited < STOP_PAUSE_MILLIS {
        STOP_PATIENCE_MILLIS - waited
    } else {
        STOP_PAUSE_MILLIS
    }
}

/// The ending of a child never goes on forever: every step brings it nearer to
/// its end, whatever the looks at the child show, and a state without an
/// action is the end.
pub proof fn lemma_stop_comes_to_an_end(flow: StopFlow, seen: ChildSeen)
    ensures
        flow.spec_action() is Some ==> flow.spec_advance(seen).spec_steps_left()
            < flow.spec_steps_left(),
        flow.spec_action() is None <==> flow is Ended,
        flow.spec_steps_left() <= 2 * STOP_PATIENCE_MILLIS + 5,
{
}

/// A child is killed by force only once the patience is used up, and never
/// after a look has shown that it is gone.
pub proof fn lemma_kill_needs_patience(flow: StopFlow, seen: ChildSeen)
    ensures
        flow.spec_advance(seen) == StopFlow::Killing ==> (flow matches StopFlow::Checking {
            waited,
        } && waited >= STOP_PATIENCE_MILLIS && seen == ChildSeen::Running),
        flow is Checking && seen == ChildSeen::Gone ==> flow.spec_advance(seen) == (
        StopFlow::Ended { forced: false }),
        flow.spec_advance(seen) == (StopFlow::Ended { forced: true }) && !(flow is Ended) ==> flow
            == StopFlow::Killing,
{
}

/// Ends a child that exits `exits_after` milliseconds after it was asked to
/// end, or never: the flow, run to its end with what the looks at such a child
/// show. Tells whether the child had to be killed by force.
pub fn stop_child(exits_after: Option<u64>) -> (forced: bool)
    ensures
        forced == StopFlow::spec_forced(exits_after),
{
    let mut flow = StopFlow::begin();
    let mut clock: u64 = 0;
    let mut seen = ChildSeen::Running;
    loop
        invariant
            clock <= STOP_PATIENCE_MILLIS,
            match flow {
                StopFlow::Begun => clock == 0,
                StopFlow::Checking { waited } => waited == clock,
                StopFlow::Pausing { waited } => waited == clock && clock < STOP_PATIENCE_MILLIS
                    && StopFlow::spec_seen(exits_after, clock) == ChildSeen::Running,
                StopFlow::Killing => StopFlow::spec_forced(exits_after),
                StopFlow::Ended { forced } => forced == StopFlow::spec_forced(exits_after),
            },
        decreases flow.spec_steps_left(),
    {
        match flow.action() {
            Some(StopAction::Check) => {
                seen = look(exits_after, clock);
            },
            Some(StopAction::Pause { millis }) => {
                clock = clock + millis;
            },
            Some(_) => {},
            None => {
                match flow.forced() {
                    Some(forced) => {
                        return forced;
                    },
                    None => {
                        return vstd::pervasive::unreached();
                    },
                }
            },
        }
        proof {
            lemma_stop_comes_to_an_end(flow, seen);
        }
        flow = flow.advance(seen);
    }
}

/// What a look at a child that exits after `exits_after` milliseconds shows
/// after `waited` milliseconds.
fn look(exits_after: Option<u64>, waited: u64) -> (seen: ChildSeen)
    ensures
        seen == StopFlow::spec_seen(exits_after, waited),
{
    match exits_after {
        Some(after) => if after <= waited {
            ChildSeen::Gone
        } else {
            ChildSeen::Running
        },
        None => ChildSeen::Running,
    }
}

} // verus!
