use vstd::prelude::*;

verus! {

/// How a multi-item receive ended.
#[derive(Clone, Copy, Debug, PartialEq, Eq, Structural)]
pub enum V2Outcome {
    Completed,
    Cancelled,
    Failed,
    /// A destination entry already existed; nothing was promoted.
    Collision,
    /// Everything was promoted but the staging directory could not be removed.
    CleanupFailed,
}

/// Where a multi-item receive stands.
#[derive(Clone, Copy, Debug, PartialEq, Eq, Structural)]
pub enum V2Stage {
    /// The staging directory is being created.
    Start,
    /// The staging directory exists; the directory skeleton is being created.
    Staged,
    /// The skeleton exists; file contents are being received.
    Prepared,
    /// All contents are in; entries are being promoted.
    Received,
    /// The staging directory is being removed; the outcome is decided.
    Cleaning(V2Outcome),
    Finished(V2Outcome),
}

/// What became of the last action.
#[derive(Clone, Copy, Debug, PartialEq, Eq, Structural)]
pub enum V2Event {
    Done,
    Failed,
    Cancelled,
    /// Promotion found a destination entry already taken.
    Collided,
    /// Removal found no staging directory: nothing to remove.
    Missing,
}

/// What to do next.
#[derive(Clone, Copy, Debug, PartialEq, Eq, Structural)]
pub enum V2Action {
    CreateStaging,
    CreateDirectories,
    Accept,
    Promote,
    RemoveStaging,
    Finish(V2Outcome),
}

/// The outcome of a receive whose work ended with `e`.
pub open spec fn interrupted(e: V2Event) -> V2Outcome {
    match e {
        V2Event::Cancelled => V2Outcome::Cancelled,
        V2Event::Collided => V2Outcome::Collision,
        _ => V2Outcome::Failed,
    }
}

/// The outcome once removal of the staging directory ended with `e`.
pub open spec fn after_cleanup(o: V2Outcome, e: V2Event) -> V2Outcome {
    match e {
        V2Event::Done | V2Event::Missing => o,
        _ => if o == V2Outcome::Completed {
            V2Outcome::CleanupFailed
        } else {
            o
        },
    }
}

pub open spec fn v2_next(s: V2Stage, e: V2Event) -> (V2Stage, V2Action) {
    match s {
        V2Stage::Start => if e == V2Event::Done {
            (V2Stage::Staged, V2Action::CreateDirectories)
        } else {
            (V2Stage::Finished(interrupted(e)), V2Action::Finish(interrupted(e)))
        },
        V2Stage::Staged => if e == V2Event::Done {
            (V2Stage::Prepared, V2Action::Accept)
        } else {
            (V2Stage::Cleaning(interrupted(e)), V2Action::RemoveStaging)
        },
        V2Stage::Prepared => if e == V2Event::Done {
            (V2Stage::Received, V2Action::Promote)
        } else {
            (V2Stage::Cleaning(interrupted(e)), V2Action::RemoveStaging)
        },
        V2Stage::Received => if e == V2Event::Done {
            (V2Stage::Cleaning(V2Outcome::Completed), V2Action::RemoveStaging)
        } else {
            (V2Stage::Cleaning(interrupted(e)), V2Action::RemoveStaging)
        },
        V2Stage::Cleaning(o) => (
            V2Stage::Finished(after_cleanup(o, e)),
            V2Action::Finish(after_cleanup(o, e)),
        ),
        V2Stage::Finished(o) => (V2Stage::Finished(o), V2Action::Finish(o)),
    }
}

/// The event that ends an accept: a signaled token makes it a cancellation,
/// whatever the transfer reported.
pub open spec fn v2_accept_event(ok: bool, signaled: bool) -> V2Event {
    if signaled {
        V2Event::Cancelled
    } else if ok {
        V2Event::Done
    } else {
        V2Event::Failed
    }
}

/// Whether the staging directory may exist in stage `s`.
pub open spec fn staging_live(s: V2Stage) -> bool {
    s is Staged || s is Prepared || s is Received
}

/// The lifecycle of one multi-item receive into a staging directory.
pub struct V2Receive {
    pub stage: V2Stage,
}

impl V2Receive {
    /// A receive that begins by creating its staging directory.
    pub fn new() -> (r: (V2Receive, V2Action))
        ensures
            r.0.stage == V2Stage::Start,
            r.1 == V2Action::CreateStaging,
    {
        (V2Receive { stage: V2Stage::Start }, V2Action::CreateStaging)
    }

    /// Takes what became of the last action and returns the next one.
    pub fn step(&mut self, e: V2Event) -> (r: V2Action)
        ensures
            (final(self).stage, r) == v2_next(old(self).stage, e),
    {
        let o_int = match e {
            V2Event::Cancelled => V2Outcome::Cancelled,
            V2Event::Collided => V2Outcome::Collision,
            _ => V2Outcome::Failed,
        };
        let done = match e {
            V2Event::Done => true,
            _ => false,
        };
        let (s, a) = match self.stage {
            V2Stage::Start => if done {
                (V2Stage::Staged, V2Action::CreateDirectories)
            } else {
                (V2Stage::Finished(o_int), V2Action::Finish(o_int))
            },
            V2Stage::Staged => if done {
                (V2Stage::Prepared, V2Action::Accept)
            } else {
                (V2Stage::Cleaning(o_int), V2Action::RemoveStaging)
            },
            V2Stage::Prepared => if done {
                (V2Stage::Received, V2Action::Promote)
            } else {
                (V2Stage::Cleaning(o_int), V2Action::RemoveStaging)
            },
            V2Stage::Received => if done {
                (V2Stage::Cleaning(V2Outcome::Completed), V2Action::RemoveStaging)
            } else {
                (V2Stage::Cleaning(o_int), V2Action::RemoveStaging)
            },
            V2Stage::Cleaning(o) => {
                let removed = match e {
                    V2Event::Done | V2Event::Missing => true,
                    _ => false,
                };
                let f = if removed {
                    o
                } else {
                    match o {
                        V2Outcome::Completed => V2Outcome::CleanupFailed,
                        _ => o,
                    }
                };
                (V2Stage::Finished(f), V2Action::Finish(f))
            },
            V2Stage::Finished(o) => (V2Stage::Finished(o), V2Action::Finish(o)),
        };
        self.stage = s;
        a
    }

    /// Takes the end of an accept: whether the transfer reported success and
    /// whether the cancellation token is signaled.
    pub fn step_accept(&mut self, ok: bool, signaled: bool) -> (r: V2Action)
        ensures
            (final(self).stage, r) == v2_next(old(self).stage, v2_accept_event(ok, signaled)),
    {
        let e = if signaled {
            V2Event::Cancelled
        } else if ok {
            V2Event::Done
        } else {
            V2Event::Failed
        };
        self.step(e)
    }

    /// The outcome, once the receive has finished.
    pub fn outcome(&self) -> (r: Option<V2Outcome>)
        ensures
            r matches Some(o) ==> self.stage == V2Stage::Finished(o),
            r is None ==> !(self.stage is Finished),
    {
        match self.stage {
            V2Stage::Finished(o) => Some(o),
            _ => None,
        }
    }
}

/// While the staging directory may exist, no event finishes the receive: every
/// exit path first removes the staging directory, and removal always leads to the end.
pub proof fn lemma_cleanup_on_every_exit(s: V2Stage, e: V2Event, e2: V2Event)
    ensures
        staging_live(s) ==> !(v2_next(s, e).1 is Finish),
        staging_live(s) && !staging_live(v2_next(s, e).0) ==> v2_next(s, e).1
            == V2Action::RemoveStaging,
        v2_next(s, e).1 == V2Action::RemoveStaging ==> v2_next(v2_next(s, e).0, e2).1 is Finish,
{
}

/// A signaled token while contents are being received ends the receive, after
/// the staging directory is removed, as cancelled, whatever the transfer or the
/// removal reported.
pub proof fn lemma_cancel_mid_transfer(ok: bool, e2: V2Event)
    ensures
        v2_next(V2Stage::Prepared, v2_accept_event(ok, true)) == (
            V2Stage::Cleaning(V2Outcome::Cancelled),
            V2Action::RemoveStaging,
        ),
        v2_next(V2Stage::Cleaning(V2Outcome::Cancelled), e2).1 == V2Action::Finish(
            V2Outcome::Cancelled,
        ),
{
}

/// Removing a staging directory that is already gone changes no outcome.
pub proof fn lemma_missing_staging_is_no_op(o: V2Outcome)
    ensures
        v2_next(V2Stage::Cleaning(o), V2Event::Missing) == (
            V2Stage::Finished(o),
            V2Action::Finish(o),
        ),
{
}

/// A collision at promotion removes the staging directory and ends as a collision.
pub proof fn lemma_collision_aborts(e2: V2Event)
    ensures
        v2_next(V2Stage::Received, V2Event::Collided) == (
            V2Stage::Cleaning(V2Outcome::Collision),
            V2Action::RemoveStaging,
        ),
        v2_next(V2Stage::Cleaning(V2Outcome::Collision), e2).1 == V2Action::Finish(
            V2Outcome::Collision,
        ),
{
}

/// Where every action succeeds, the receive creates the skeleton, accepts,
/// promotes, removes the staging directory and completes.
pub proof fn lemma_success_path()
    ensures
        v2_next(V2Stage::Start, V2Event::Done).1 == V2Action::CreateDirectories,
        v2_next(V2Stage::Staged, V2Event::Done).1 == V2Action::Accept,
        v2_next(V2Stage::Prepared, V2Event::Done).1 == V2Action::Promote,
        v2_next(V2Stage::Received, V2Event::Done).1 == V2Action::RemoveStaging,
        v2_next(V2Stage::Cleaning(V2Outcome::Completed), V2Event::Done).1 == V2Action::Finish(
            V2Outcome::Completed,
        ),
{
}

} // verus!
