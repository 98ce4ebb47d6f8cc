use vstd::prelude::*;
use rand::Rng;

verus! {

/// How the destination file of a single-file receive is opened.
#[derive(Clone, Copy, Debug, PartialEq, Eq, Structural)]
pub enum V1Open {
    /// Create the file, failing if someone else created it meanwhile.
    CreateNew,
    /// Overwrite the file that is there.
    Truncate,
    /// Leave the file alone and turn the offer down.
    Reject,
}

/// Decides how to open `target_dir / name` for a single-file receive. An
/// existing file is overwritten only with the no-confirm flag or the user's consent.
pub fn v1_open_mode(exists: bool, noconfirm: bool, confirmed: bool) -> (r: V1Open)
    ensures
        !exists ==> r == V1Open::CreateNew,
        exists && (noconfirm || confirmed) ==> r == V1Open::Truncate,
        exists && !noconfirm && !confirmed ==> r == V1Open::Reject,
{
    if !exists {
        V1Open::CreateNew
    } else if noconfirm || confirmed {
        V1Open::Truncate
    } else {
        V1Open::Reject
    }
}

/// Whether asking the user is needed before opening the destination file.
pub fn v1_needs_confirmation(exists: bool, noconfirm: bool) -> (r: bool)
    ensures
        r == (exists && !noconfirm),
{
    exists && !noconfirm
}

/// How a single-file receive ended.
#[derive(Clone, Copy, Debug, PartialEq, Eq, Structural)]
pub enum V1Outcome {
    Completed,
    /// The offer was turned down; no file was touched.
    Rejected,
    Cancelled,
    Failed,
}

/// Where a single-file receive stands.
#[derive(Clone, Copy, Debug, PartialEq, Eq, Structural)]
pub enum V1Stage {
    /// The offer is being turned down.
    Rejecting,
    /// The destination file is being opened.
    Opening,
    /// The file is open; its contents are being received.
    Accepting,
    /// The partly written file is being removed; the outcome is decided.
    Removing(V1Outcome),
    Finished(V1Outcome),
}

/// What became of the last action.
#[derive(Clone, Copy, Debug, PartialEq, Eq, Structural)]
pub enum V1Event {
    Done,
    Failed,
    Cancelled,
}

/// What to do next.
#[derive(Clone, Copy, Debug, PartialEq, Eq, Structural)]
pub enum V1Action {
    RejectOffer,
    OpenFile(V1Open),
    Accept,
    RemoveFile,
    Finish(V1Outcome),
}

pub open spec fn v1_stopped(e: V1Event) -> V1Outcome {
    match e {
        V1Event::Cancelled => V1Outcome::Cancelled,
        _ => V1Outcome::Failed,
    }
}

/// The event that ends an accept: a signaled token makes it a cancellation,
/// whatever the transfer reported.
pub open spec fn accept_event(ok: bool, signaled: bool) -> V1Event {
    if signaled {
        V1Event::Cancelled
    } else if ok {
        V1Event::Done
    } else {
        V1Event::Failed
    }
}

pub open spec fn v1_start(mode: V1Open) -> (V1Stage, V1Action) {
    if mode == V1Open::Reject {
        (V1Stage::Rejecting, V1Action::RejectOffer)
    } else {
        (V1Stage::Opening, V1Action::OpenFile(mode))
    }
}

pub open spec fn v1_next(s: V1Stage, e: V1Event) -> (V1Stage, V1Action) {
    match s {
        V1Stage::Rejecting => if e == V1Event::Done {
            (V1Stage::Finished(V1Outcome::Rejected), V1Action::Finish(V1Outcome::Rejected))
        } else {
            (V1Stage::Finished(V1Outcome::Failed), V1Action::Finish(V1Outcome::Failed))
        },
        V1Stage::Opening => if e == V1Event::Done {
            (V1Stage::Accepting, V1Action::Accept)
        } else {
            (V1Stage::Finished(v1_stopped(e)), V1Action::Finish(v1_stopped(e)))
        },
        V1Stage::Accepting => if e == V1Event::Done {
            (V1Stage::Finished(V1Outcome::Completed), V1Action::Finish(V1Outcome::Completed))
        } else {
            (V1Stage::Removing(v1_stopped(e)), V1Action::RemoveFile)
        },
        V1Stage::Removing(o) => (V1Stage::Finished(o), V1Action::Finish(o)),
        V1Stage::Finished(o) => (V1Stage::Finished(o), V1Action::Finish(o)),
    }
}

/// The lifecycle of one single-file receive.
pub struct V1Receive {
    pub stage: V1Stage,
}

impl V1Receive {
    /// A receive that opens its file as `mode` says, or turns the offer down.
    pub fn new(mode: V1Open) -> (r: (V1Receive, V1Action))
        ensures
            (r.0.stage, r.1) == v1_start(mode),
    {
        match mode {
            V1Open::Reject => (V1Receive { stage: V1Stage::Rejecting }, V1Action::RejectOffer),
            _ => (V1Receive { stage: V1Stage::Opening }, V1Action::OpenFile(mode)),
        }
    }

    /// Takes what became of the last action and returns the next one.
    pub fn step(&mut self, e: V1Event) -> (r: V1Action)
        ensures
            (final(self).stage, r) == v1_next(old(self).stage, e),
    {
        let (done, o) = match e {
            V1Event::Done => (true, V1Outcome::Failed),
            V1Event::Failed => (false, V1Outcome::Failed),
            V1Event::Cancelled => (false, V1Outcome::Cancelled),
        };
        let (s, a) = match self.stage {
            V1Stage::Rejecting => if done {
                (V1Stage::Finished(V1Outcome::Rejected), V1Action::Finish(V1Outcome::Rejected))
            } else {
                (V1Stage::Finished(V1Outcome::Failed), V1Action::Finish(V1Outcome::Failed))
            },
            V1Stage::Opening => if done {
                (V1Stage::Accepting, V1Action::Accept)
            } else {
                (V1Stage::Finished(o), V1Action::Finish(o))
            },
            V1Stage::Accepting => if done {
                (V1Stage::Finished(V1Outcome::Completed), V1Action::Finish(V1Outcome::Completed))
            } else {
                (V1Stage::Removing(o), V1Action::RemoveFile)
            },
            V1Stage::Removing(f) => (V1Stage::Finished(f), V1Action::Finish(f)),
            V1Stage::Finished(f) => (V1Stage::Finished(f), V1Action::Finish(f)),
        };
        self.stage = s;
        a
    }

    /// Takes the end of an accept: whether the transfer reported success and
    /// whether the cancellation token is signaled.
    pub fn step_accept(&mut self, ok: bool, signaled: bool) -> (r: V1Action)
        ensures
            (final(self).stage, r) == v1_next(old(self).stage, accept_event(ok, signaled)),
    {
        let e = if signaled {
            V1Event::Cancelled
        } else if ok {
            V1Event::Done
        } else {
            V1Event::Failed
        };
        self.step(e)
    }

    /// The outcome, once the receive has finished.
    pub fn outcome(&self) -> (r: Option<V1Outcome>)
        ensures
            r matches Some(o) ==> self.stage == V1Stage::Finished(o),
            r is None ==> !(self.stage is Finished),
    {
        match self.stage {
            V1Stage::Finished(o) => Some(o),
            _ => None,
        }
    }
}

/// A signaled token during the accept of a single file ends the receive as
/// cancelled, after the partly written file is removed, whatever the transfer reported.
pub proof fn lemma_v1_cancel_mid_transfer(ok: bool, e2: V1Event)
    ensures
        v1_next(V1Stage::Accepting, accept_event(ok, true)) == (
            V1Stage::Removing(V1Outcome::Cancelled),
            V1Action::RemoveFile,
        ),
        v1_next(V1Stage::Removing(V1Outcome::Cancelled), e2).1 == V1Action::Finish(
            V1Outcome::Cancelled,
        ),
{
}

/// A failed or cancelled accept never leaves its file behind: the file is
/// removed before the receive finishes, and only a successful accept completes.
pub proof fn lemma_v1_failure_removes_file(e: V1Event)
    ensures
        e != V1Event::Done ==> v1_next(V1Stage::Accepting, e).1 == V1Action::RemoveFile,
        e == V1Event::Done <==> v1_next(V1Stage::Accepting, e).1 == V1Action::Finish(
            V1Outcome::Completed,
        ),
{
}

/// One more staging name than there are: staging suffixes are below this.
pub const STAGING_SUFFIX_BOUND: u32 = 1000000;

pub open spec fn digit_char(d: int) -> char {
    (d + 48) as char
}

/// The decimal digits of `n`, zero-padded to six places.
pub open spec fn six_digits(n: int) -> Seq<char> {
    seq![
        digit_char((n / 100000) % 10),
        digit_char((n / 10000) % 10),
        digit_char((n / 1000) % 10),
        digit_char((n / 100) % 10),
        digit_char((n / 10) % 10),
        digit_char(n % 10),
    ]
}

pub open spec fn staging_prefix() -> Seq<char> {
    seq!['w', 'o', 'r', 'm', 'h', 'o', 'l', 'e', '-', 't', 'm', 'p', '-']
}

/// The name of the staging directory with suffix `n`.
pub open spec fn staging_name(n: int) -> Seq<char> {
    staging_prefix() + six_digits(n)
}

fn digit_str(d: u32) -> (r: &'static str)
    requires
        d < 10,
    ensures
        r@ == seq![digit_char(d as int)],
{
    proof {
        reveal_strlit("0");
        reveal_strlit("1");
        reveal_strlit("2");
        reveal_strlit("3");
        reveal_strlit("4");
        reveal_strlit("5");
        reveal_strlit("6");
        reveal_strlit("7");
        reveal_strlit("8");
        reveal_strlit("9");
    }
    match d {
        0 => "0",
        1 => "1",
        2 => "2",
        3 => "3",
        4 => "4",
        5 => "5",
        6 => "6",
        7 => "7",
        8 => "8",
        _ => "9",
    }
}

/// The staging directory name for suffix `n`: `wormhole-tmp-` and six digits.
pub fn staging_dir_name(n: u32) -> (r: String)
    requires
        n < STAGING_SUFFIX_BOUND,
    ensures
        r@ == staging_name(n as int),
{
    proof {
        reveal_strlit("wormhole-tmp-");
    }
    let mut s = String::from_str("wormhole-tmp-");
    s.append(digit_str((n / 100000) % 10));
    s.append(digit_str((n / 10000) % 10));
    s.append(digit_str((n / 1000) % 10));
    s.append(digit_str((n / 100) % 10));
    s.append(digit_str((n / 10) % 10));
    s.append(digit_str(n % 10));
    assert(s@ =~= staging_name(n as int));
    s
}

/// Relies on rand's `thread_rng().gen_range`: a value drawn uniformly from
/// `0..bound`, which panics only on an empty range.
#[verifier::external_body]
fn random_below(bound: u32) -> (r: u32)
    requires
        bound > 0,
    ensures
        r < bound,
{
    rand::thread_rng().gen_range(0..bound)
}

/// A fresh staging directory name with a random six-digit suffix.
pub fn new_staging_dir_name() -> (r: String)
    ensures
        exists|n: int| 0 <= n < STAGING_SUFFIX_BOUND && r@ == staging_name(n),
{
    let n = random_below(STAGING_SUFFIX_BOUND);
    staging_dir_name(n)
}

/// The first destination that is already taken, if any. Promotion goes ahead
/// only where this is `None`, so that entries are promoted all together or not at all.
pub fn first_collision(taken: &Vec<bool>) -> (r: Option<usize>)
    ensures
        r is None <==> forall|k: int| 0 <= k < taken@.len() ==> !taken@[k],
        r matches Some(k) ==> k < taken@.len() && taken@[k as int] && forall|j: int|
            0 <= j < k ==> !taken@[j],
{
    let mut k: usize = 0;
    while k < taken.len()
        invariant
            k <= taken@.len(),
            forall|j: int| 0 <= j < k ==> !taken@[j],
        decreases taken@.len() - k,
    {
        if taken[k] {
            return Some(k);
        }
        k = k + 1;
    }
    None
}

} // verus!
