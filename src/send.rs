use vstd::prelude::*;

verus! {

/// How a send ended.
#[derive(Clone, Copy, Debug, PartialEq, Eq, Structural)]
pub enum SendOutcome {
    Completed,
    Cancelled,
    Failed,
}

/// Where a send stands, once its offer is built.
#[derive(Clone, Copy, Debug, PartialEq, Eq, Structural)]
pub enum SendStage {
    /// The offer is built; a mailbox is being created.
    Built,
    /// The mailbox and its code exist; the peer is awaited.
    MailboxCreated,
    /// The channel is up; the offer is being streamed.
    Connected,
    Finished(SendOutcome),
}

/// What became of the last action.
#[derive(Clone, Copy, Debug, PartialEq, Eq, Structural)]
pub enum SendEvent {
    Done,
    Failed,
    Cancelled,
}

/// What to do next.
#[derive(Clone, Copy, Debug, PartialEq, Eq, Structural)]
pub enum SendAction {
    CreateMailbox,
    /// Show the code to the user, then wait for the peer.
    ConnectPeer,
    SendOffer,
    Finish(SendOutcome),
}

pub open spec fn stopped(e: SendEvent) -> SendOutcome {
    match e {
        SendEvent::Cancelled => SendOutcome::Cancelled,
        _ => SendOutcome::Failed,
    }
}

/// The event that ends the streaming of an offer: a signaled token makes it a
/// cancellation, whatever the transfer reported.
pub open spec fn send_accept_event(ok: bool, signaled: bool) -> SendEvent {
    if signaled {
        SendEvent::Cancelled
    } else if ok {
        SendEvent::Done
    } else {
        SendEvent::Failed
    }
}

pub open spec fn send_next(s: SendStage, e: SendEvent) -> (SendStage, SendAction) {
    match s {
        SendStage::Built => if e == SendEvent::Done {
            (SendStage::MailboxCreated, SendAction::ConnectPeer)
        } else {
            (SendStage::Finished(stopped(e)), SendAction::Finish(stopped(e)))
        },
        SendStage::MailboxCreated => if e == SendEvent::Done {
            (SendStage::Connected, SendAction::SendOffer)
        } else {
            (SendStage::Finished(stopped(e)), SendAction::Finish(stopped(e)))
        },
        SendStage::Connected => if e == SendEvent::Done {
            (SendStage::Finished(SendOutcome::Completed), SendAction::Finish(SendOutcome::Completed))
        } else {
            (SendStage::Finished(stopped(e)), SendAction::Finish(stopped(e)))
        },
        SendStage::Finished(o) => (SendStage::Finished(o), SendAction::Finish(o)),
    }
}

/// The lifecycle of one send.
pub struct SendSession {
    pub stage: SendStage,
}

impl SendSession {
    /// A send whose offer is built and which next creates a mailbox.
    pub fn new() -> (r: (SendSession, SendAction))
        ensures
            r.0.stage == SendStage::Built,
            r.1 == SendAction::CreateMailbox,
    {
        (SendSession { stage: SendStage::Built }, SendAction::CreateMailbox)
    }

    /// Takes what became of the last action and returns the next one.
    pub fn step(&mut self, e: SendEvent) -> (r: SendAction)
        ensures
            (final(self).stage, r) == send_next(old(self).stage, e),
    {
        let (done, o) = match e {
            SendEvent::Done => (true, SendOutcome::Failed),
            SendEvent::Failed => (false, SendOutcome::Failed),
            SendEvent::Cancelled => (false, SendOutcome::Cancelled),
        };
        let (s, a) = match self.stage {
            SendStage::Built => if done {
                (SendStage::MailboxCreated, SendAction::ConnectPeer)
            } else {
                (SendStage::Finished(o), SendAction::Finish(o))
            },
            SendStage::MailboxCreated => if done {
                (SendStage::Connected, SendAction::SendOffer)
            } else {
                (SendStage::Finished(o), SendAction::Finish(o))
            },
            SendStage::Connected => if done {
                (
                    SendStage::Finished(SendOutcome::Completed),
                    SendAction::Finish(SendOutcome::Completed),
                )
            } else {
                (SendStage::Finished(o), SendAction::Finish(o))
            },
            SendStage::Finished(f) => (SendStage::Finished(f), SendAction::Finish(f)),
        };
        self.stage = s;
        a
    }

    /// Takes the end of the streaming: whether the transfer reported success
    /// and whether the cancellation token is signaled.
    pub fn step_stream(&mut self, ok: bool, signaled: bool) -> (r: SendAction)
        ensures
            (final(self).stage, r) == send_next(old(self).stage, send_accept_event(ok, signaled)),
    {
        let e = if signaled {
            SendEvent::Cancelled
        } else if ok {
            SendEvent::Done
        } else {
            SendEvent::Failed
        };
        self.step(e)
    }
}

/// A signaled token while the offer is streamed ends the send as cancelled,
/// whatever the transfer reported.
pub proof fn lemma_send_cancel_mid_transfer(ok: bool)
    ensures
        send_next(SendStage::Connected, send_accept_event(ok, true)) == (
            SendStage::Finished(SendOutcome::Cancelled),
            SendAction::Finish(SendOutcome::Cancelled),
        ),
{
}

/// A send completes only from a streamed offer that succeeded, and the code is
/// shown before the peer is awaited.
pub proof fn lemma_send_completes_only_after_streaming(s: SendStage, e: SendEvent)
    ensures
        !(s is Finished) && send_next(s, e).1 == SendAction::Finish(SendOutcome::Completed) ==> s
            == SendStage::Connected && e == SendEvent::Done,
        send_next(SendStage::Built, SendEvent::Done).1 == SendAction::ConnectPeer,
{
}

} // verus!
