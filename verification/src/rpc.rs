//! Request/response correlation for the Studio RPC client.
//!
//! The client sends one request at a time and then reads decoded frames until
//! the reply carrying its correlation id arrives. Everything the loop decides
//! is here: what each incoming event means for the pending request. The
//! surrounding application owns the transport, the clock and the awaits; it
//! feeds each outcome of one wait into [`request_step`] and acts on the
//! verdict.
//!
//! The overall deadline is checked between iterations while each wait carries
//! its own timeout, so a run of non-matching frames each arriving just under
//! the per-wait timeout can stretch the total wait past the nominal deadline;
//! that slack is a deliberate part of the policy.

use vstd::prelude::*;

verus! {

use vstd::string::StringExecFns;

/// A decoded response frame of the RPC envelope.
#[derive(Debug, Clone, PartialEq)]
pub enum Response {
    /// The reply to some request, carrying its correlation id and the
    /// subsystem payload bytes.
    RequestResponse { request_id: u32, payload: Vec<u8> },
    /// An unsolicited notification; this layer discards it.
    Notification(Vec<u8>),
    /// A frame that decoded but carried no recognised variant.
    Empty,
}

/// One outcome of waiting for the next frame while a request is pending.
#[derive(Debug, Clone, PartialEq)]
pub enum RecvEvent {
    /// A frame arrived and decoded as a response.
    Frame(Response),
    /// The per-iteration wait expired before a frame arrived.
    WaitTimedOut,
    /// The overall deadline had already passed when the loop came around.
    DeadlineElapsed,
    /// The transport failed or closed; the text is the transport's error.
    TransportFailed(String),
    /// A frame arrived but did not decode as a response; the text is the
    /// decoder's error.
    DecodeFailed(String),
}

/// The verdict of one correlation step.
#[derive(Debug, PartialEq)]
pub enum Step {
    /// Keep waiting: the event was a notification, an empty response, or a
    /// reply to some other request.
    Continue,
    /// The exchange is over: the matching reply's payload, or the error to
    /// surface to the caller.
    Done(Result<Vec<u8>, String>),
}

/// Decide what one receive-loop event means for the request with the given
/// correlation id. Exactly the reply carrying that id ends the exchange with
/// success; stale replies and notifications are discarded; timeouts and
/// transport or decode failures end it with the corresponding error.
pub fn request_step(request_id: u32, event: RecvEvent) -> (r: Step)
    ensures
        (match event {
            RecvEvent::DeadlineElapsed => r matches Step::Done(res) && res matches Err(e)
                && e@ == "Request timed out"@,
            RecvEvent::WaitTimedOut => r matches Step::Done(res) && res matches Err(e) && e@
                == "Receive timed out"@,
            RecvEvent::TransportFailed(t) => r matches Step::Done(res) && res matches Err(e) && e@
                == "Receive error: "@ + t@,
            RecvEvent::DecodeFailed(t) => r matches Step::Done(res) && res matches Err(e) && e@
                == "Decode error: "@ + t@,
            RecvEvent::Frame(resp) => match resp {
                Response::RequestResponse { request_id: rid, payload } => if rid == request_id {
                    r matches Step::Done(res) && res matches Ok(p) && p@ == payload@
                } else {
                    r == Step::Continue
                },
                Response::Notification(_) => r == Step::Continue,
                Response::Empty => r == Step::Continue,
            },
        }),
{
    match event {
        RecvEvent::DeadlineElapsed => Step::Done(Err(String::from_str("Request timed out"))),
        RecvEvent::WaitTimedOut => Step::Done(Err(String::from_str("Receive timed out"))),
        RecvEvent::TransportFailed(t) => {
            let mut e = String::from_str("Receive error: ");
            e.append(t.as_str());
            Step::Done(Err(e))
        },
        RecvEvent::DecodeFailed(t) => {
            let mut e = String::from_str("Decode error: ");
            e.append(t.as_str());
            Step::Done(Err(e))
        },
        RecvEvent::Frame(resp) => match resp {
            Response::RequestResponse { request_id: rid, payload } => {
                if rid == request_id {
                    Step::Done(Ok(payload))
                } else {
                    Step::Continue
                }
            },
            Response::Notification(_) => Step::Continue,
            Response::Empty => Step::Continue,
        },
    }
}

/// Allocates correlation ids: monotonically increasing from 1, wrapping at
/// the end of the 32-bit space. The id space is large enough that reuse while
/// a call is outstanding does not happen in practice.
#[derive(Debug)]
pub struct RequestIdCounter {
    next: u32,
}

impl RequestIdCounter {
    /// The id the next allocation will return.
    pub closed spec fn next_id(&self) -> u32 {
        self.next
    }

    /// A fresh counter, whose first id is 1.
    pub fn new() -> (c: RequestIdCounter)
        ensures
            c.next_id() == 1,
    {
        RequestIdCounter { next: 1 }
    }

    /// Take the next id.
    pub fn allocate(&mut self) -> (id: u32)
        ensures
            id == old(self).next_id(),
            final(self).next_id() == (if old(self).next_id() == u32::MAX {
                0u32
            } else {
                (old(self).next_id() + 1) as u32
            }),
    {
        let id = self.next;
        self.next = if self.next == u32::MAX {
            0
        } else {
            self.next + 1
        };
        id
    }
}

} // verus!
