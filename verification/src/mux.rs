//! The multiplexer: many callers, one client connection.
//!
//! Callers queue requests; each request carries its own reply handle. The
//! multiplexer takes one request at a time, has the matching call made on
//! the client, and hands the outcome of that call to the handle of that
//! request. Like a session it is a state machine whose outside work (taking
//! the next request off the queue, making the call) is done by the caller.

use vstd::prelude::*;

verus! {

/// The sending end of a one-shot channel, `oneshot::Sender`: the handle
/// through which one reply goes back to the caller that waits for it.
#[verifier::external_type_specification]
#[verifier::external_body]
#[verifier::reject_recursive_types(T)]
pub struct ExSender<T>(oneshot::Sender<T>);

/// Why a call on the client failed.
#[derive(Debug, PartialEq, Eq)]
pub struct ClientError {
    pub message: String,
}

/// The reply to a get: the value, or `None` where the key is absent.
pub type GetReply = Result<Option<Vec<u8>>, ClientError>;

/// The reply to a set.
pub type SetReply = Result<(), ClientError>;

/// What a caller asks for, with the handle on which it waits for the reply.
#[derive(Debug)]
#[allow(inconsistent_fields)]
pub enum Request {
    Get { key: String, reply: oneshot::Sender<GetReply> },
    SetKey { key: String, value: Vec<u8>, reply: oneshot::Sender<SetReply> },
}

/// The call to make on the client.
#[derive(Debug, PartialEq, Eq)]
pub enum Call {
    Get { key: String },
    SetKey { key: String, value: Vec<u8> },
}

/// The reply handle of the request that is being served.
#[derive(Debug)]
pub enum Pending {
    Get(oneshot::Sender<GetReply>),
    SetKey(oneshot::Sender<SetReply>),
}

/// What a call on the client returned.
#[derive(Debug, PartialEq, Eq)]
pub enum Outcome {
    Get(GetReply),
    SetKey(SetReply),
}

/// A reply on its way: the handle of a request and the outcome of the call
/// that was made for it.
#[derive(Debug)]
#[allow(inconsistent_fields)]
pub enum Delivery {
    Get { reply: oneshot::Sender<GetReply>, payload: GetReply },
    SetKey { reply: oneshot::Sender<SetReply>, payload: SetReply },
}

/// The state of the multiplexer.
#[derive(Debug)]
pub enum Multiplexer {
    /// Ready for the next request of the queue.
    Waiting,
    /// `call` is being made on the client; its outcome goes to `pending`.
    Calling { call: Call, pending: Pending },
    /// The queue is closed and empty.
    Stopped,
}

impl Request {
    /// The call that serves this request.
    pub open spec fn call(self) -> Call {
        match self {
            Request::Get { key, .. } => Call::Get { key },
            Request::SetKey { key, value, .. } => Call::SetKey { key, value },
        }
    }

    /// The handle on which the caller of this request waits.
    pub open spec fn pending(self) -> Pending {
        match self {
            Request::Get { reply, .. } => Pending::Get(reply),
            Request::SetKey { reply, .. } => Pending::SetKey(reply),
        }
    }
}

impl Pending {
    /// Whether `outcome` is of the kind that this handle carries.
    pub open spec fn expects(self, outcome: Outcome) -> bool {
        match (self, outcome) {
            (Pending::Get(_), Outcome::Get(_)) => true,
            (Pending::SetKey(_), Outcome::SetKey(_)) => true,
            _ => false,
        }
    }

    /// The delivery of `outcome` to this handle, where the handle expects it.
    pub open spec fn delivery(self, outcome: Outcome) -> Option<Delivery> {
        match (self, outcome) {
            (Pending::Get(reply), Outcome::Get(payload)) => Some(Delivery::Get { reply, payload }),
            (Pending::SetKey(reply), Outcome::SetKey(payload)) => Some(
                Delivery::SetKey { reply, payload },
            ),
            _ => None,
        }
    }
}

impl Delivery {
    /// The handle to which this delivery goes.
    pub open spec fn handle(self) -> Pending {
        match self {
            Delivery::Get { reply, .. } => Pending::Get(reply),
            Delivery::SetKey { reply, .. } => Pending::SetKey(reply),
        }
    }

    /// The outcome that this delivery carries.
    pub open spec fn outcome(self) -> Outcome {
        match self {
            Delivery::Get { payload, .. } => Outcome::Get(payload),
            Delivery::SetKey { payload, .. } => Outcome::SetKey(payload),
        }
    }

    /// Sends the reply to the caller. Returns whether the caller still
    /// waited for it; a caller that gave up is no error, and its reply is
    /// discarded.
    pub fn send(self) -> (delivered: bool) {
        match self {
            Delivery::Get { reply, payload } => send_reply(reply, payload),
            Delivery::SetKey { reply, payload } => send_reply(reply, payload),
        }
    }
}

/// Calls `oneshot::Sender::send`, which hands `message` to the receiving end
/// of the channel and fails where that end was dropped before. Returns
/// whether it succeeded. Nothing is claimed of the result: it depends on
/// what the receiving side did.
#[verifier::external_body]
fn send_reply<T>(reply: oneshot::Sender<T>, message: T) -> (delivered: bool) {
    reply.send(message).is_ok()
}

impl Multiplexer {
    /// The state in which the multiplexer starts.
    pub fn start() -> (multiplexer: Multiplexer)
        ensures
            multiplexer == Multiplexer::Waiting,
    {
        Multiplexer::Waiting
    }

    /// The state after the queue yielded `next`: a waiting multiplexer
    /// starts the call of a request and stops at the end of the queue; in
    /// any other state nothing changes.
    pub open spec fn after_request(self, next: Option<Request>) -> Multiplexer {
        match self {
            Multiplexer::Waiting => match next {
                Some(request) => Multiplexer::Calling {
                    call: request.call(),
                    pending: request.pending(),
                },
                None => Multiplexer::Stopped,
            },
            _ => self,
        }
    }

    /// The reply that goes out when the client call returns `outcome`: the
    /// outcome, to the handle of the request for which the call was made.
    pub open spec fn reply_to(self, outcome: Outcome) -> Option<Delivery> {
        match self {
            Multiplexer::Calling { pending, .. } => pending.delivery(outcome),
            _ => None,
        }
    }

    /// The state after the client call returned `outcome`: the multiplexer
    /// waits for the next request. An outcome that the pending handle does
    /// not expect, or one that comes while no call is made, changes nothing.
    pub open spec fn after_outcome(self, outcome: Outcome) -> Multiplexer {
        if self.reply_to(outcome) is Some {
            Multiplexer::Waiting
        } else {
            self
        }
    }

    /// Reports what the queue yielded: a request, or `None` once the queue
    /// is closed and empty. A request that is reported while the multiplexer
    /// is not waiting is dropped, and its caller finds the channel closed.
    pub fn received(self, next: Option<Request>) -> (state: Multiplexer)
        ensures
            state == self.after_request(next),
    {
        match self {
            Multiplexer::Waiting => match next {
                Some(Request::Get { key, reply }) => Multiplexer::Calling {
                    call: Call::Get { key },
                    pending: Pending::Get(reply),
                },
                Some(Request::SetKey { key, value, reply }) => Multiplexer::Calling {
                    call: Call::SetKey { key, value },
                    pending: Pending::SetKey(reply),
                },
                None => Multiplexer::Stopped,
            },
            other => other,
        }
    }

    /// Works out what follows from `outcome`, the result of the client call:
    /// the next state and the reply to send, if one is due. Sends nothing.
    pub fn resolve(self, outcome: Outcome) -> (step: (Multiplexer, Option<Delivery>))
        ensures
            step.0 == self.after_outcome(outcome),
            step.1 == self.reply_to(outcome),
    {
        match self {
            Multiplexer::Calling { call, pending } => match (pending, outcome) {
                (Pending::Get(reply), Outcome::Get(payload)) => (
                    Multiplexer::Waiting,
                    Some(Delivery::Get { reply, payload }),
                ),
                (Pending::SetKey(reply), Outcome::SetKey(payload)) => (
                    Multiplexer::Waiting,
                    Some(Delivery::SetKey { reply, payload }),
                ),
                (pending, _) => (Multiplexer::Calling { call, pending }, None),
            },
            other => (other, None),
        }
    }

    /// Reports what the client call returned, and sends the reply that
    /// `resolve` works out. Whether the caller still waited for the reply
    /// makes no difference to the multiplexer.
    pub fn completed(self, outcome: Outcome) -> (state: Multiplexer)
        ensures
            state == self.after_outcome(outcome),
    {
        let (state, delivery) = self.resolve(outcome);
        match delivery {
            Some(delivery) => {
                let _delivered = delivery.send();
            },
            None => {},
        }
        state
    }
}

/// A reply never goes astray and never stops the multiplexer. In whatever
/// state the multiplexer is and whatever outcome is reported, a reply goes
/// out only while a call is made, it goes to the handle of the request for
/// which the call was made, and it carries the outcome reported; and the
/// multiplexer is stopped afterwards only where it was stopped before.
pub proof fn lemma_reply_goes_to_the_pending_handle(state: Multiplexer, outcome: Outcome)
    ensures
        state.reply_to(outcome) matches Some(delivery) ==> {
            &&& state matches Multiplexer::Calling { pending, .. }
            &&& delivery.handle() == pending
            &&& delivery.outcome() == outcome
        },
        state.after_outcome(outcome) is Stopped ==> state is Stopped,
{
}

/// The state of a multiplexer that started out waiting and then served
/// `requests` in their order, the call for `requests[i]` having returned
/// `outcomes[i]`.
pub open spec fn state_after(requests: Seq<Request>, outcomes: Seq<Outcome>) -> Multiplexer
    decreases requests.len(),
{
    if requests.len() == 0 {
        Multiplexer::Waiting
    } else {
        state_after(requests.drop_last(), outcomes.drop_last()).after_request(
            Some(requests.last()),
        ).after_outcome(outcomes.last())
    }
}

/// The replies that went out on the way to `state_after(requests, outcomes)`,
/// one entry for each request, in the order of the requests.
pub open spec fn replies(requests: Seq<Request>, outcomes: Seq<Outcome>) -> Seq<Option<Delivery>>
    decreases requests.len(),
{
    if requests.len() == 0 {
        Seq::empty()
    } else {
        replies(requests.drop_last(), outcomes.drop_last()).push(
            state_after(requests.drop_last(), outcomes.drop_last()).after_request(
                Some(requests.last()),
            ).reply_to(outcomes.last()),
        )
    }
}

/// Whether the call for each request returned an outcome of the kind of
/// that request.
pub open spec fn outcomes_match(requests: Seq<Request>, outcomes: Seq<Outcome>) -> bool {
    &&& requests.len() == outcomes.len()
    &&& forall|i: int|
        0 <= i < requests.len() ==> (#[trigger] requests[i]).pending().expects(outcomes[i])
}

/// Whether no two requests share a reply handle.
pub open spec fn handles_differ(requests: Seq<Request>) -> bool {
    forall|i: int, j: int|
        0 <= i < requests.len() && 0 <= j < requests.len() && i != j ==> (
        #[trigger] requests[i]).pending() != (#[trigger] requests[j]).pending()
}

/// Every request is answered exactly once and with its own outcome. Where
/// the multiplexer serves `requests` and the call for each returns an
/// outcome of its kind, it is waiting again at the end, one reply went out
/// for each request, and the reply for a request went to the handle of that
/// request and carries the outcome of the call made for that request. Where
/// no two requests share a handle, no other reply went to that handle.
pub proof fn lemma_each_request_gets_its_own_reply(requests: Seq<Request>, outcomes: Seq<Outcome>)
    requires
        outcomes_match(requests, outcomes),
    ensures
        state_after(requests, outcomes) == Multiplexer::Waiting,
        replies(requests, outcomes).len() == requests.len(),
        forall|i: int|
            0 <= i < requests.len() ==> {
                &&& (#[trigger] replies(requests, outcomes)[i]) matches Some(delivery)
                &&& delivery.handle() == requests[i].pending()
                &&& delivery.outcome() == outcomes[i]
            },
        handles_differ(requests) ==> forall|i: int, j: int|
            0 <= i < requests.len() && 0 <= j < requests.len() && (#[trigger] replies(
                requests,
                outcomes,
            )[j])->0.handle() == (#[trigger] requests[i]).pending() ==> i == j,
    decreases requests.len(),
{
    if requests.len() > 0 {
        let earlier = requests.drop_last();
        let earlier_outcomes = outcomes.drop_last();
        assert(outcomes_match(earlier, earlier_outcomes)) by {
            assert forall|i: int| 0 <= i < earlier.len() implies (#[trigger] earlier[i]).pending().expects(
                earlier_outcomes[i],
            ) by {
                assert(earlier[i] == requests[i]);
            }
        }
        lemma_each_request_gets_its_own_reply(earlier, earlier_outcomes);
        let last = requests.len() - 1;
        assert(requests[last].pending().expects(outcomes[last]));
        assert forall|i: int| 0 <= i < requests.len() implies {
            &&& (#[trigger] replies(requests, outcomes)[i]) matches Some(delivery)
            &&& delivery.handle() == requests[i].pending()
            &&& delivery.outcome() == outcomes[i]
        } by {
            if i < last {
                assert(replies(requests, outcomes)[i] == replies(earlier, earlier_outcomes)[i]);
                assert(earlier[i] == requests[i]);
            }
        }
    }
}

} // verus!
