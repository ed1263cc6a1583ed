use vstd::prelude::*;

verus! {

/// Where a delivery attempt stands. An attempt starts at `Composed`, moves
/// forward only, and ends in `Delivered`, `TransportFailed` or
/// `SigningFailed`.
#[derive(Debug, Clone, Copy, PartialEq, Eq, Structural)]
pub enum DeliveryState {
    /// The document is there; nothing is computed yet.
    Composed,
    /// The `Digest` header value is computed.
    Digested,
    /// Date, signing string and `Signature` header value are computed.
    Signed,
    /// The request was handed to the transport.
    Sent,
    /// The remote answered.
    Delivered,
    /// The exchange failed or ran out of time.
    TransportFailed,
    /// The digest, the key or the signature failed.
    SigningFailed,
}

/// What can happen to a delivery attempt.
#[derive(Debug, Clone, Copy, PartialEq, Eq, Structural)]
pub enum DeliveryEvent {
    DigestComputed,
    SignatureComputed,
    SigningFailed,
    RequestDispatched,
    ResponseReceived,
    TransportFailed,
}

impl DeliveryState {
    /// An attempt in a terminal state is over.
    pub open spec fn is_terminal(self) -> bool {
        self is Delivered || self is TransportFailed || self is SigningFailed
    }

    /// How far an attempt has come.
    pub open spec fn rank(self) -> nat {
        match self {
            DeliveryState::Composed => 0,
            DeliveryState::Digested => 1,
            DeliveryState::Signed => 2,
            DeliveryState::Sent => 3,
            _ => 4,
        }
    }

    /// From here on the `Digest` header value is known.
    pub open spec fn has_digest(self) -> bool {
        self is Digested || self.has_signature()
    }

    /// From here on the signature material is known.
    pub open spec fn has_signature(self) -> bool {
        self is Signed || self is Sent || self is Delivered || self is TransportFailed
    }

    /// Whether the attempt is over.
    pub fn terminal(self) -> (b: bool)
        ensures
            b == self.is_terminal(),
    {
        match self {
            DeliveryState::Delivered => true,
            DeliveryState::TransportFailed => true,
            DeliveryState::SigningFailed => true,
            _ => false,
        }
    }
}

/// The state that `event` leads to from `state`, if it may happen there.
pub open spec fn next_state(state: DeliveryState, event: DeliveryEvent) -> Option<DeliveryState> {
    match (state, event) {
        (DeliveryState::Composed, DeliveryEvent::DigestComputed) => Some(DeliveryState::Digested),
        (DeliveryState::Composed, DeliveryEvent::SigningFailed) => Some(
            DeliveryState::SigningFailed,
        ),
        (DeliveryState::Digested, DeliveryEvent::SignatureComputed) => Some(DeliveryState::Signed),
        (DeliveryState::Digested, DeliveryEvent::SigningFailed) => Some(
            DeliveryState::SigningFailed,
        ),
        (DeliveryState::Signed, DeliveryEvent::RequestDispatched) => Some(DeliveryState::Sent),
        (DeliveryState::Sent, DeliveryEvent::ResponseReceived) => Some(DeliveryState::Delivered),
        (DeliveryState::Sent, DeliveryEvent::TransportFailed) => Some(
            DeliveryState::TransportFailed,
        ),
        _ => None,
    }
}

/// The state after a sequence of events, if each may happen in its turn.
pub open spec fn state_after(state: DeliveryState, events: Seq<DeliveryEvent>) -> Option<
    DeliveryState,
>
    decreases events.len(),
{
    if events.len() == 0 {
        Some(state)
    } else {
        match next_state(state, events[0]) {
            Some(next) => state_after(next, events.drop_first()),
            None => None,
        }
    }
}

/// How often a sequence of events hands a request to the transport.
pub open spec fn dispatch_count(events: Seq<DeliveryEvent>) -> nat
    decreases events.len(),
{
    if events.len() == 0 {
        0
    } else if events[0] is RequestDispatched {
        1 + dispatch_count(events.drop_first())
    } else {
        dispatch_count(events.drop_first())
    }
}

/// Moves a delivery attempt on by one event. An event that may not happen
/// in `state` gives `None`.
pub fn advance(state: DeliveryState, event: DeliveryEvent) -> (r: Option<DeliveryState>)
    ensures
        r == next_state(state, event),
{
    match state {
        DeliveryState::Composed => match event {
            DeliveryEvent::DigestComputed => Some(DeliveryState::Digested),
            DeliveryEvent::SigningFailed => Some(DeliveryState::SigningFailed),
            _ => None,
        },
        DeliveryState::Digested => match event {
            DeliveryEvent::SignatureComputed => Some(DeliveryState::Signed),
            DeliveryEvent::SigningFailed => Some(DeliveryState::SigningFailed),
            _ => None,
        },
        DeliveryState::Signed => match event {
            DeliveryEvent::RequestDispatched => Some(DeliveryState::Sent),
            _ => None,
        },
        DeliveryState::Sent => match event {
            DeliveryEvent::ResponseReceived => Some(DeliveryState::Delivered),
            DeliveryEvent::TransportFailed => Some(DeliveryState::TransportFailed),
            _ => None,
        },
        _ => None,
    }
}

/// Moves a delivery attempt through a sequence of events, stopping with
/// `None` at the first that may not happen.
pub fn advance_all(state: DeliveryState, events: &[DeliveryEvent]) -> (r: Option<DeliveryState>)
    ensures
        r == state_after(state, events@),
{
    let mut current = state;
    let mut i: usize = 0;
    proof {
        assert(events@.skip(0) =~= events@);
    }
    while i < events.len()
        invariant
            i <= events@.len(),
            state_after(state, events@) == state_after(current, events@.skip(i as int)),
        decreases events@.len() - i,
    {
        proof {
            assert(events@.skip(i as int).drop_first() =~= events@.skip(i as int + 1));
        }
        match advance(current, events[i]) {
            Some(next) => {
                current = next;
            },
            None => {
                return None;
            },
        }
        i = i + 1;
    }
    Some(current)
}

/// Every event moves an attempt forward: no state is entered twice, none is
/// resumed.
pub proof fn lemma_events_move_forward(state: DeliveryState, event: DeliveryEvent)
    ensures
        next_state(state, event) matches Some(next) ==> state.rank() < next.rank(),
{
}

/// Nothing happens to an attempt that is over.
pub proof fn lemma_terminal_states_are_final(state: DeliveryState, event: DeliveryEvent)
    requires
        state.is_terminal(),
    ensures
        next_state(state, event) is None,
{
}

/// A request is handed to the transport only from `Signed`, and that leads
/// to `Sent`.
pub proof fn lemma_dispatch_only_when_signed(state: DeliveryState)
    ensures
        next_state(state, DeliveryEvent::RequestDispatched) is Some <==> state is Signed,
        next_state(state, DeliveryEvent::RequestDispatched) matches Some(next) ==> next is Sent,
{
}

/// However an attempt runs, it hands at most one request to the transport,
/// and none once it is sent.
pub proof fn lemma_at_most_one_dispatch(state: DeliveryState, events: Seq<DeliveryEvent>)
    requires
        state_after(state, events) is Some,
    ensures
        dispatch_count(events) <= 1,
        state.rank() >= 3 ==> dispatch_count(events) == 0,
    decreases events.len(),
{
    if events.len() > 0 {
        let next = next_state(state, events[0])->Some_0;
        lemma_at_most_one_dispatch(next, events.drop_first());
    }
}

/// An attempt that ends in `TransportFailed` or `Delivered` made exactly
/// one network attempt: a failed send is not tried again.
pub proof fn lemma_sent_exactly_once(events: Seq<DeliveryEvent>)
    requires
        state_after(DeliveryState::Composed, events) matches Some(end) && (end
            is TransportFailed || end is Delivered || end is Sent),
    ensures
        dispatch_count(events) == 1,
{
    lemma_at_most_one_dispatch(DeliveryState::Composed, events);
    lemma_reaching_sent_dispatches(DeliveryState::Composed, events);
}

/// An attempt that starts before `Sent` and ends at or after it, other
/// than in `SigningFailed`, has handed a request to the transport.
proof fn lemma_reaching_sent_dispatches(state: DeliveryState, events: Seq<DeliveryEvent>)
    requires
        state.rank() < 3,
        state_after(state, events) matches Some(end) && (end is TransportFailed || end
            is Delivered || end is Sent),
    ensures
        dispatch_count(events) >= 1,
    decreases events.len(),
{
    if events.len() > 0 {
        let next = next_state(state, events[0])->Some_0;
        if !(events[0] is RequestDispatched) {
            if next is SigningFailed {
                lemma_failed_signing_stays(events.drop_first());
            } else {
                lemma_reaching_sent_dispatches(next, events.drop_first());
            }
        }
    }
}

/// From `SigningFailed` an attempt goes nowhere else.
proof fn lemma_failed_signing_stays(events: Seq<DeliveryEvent>)
    ensures
        state_after(DeliveryState::SigningFailed, events) matches Some(end) ==> end
            is SigningFailed,
{
}

} // verus!
