//! The length-prefixed framing of the byte stream and the state machine of
//! the read-dispatch-write loop that runs over it.
use vstd::prelude::*;

verus! {

/// The value of four bytes read big-endian.
pub open spec fn be_u32(b: Seq<u8>) -> nat {
    b[0] as nat * 16777216 + b[1] as nat * 65536 + b[2] as nat * 256 + b[3] as nat
}

/// The four big-endian bytes of `n`.
pub open spec fn be_bytes(n: nat) -> Seq<u8> {
    seq![(n / 16777216 % 256) as u8, (n / 65536 % 256) as u8, (n / 256 % 256) as u8, (n % 256) as u8]
}

/// A message on the stream: its length in four big-endian bytes, then its bytes.
pub open spec fn framed(payload: Seq<u8>) -> Seq<u8> {
    be_bytes(payload.len()) + payload
}

/// Reads the length prefix of a frame.
pub fn frame_length(prefix: &[u8]) -> (r: u32)
    requires
        prefix@.len() == 4,
    ensures
        r as nat == be_u32(prefix@),
{
    prefix[0] as u32 * 16777216 + prefix[1] as u32 * 65536 + prefix[2] as u32 * 256 + prefix[3] as u32
}

/// Frames `payload`; `None` where its length does not fit the four-byte prefix.
pub fn encode_frame(payload: &[u8]) -> (r: Option<Vec<u8>>)
    ensures
        r is Some <==> payload@.len() <= u32::MAX,
        r matches Some(f) ==> f@ == framed(payload@),
{
    if payload.len() > u32::MAX as usize {
        return None;
    }
    let n = payload.len() as u32;
    let mut out: Vec<u8> = Vec::new();
    out.push((n / 16777216) as u8);
    out.push((n / 65536 % 256) as u8);
    out.push((n / 256 % 256) as u8);
    out.push((n % 256) as u8);
    let mut i: usize = 0;
    while i < payload.len()
        invariant
            i <= payload@.len(),
            out@ == be_bytes(payload@.len()) + payload@.take(i as int),
        decreases payload@.len() - i,
    {
        out.push(payload[i]);
        i = i + 1;
        assert(payload@.take(i as int) =~= payload@.take(i - 1).push(payload@[i - 1]));
    }
    assert(payload@.take(payload@.len() as int) =~= payload@);
    Some(out)
}

/// Reading four big-endian bytes gives back the number they were written from.
pub proof fn lemma_length_round_trip(n: nat)
    requires
        n <= u32::MAX,
    ensures
        be_u32(be_bytes(n)) == n,
{
    assert(n / 16777216 % 256 * 16777216 + n / 65536 % 256 * 65536 + n / 256 % 256 * 256 + n % 256 == n) by (nonlinear_arith)
        requires n <= 4294967295;
}

/// A frame read back gives its payload: the prefix holds the payload's
/// length and the payload follows it.
pub proof fn lemma_frame_round_trip(payload: Seq<u8>)
    requires
        payload.len() <= u32::MAX,
    ensures
        framed(payload).len() == payload.len() + 4,
        be_u32(framed(payload).take(4)) == payload.len(),
        framed(payload).skip(4) == payload,
{
    lemma_length_round_trip(payload.len());
    assert(framed(payload).take(4) =~= be_bytes(payload.len()));
    assert(framed(payload).skip(4) =~= payload);
}

/// Where the loop stands.
#[derive(Debug, Clone, Copy, PartialEq, Eq, Structural)]
pub enum Phase {
    /// Waiting for the four bytes of a length prefix.
    AwaitingLength,
    /// Waiting for a payload of the given length.
    AwaitingPayload(u32),
    /// A payload was handed out to be decoded and answered.
    Dispatching,
    /// A response frame was handed out to be written.
    WritingResponse,
    /// The stream can no longer be trusted; nothing more is read or written.
    Closed,
}

/// What the outside world reports back to the loop.
#[derive(Debug)]
pub enum Event {
    /// The bytes that a read returned.
    Received(Vec<u8>),
    /// A read failed, the stream's end included.
    ReadFailed,
    /// The payload is not a request.
    Undecodable,
    /// The encoded response to the request being dispatched.
    Responded(Vec<u8>),
    /// The response frame was written and flushed.
    Written,
    /// Writing the response frame failed.
    WriteFailed,
}

/// What the loop asks the outside world to do next.
#[derive(Debug)]
pub enum Action {
    /// Read exactly this many bytes.
    Read(u32),
    /// Decode this payload as a request, carry it out and encode the response.
    Dispatch(Vec<u8>),
    /// Write these bytes and flush.
    Write(Vec<u8>),
    /// End the loop.
    Stop,
}

/// An action, with its bytes as sequences.
pub enum Effect {
    Read(nat),
    Dispatch(Seq<u8>),
    Write(Seq<u8>),
    Stop,
}

impl View for Action {
    type V = Effect;

    open spec fn view(&self) -> Effect {
        match self {
            Action::Read(n) => Effect::Read(*n as nat),
            Action::Dispatch(b) => Effect::Dispatch(b@),
            Action::Write(b) => Effect::Write(b@),
            Action::Stop => Effect::Stop,
        }
    }
}

/// The loop's next phase and action on `event` in `phase`.
pub open spec fn transition(phase: Phase, event: Event) -> (Phase, Effect) {
    match (phase, event) {
        (Phase::AwaitingLength, Event::Received(b)) if b@.len() == 4 =>
            (Phase::AwaitingPayload(be_u32(b@) as u32), Effect::Read(be_u32(b@))),
        (Phase::AwaitingPayload(n), Event::Received(b)) if b@.len() == n =>
            (Phase::Dispatching, Effect::Dispatch(b@)),
        (Phase::Dispatching, Event::Responded(p)) if p@.len() <= u32::MAX =>
            (Phase::WritingResponse, Effect::Write(framed(p@))),
        (Phase::WritingResponse, Event::Written) => (Phase::AwaitingLength, Effect::Read(4)),
        _ => (Phase::Closed, Effect::Stop),
    }
}

/// The loop's first phase and action: read a length prefix.
pub fn start() -> (r: (Phase, Action))
    ensures
        r.0 == Phase::AwaitingLength,
        r.1@ == Effect::Read(4),
{
    (Phase::AwaitingLength, Action::Read(4))
}

/// One step of the loop: the next phase and the action to perform.
pub fn step(phase: Phase, event: Event) -> (r: (Phase, Action))
    ensures
        (r.0, r.1@) == transition(phase, event),
{
    match (phase, event) {
        (Phase::AwaitingLength, Event::Received(b)) => {
            if b.len() == 4 {
                let n = frame_length(b.as_slice());
                (Phase::AwaitingPayload(n), Action::Read(n))
            } else {
                (Phase::Closed, Action::Stop)
            }
        },
        (Phase::AwaitingPayload(n), Event::Received(b)) => {
            if b.len() == n as usize {
                (Phase::Dispatching, Action::Dispatch(b))
            } else {
                (Phase::Closed, Action::Stop)
            }
        },
        (Phase::Dispatching, Event::Responded(p)) => {
            match encode_frame(p.as_slice()) {
                Some(f) => (Phase::WritingResponse, Action::Write(f)),
                None => (Phase::Closed, Action::Stop),
            }
        },
        (Phase::WritingResponse, Event::Written) => (Phase::AwaitingLength, Action::Read(4)),
        _ => (Phase::Closed, Action::Stop),
    }
}

/// The phase reached and the actions taken when the loop, in `phase`, is
/// handed `events` one after the other.
pub open spec fn run(phase: Phase, events: Seq<Event>) -> (Phase, Seq<Effect>)
    decreases events.len(),
{
    if events.len() == 0 {
        (phase, Seq::empty())
    } else {
        let (before, done) = run(phase, events.drop_last());
        let (after, effect) = transition(before, events.last());
        (after, done.push(effect))
    }
}

/// An action that takes a request in or hands a response out.
pub open spec fn is_exchange(e: Effect) -> bool {
    e is Dispatch || e is Write
}

/// The requests taken in and the responses handed out, in order.
pub open spec fn exchanges(effects: Seq<Effect>) -> Seq<Effect>
    decreases effects.len(),
{
    if effects.len() == 0 {
        Seq::empty()
    } else if is_exchange(effects.last()) {
        exchanges(effects.drop_last()).push(effects.last())
    } else {
        exchanges(effects.drop_last())
    }
}

/// Requests and responses alternate, a request first.
pub open spec fn alternates(x: Seq<Effect>) -> bool {
    forall|i: int| 0 <= i < x.len() ==> ((#[trigger] x[i] is Dispatch) <==> i % 2 == 0)
}

/// A length prefix cut short, a payload cut short, or a payload that is no
/// request ends the loop at once, with no response written for it.
pub proof fn lemma_malformed_frame_is_fatal(phase: Phase, event: Event)
    requires
        phase is AwaitingLength || phase is AwaitingPayload || phase is Dispatching,
        phase is AwaitingLength ==> (event is ReadFailed || (event matches Event::Received(b) && b@.len() < 4)),
        phase matches Phase::AwaitingPayload(n) ==> (event is ReadFailed || (event matches Event::Received(b) && b@.len() < n)),
        phase is Dispatching ==> event is Undecodable,
    ensures
        transition(phase, event) == (Phase::Closed, Effect::Stop),
{
}

/// Once closed, the loop stays closed and does nothing more, whatever it is told.
pub proof fn lemma_closed_is_final(events: Seq<Event>)
    ensures
        run(Phase::Closed, events).0 == Phase::Closed,
        run(Phase::Closed, events).1.len() == events.len(),
        forall|i: int| 0 <= i < events.len() ==> #[trigger] run(Phase::Closed, events).1[i] == Effect::Stop,
    decreases events.len(),
{
    if events.len() > 0 {
        let rest = events.drop_last();
        lemma_closed_is_final(rest);
        let done = run(Phase::Closed, rest).1;
        let all = run(Phase::Closed, events).1;
        assert(all == done.push(Effect::Stop));
        assert forall|i: int| 0 <= i < events.len() implies #[trigger] all[i] == Effect::Stop by {
            if i < rest.len() {
                assert(all[i] == done[i]);
            }
        }
    }
}

proof fn lemma_exchanges_alternate(events: Seq<Event>)
    ensures
        ({
            let (phase, effects) = run(Phase::AwaitingLength, events);
            let x = exchanges(effects);
            &&& alternates(x)
            &&& phase is Dispatching ==> x.len() % 2 == 1
            &&& (phase is AwaitingLength || phase is AwaitingPayload || phase is WritingResponse) ==> x.len() % 2 == 0
        }),
    decreases events.len(),
{
    if events.len() > 0 {
        let rest = events.drop_last();
        lemma_exchanges_alternate(rest);
        let (before, done) = run(Phase::AwaitingLength, rest);
        let (after, effect) = transition(before, events.last());
        assert(done.push(effect).drop_last() =~= done);
        assert(done.push(effect).last() == effect);
    }
}

proof fn lemma_writes_are_frames(phase: Phase, events: Seq<Event>)
    ensures
        run(phase, events).1.len() == events.len(),
        forall|i: int| 0 <= i < events.len() ==> (#[trigger] run(phase, events).1[i] matches Effect::Write(f)
            ==> (events[i] matches Event::Responded(p) && f == framed(p@))),
    decreases events.len(),
{
    if events.len() > 0 {
        let rest = events.drop_last();
        lemma_writes_are_frames(phase, rest);
        let all = run(phase, events).1;
        let done = run(phase, rest).1;
        assert forall|i: int| 0 <= i < events.len() implies (#[trigger] all[i] matches Effect::Write(f)
            ==> (events[i] matches Event::Responded(p) && f == framed(p@))) by {
            if i < rest.len() {
                assert(all[i] == done[i]);
                assert(events[i] == rest[i]);
            }
        }
    }
}

/// Responses leave in the order the requests came, one for each: from the
/// start of the loop, the requests taken in and the responses handed out
/// alternate, a request first, whatever the outside world reports; and
/// each write is exactly one frame, of the response handed in at that step.
pub proof fn lemma_responses_in_request_order(events: Seq<Event>)
    ensures
        alternates(exchanges(run(Phase::AwaitingLength, events).1)),
        run(Phase::AwaitingLength, events).1.len() == events.len(),
        forall|i: int| 0 <= i < events.len() ==> (#[trigger] run(Phase::AwaitingLength, events).1[i]
            matches Effect::Write(f) ==> (events[i] matches Event::Responded(p) && f == framed(p@))),
{
    lemma_exchanges_alternate(events);
    lemma_writes_are_frames(Phase::AwaitingLength, events);
}

} // verus!
