//! The decode-on-completion state machine.

use vstd::prelude::*;

use crate::abi::{abi_decoded, kinds_bounded, DecodeSpec, ParamKind};

verus! {

/// A transport-level failure: the byte source gave up before yielding bytes.
#[derive(Clone, PartialEq, Eq, Debug)]
pub struct TransportError {
    /// What the transport reported.
    pub message: String,
}

/// The unified error a driver can receive.
#[derive(Debug)]
pub enum DecodeError {
    /// Bytes arrived but did not conform to the expected output shape; the
    /// codec's error is kept as it is.
    Abi(ethabi::Error),
    /// The byte source failed before yielding bytes; passed through unchanged.
    Transport(TransportError),
    /// The decoder was driven again after it had already delivered its
    /// outcome.
    PolledAfterCompletion,
}

/// What one poll of a byte source can report.
#[derive(Debug)]
pub enum BytePoll {
    /// The bytes are not available yet.
    Pending,
    /// The raw byte buffer is ready.
    Ready(Vec<u8>),
    /// The transport failed; no bytes will come.
    Failed(TransportError),
}

/// The abstraction of a [`BytePoll`] event.
pub enum EventView {
    /// The bytes are not available yet.
    Pending,
    /// The raw bytes that arrived.
    Ready(Seq<u8>),
    /// The transport failure that arrived.
    Failed(TransportError),
}

impl View for BytePoll {
    type V = EventView;

    open spec fn view(&self) -> EventView {
        match self {
            BytePoll::Pending => EventView::Pending,
            BytePoll::Ready(bytes) => EventView::Ready(bytes@),
            BytePoll::Failed(e) => EventView::Failed(*e),
        }
    }
}

/// An asynchronous producer of a raw byte buffer, polled one step at a time.
///
/// Implementations live outside the verified core (an adapter over a real
/// transport, or a scripted source in a test); nothing is assumed of what a
/// poll returns.
pub trait ByteFuture {
    /// Advance the source one step and report what it has.
    fn poll_bytes(&mut self) -> BytePoll;
}

/// What one `drive` call reports.
#[derive(Debug)]
pub enum StepResult {
    /// The wrapped byte source is not ready; drive again later.
    NotReady,
    /// The final outcome: the decoded tokens, or the unified error.
    Ready(Result<Vec<ethabi::Token>, DecodeError>),
}

/// The abstraction of a [`StepResult`].
pub enum StepView {
    /// The wrapped byte source was not ready.
    NotReady,
    /// The final outcome, with token vectors abstracted to sequences.
    Ready(Result<Seq<ethabi::Token>, DecodeError>),
}

/// The abstraction of an outcome: token vectors become token sequences.
pub open spec fn outcome_view(o: Result<Vec<ethabi::Token>, DecodeError>) -> Result<
    Seq<ethabi::Token>,
    DecodeError,
> {
    match o {
        Ok(tokens) => Ok(tokens@),
        Err(e) => Err(e),
    }
}

impl View for StepResult {
    type V = StepView;

    open spec fn view(&self) -> StepView {
        match self {
            StepResult::NotReady => StepView::NotReady,
            StepResult::Ready(o) => StepView::Ready(outcome_view(*o)),
        }
    }
}

/// What decoding a completed byte buffer yields: the decoded tokens on
/// success, the codec's error classified as [`DecodeError::Abi`] on failure.
pub open spec fn spec_resolve(kinds: Seq<ParamKind>, bytes: Seq<u8>) -> Result<
    Seq<ethabi::Token>,
    DecodeError,
> {
    match abi_decoded(kinds, bytes) {
        Ok(tokens) => Ok(tokens),
        Err(e) => Err(DecodeError::Abi(e)),
    }
}

enum State<F> {
    Pending(F, DecodeSpec),
    Resolved(Result<Vec<ethabi::Token>, DecodeError>),
    Done,
}

/// The abstract state of a [`QueryTokensResult`]: what it still owes its
/// driver.  The wrapped byte source itself is abstracted away; of a pending
/// decoder only the decode specification is visible.
pub enum AbsState {
    /// Waiting on raw bytes to decode against the given expected kinds.
    Pending(Seq<ParamKind>),
    /// An outcome is already known and not yet delivered.
    Resolved(Result<Seq<ethabi::Token>, DecodeError>),
    /// The outcome was delivered; no further work is possible.
    Done,
}

/// The state machine's single transition: from an abstract state and a poll
/// event to the next abstract state and what `drive` reports.
///
/// A pending decoder stays pending on a not-ready event and otherwise settles:
/// arrived bytes are decoded against the expected kinds, a transport failure
/// is passed through unchanged.  A resolved decoder delivers its stored
/// outcome at once, whatever the event.  A finished decoder reports the
/// protocol violation [`DecodeError::PolledAfterCompletion`].
pub open spec fn spec_step(s: AbsState, ev: EventView) -> (AbsState, StepView) {
    match s {
        AbsState::Pending(kinds) => match ev {
            EventView::Pending => (AbsState::Pending(kinds), StepView::NotReady),
            EventView::Ready(bytes) => (
                AbsState::Done,
                StepView::Ready(spec_resolve(kinds, bytes)),
            ),
            EventView::Failed(e) => (AbsState::Done, StepView::Ready(Err(DecodeError::Transport(e)))),
        },
        AbsState::Resolved(outcome) => (AbsState::Done, StepView::Ready(outcome)),
        AbsState::Done => (AbsState::Done, StepView::Ready(Err(DecodeError::PolledAfterCompletion))),
    }
}

/// Decode a completed byte buffer against the expected kinds and classify the
/// result: exactly [`spec_resolve`] of the specification and the bytes.
pub fn resolve_bytes(spec: &DecodeSpec, bytes: &Vec<u8>) -> (r: Result<Vec<ethabi::Token>, DecodeError>)
    requires
        kinds_bounded(spec@),
    ensures
        outcome_view(r) == spec_resolve(spec@, bytes@),
        r matches Ok(tokens) ==> tokens@.len() == spec@.len(),
{
    match crate::abi::decode_tokens(spec, bytes) {
        Ok(tokens) => Ok(tokens),
        Err(e) => Err(DecodeError::Abi(e)),
    }
}

/// Settle one poll event for a decoder that was waiting on bytes: exactly the
/// report half of [`spec_step`] from the pending state.
pub fn step_pending(spec: &DecodeSpec, ev: BytePoll) -> (r: StepResult)
    requires
        kinds_bounded(spec@),
    ensures
        r@ == spec_step(AbsState::Pending(spec@), ev@).1,
        r@ matches StepView::Ready(Ok(tokens)) ==> tokens.len() == spec@.len(),
{
    match ev {
        BytePoll::Pending => StepResult::NotReady,
        BytePoll::Ready(bytes) => StepResult::Ready(resolve_bytes(spec, &bytes)),
        BytePoll::Failed(e) => StepResult::Ready(Err(DecodeError::Transport(e))),
    }
}

/// Law: precomputed short-circuit.  A decoder holding an already-known
/// outcome delivers exactly that outcome on its first step and is then
/// finished, whatever poll event might be around — no byte source is
/// consulted, because the transition does not depend on the event at all.
pub proof fn lemma_precomputed_short_circuit(
    outcome: Result<Seq<ethabi::Token>, DecodeError>,
    ev: EventView,
)
    ensures
        spec_step(AbsState::Resolved(outcome), ev) == (AbsState::Done, StepView::Ready(outcome)),
{
}

/// The abstract state after `n` consecutive not-ready poll events.
pub open spec fn after_not_ready(s: AbsState, n: nat) -> AbsState
    decreases n,
{
    if n == 0 {
        s
    } else {
        spec_step(after_not_ready(s, (n - 1) as nat), EventView::Pending).0
    }
}

/// Law: not-ready stability.  However many consecutive polls report "not
/// ready", a pending decoder stays pending with the same decode
/// specification, and each such step reports "not ready" to the driver.
pub proof fn lemma_not_ready_stability(kinds: Seq<ParamKind>, n: nat)
    ensures
        after_not_ready(AbsState::Pending(kinds), n) == AbsState::Pending(kinds),
        spec_step(after_not_ready(AbsState::Pending(kinds), n), EventView::Pending).1
            == StepView::NotReady,
    decreases n,
{
    if n > 0 {
        lemma_not_ready_stability(kinds, (n - 1) as nat);
    }
}

/// Law: single delivery.  A step that reports a final outcome leaves the
/// decoder finished, and every later step, whatever its poll event, reports
/// the protocol violation [`DecodeError::PolledAfterCompletion`] — never a
/// second legitimate outcome.
pub proof fn lemma_single_delivery(s: AbsState, ev1: EventView, ev2: EventView)
    requires
        spec_step(s, ev1).1 is Ready,
    ensures
        spec_step(s, ev1).0 is Done,
        spec_step(spec_step(s, ev1).0, ev2) == (
            AbsState::Done,
            StepView::Ready(Err(DecodeError::PolledAfterCompletion)),
        ),
{
}

/// Law: transport error passthrough.  When the byte source fails instead of
/// yielding bytes, the failure is delivered unchanged, the decode operation
/// is never consulted (the transition does not depend on [`abi_decoded`]),
/// and the decoder is finished.
pub proof fn lemma_transport_error_passthrough(kinds: Seq<ParamKind>, e: TransportError)
    ensures
        spec_step(AbsState::Pending(kinds), EventView::Failed(e)) == (
            AbsState::Done,
            StepView::Ready(Err(DecodeError::Transport(e))),
        ),
{
}

/// Function-specific bytes-decoder: wraps a pending byte source together with
/// the decode specification for one contract function's output, or an outcome
/// that is already known, and hands the final outcome to its driver exactly
/// once.
pub struct QueryTokensResult<F> {
    state: State<F>,
}

impl<F> View for QueryTokensResult<F> {
    type V = AbsState;

    closed spec fn view(&self) -> AbsState {
        match self.state {
            State::Pending(_, spec) => AbsState::Pending(spec@),
            State::Resolved(outcome) => AbsState::Resolved(outcome_view(outcome)),
            State::Done => AbsState::Done,
        }
    }
}

impl<F> QueryTokensResult<F> {
    /// The decoder's invariant: a pending decoder waits on a decode
    /// specification whose nesting is bounded.  Constructors establish it and
    /// `drive` preserves it.
    pub open spec fn wf(&self) -> bool {
        self@ matches AbsState::Pending(kinds) ==> kinds_bounded(kinds)
    }

    /// Wrap a still-pending byte source together with the decode
    /// specification for its eventual output.
    pub fn new(inner: F, spec: DecodeSpec) -> (r: Self)
        requires
            kinds_bounded(spec@),
        ensures
            r@ == AbsState::Pending(spec@),
    {
        QueryTokensResult { state: State::Pending(inner, spec) }
    }

    /// Wrap an error that is already known, before any call was issued; the
    /// first `drive` will deliver exactly this error, and no byte source is
    /// ever touched because none exists.
    pub fn from_error(e: DecodeError) -> (r: Self)
        ensures
            r@ == AbsState::Resolved(Err(e)),
    {
        QueryTokensResult { state: State::Resolved(Err(e)) }
    }
}

impl<F: ByteFuture> QueryTokensResult<F> {
    /// Make one step of progress: poll the wrapped byte source if one is
    /// still pending, and report either "not ready" or the final outcome.
    ///
    /// The report and the new state are [`spec_step`] of the old state and
    /// some poll event; which event arrives is the byte source's business,
    /// but every branch of the contract below holds whatever came back.
    pub fn drive(&mut self) -> (r: StepResult)
        requires
            old(self).wf(),
        ensures
            final(self).wf(),
            exists|ev: EventView| #[trigger] spec_step(old(self)@, ev) == (final(self)@, r@),
            old(self)@ matches AbsState::Resolved(outcome) ==> final(self)@ is Done && r@
                == StepView::Ready(outcome),
            old(self)@ is Done ==> final(self)@ is Done && r@ == StepView::Ready(
                Err(DecodeError::PolledAfterCompletion),
            ),
            old(self)@ matches AbsState::Pending(kinds) ==> {
                &&& r@ is NotReady <==> final(self)@ == AbsState::Pending(kinds)
                &&& !(r@ is NotReady) ==> final(self)@ is Done
                &&& r@ matches StepView::Ready(Ok(tokens)) ==> tokens.len() == kinds.len()
            },
    {
        let mut st = State::Done;
        core::mem::swap(&mut st, &mut self.state);
        match st {
            State::Pending(mut inner, spec) => {
                match inner.poll_bytes() {
                    BytePoll::Pending => {
                        self.state = State::Pending(inner, spec);
                        proof {
                            assert(spec_step(old(self)@, EventView::Pending) == (
                                self@,
                                StepView::NotReady,
                            ));
                        }
                        StepResult::NotReady
                    },
                    BytePoll::Ready(bytes) => {
                        let ghost b = bytes@;
                        let r = step_pending(&spec, BytePoll::Ready(bytes));
                        proof {
                            assert(spec_step(old(self)@, EventView::Ready(b)) == (self@, r@));
                        }
                        r
                    },
                    BytePoll::Failed(e) => {
                        let ghost te = e;
                        let r = step_pending(&spec, BytePoll::Failed(e));
                        proof {
                            assert(spec_step(old(self)@, EventView::Failed(te)) == (self@, r@));
                        }
                        r
                    },
                }
            },
            State::Resolved(outcome) => {
                let r = StepResult::Ready(outcome);
                proof {
                    assert(spec_step(old(self)@, EventView::Pending) == (self@, r@));
                }
                r
            },
            State::Done => {
                let r = StepResult::Ready(Err(DecodeError::PolledAfterCompletion));
                proof {
                    assert(spec_step(old(self)@, EventView::Pending) == (self@, r@));
                }
                r
            },
        }
    }
}

} // verus!


