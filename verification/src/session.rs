//! The session state machine: the protocol brain that the surrounding
//! program drives. The program performs the pending work of the current
//! state (fetch a URL, open a connection, await a frame), hands the
//! outcome back as an event, and performs the actions the step returns
//! (send an acknowledgment, dispatch an envelope, close the
//! connection). Every decision — what to acknowledge, when to drain,
//! when to reconnect, when to stop — is taken here.

use vstd::prelude::*;
use crate::envelope::classify;
use crate::envelope::classify_text;
use crate::envelope::EnvelopeModel;
use crate::envelope::ReceivedStreamData;

verus! {

// ------------------------------------------------------------------
// States, events, actions, and their models.
// ------------------------------------------------------------------

/// Model of the session lifecycle state.
pub enum SessionStateModel {
    Bootstrapping,
    Connecting { url: Seq<char> },
    Streaming,
    Draining,
    Reconnecting,
    Terminated,
}

/// The session lifecycle state. A connection URL lives only inside
/// `Connecting`: it is consumed by the handshake attempt, successful
/// or not, and a fresh one is fetched for every later attempt.
#[derive(Debug)]
pub enum SessionState {
    Bootstrapping,
    Connecting { url: String },
    Streaming,
    Draining,
    Reconnecting,
    Terminated,
}

impl View for SessionState {
    type V = SessionStateModel;

    open spec fn view(&self) -> SessionStateModel {
        match self {
            SessionState::Bootstrapping => SessionStateModel::Bootstrapping,
            SessionState::Connecting { url } => SessionStateModel::Connecting { url: url@ },
            SessionState::Streaming => SessionStateModel::Streaming,
            SessionState::Draining => SessionStateModel::Draining,
            SessionState::Reconnecting => SessionStateModel::Reconnecting,
            SessionState::Terminated => SessionStateModel::Terminated,
        }
    }
}

/// Model of one outcome handed back to the machine.
pub enum SessionEventModel {
    UrlFetched { url: Seq<char> },
    FetchFailed,
    Connected,
    ConnectFailed,
    TextFrame { text: Seq<char> },
    ControlFrame,
    TransportClosed,
    TransportFailed,
    Drained,
    Discarded,
    Shutdown,
}

/// One outcome of the surrounding program's work, handed back to the
/// machine: the result of a bootstrap call, of a handshake attempt, of
/// awaiting the stream, of draining, of discarding, or a cooperative
/// shutdown request.
#[derive(Debug)]
pub enum SessionEvent {
    UrlFetched { url: String },
    FetchFailed,
    Connected,
    ConnectFailed,
    TextFrame { text: String },
    ControlFrame,
    TransportClosed,
    TransportFailed,
    Drained,
    Discarded,
    Shutdown,
}

impl View for SessionEvent {
    type V = SessionEventModel;

    open spec fn view(&self) -> SessionEventModel {
        match self {
            SessionEvent::UrlFetched { url } => SessionEventModel::UrlFetched { url: url@ },
            SessionEvent::FetchFailed => SessionEventModel::FetchFailed,
            SessionEvent::Connected => SessionEventModel::Connected,
            SessionEvent::ConnectFailed => SessionEventModel::ConnectFailed,
            SessionEvent::TextFrame { text } => SessionEventModel::TextFrame { text: text@ },
            SessionEvent::ControlFrame => SessionEventModel::ControlFrame,
            SessionEvent::TransportClosed => SessionEventModel::TransportClosed,
            SessionEvent::TransportFailed => SessionEventModel::TransportFailed,
            SessionEvent::Drained => SessionEventModel::Drained,
            SessionEvent::Discarded => SessionEventModel::Discarded,
            SessionEvent::Shutdown => SessionEventModel::Shutdown,
        }
    }
}

/// Model of one action the step asks the program to perform.
pub enum SessionActionModel {
    SendAck { id: Seq<char> },
    Dispatch { envelope: EnvelopeModel },
    CloseConnection,
}

/// One action the step asks the surrounding program to perform, in
/// the order returned.
#[derive(Debug)]
pub enum SessionAction {
    SendAck { id: String },
    Dispatch { envelope: ReceivedStreamData },
    CloseConnection,
}

impl View for SessionAction {
    type V = SessionActionModel;

    open spec fn view(&self) -> SessionActionModel {
        match self {
            SessionAction::SendAck { id } => SessionActionModel::SendAck { id: id@ },
            SessionAction::Dispatch { envelope } => SessionActionModel::Dispatch {
                envelope: envelope@,
            },
            SessionAction::CloseConnection => SessionActionModel::CloseConnection,
        }
    }
}

/// The models of a row of actions, in order.
pub open spec fn actions_model(acts: Seq<SessionAction>) -> Seq<SessionActionModel> {
    Seq::new(
        acts.len(),
        |i: int|
            if 0 <= i < acts.len() {
                acts[i]@
            } else {
                SessionActionModel::CloseConnection
            },
    )
}

/// Model of the work a state waits on.
pub enum PendingActionModel {
    FetchUrl,
    OpenConnection { url: Seq<char> },
    AwaitFrame,
    AwaitDrain,
    DiscardConnection,
    Idle,
}

/// The work the surrounding program must perform while the session
/// stands in a state: fetch a fresh URL, open the connection, await
/// one frame, finish in-flight dispatches, drop the dead connection,
/// or nothing at all once terminated.
#[derive(Debug)]
pub enum PendingAction {
    FetchUrl,
    OpenConnection { url: String },
    AwaitFrame,
    AwaitDrain,
    DiscardConnection,
    Idle,
}

impl View for PendingAction {
    type V = PendingActionModel;

    open spec fn view(&self) -> PendingActionModel {
        match self {
            PendingAction::FetchUrl => PendingActionModel::FetchUrl,
            PendingAction::OpenConnection { url } => PendingActionModel::OpenConnection {
                url: url@,
            },
            PendingAction::AwaitFrame => PendingActionModel::AwaitFrame,
            PendingAction::AwaitDrain => PendingActionModel::AwaitDrain,
            PendingAction::DiscardConnection => PendingActionModel::DiscardConnection,
            PendingAction::Idle => PendingActionModel::Idle,
        }
    }
}

/// What one step returns: the next state and the actions to perform,
/// in order.
#[derive(Debug)]
pub struct StepResult {
    pub next: SessionState,
    pub actions: Vec<SessionAction>,
}

// ------------------------------------------------------------------
// The transition function, first as meaning over models.
// ------------------------------------------------------------------

/// What a text frame received while streaming does to the machine:
/// a frame that fails to classify is dropped; a disconnect starts the
/// drain; an envelope bearing an id is acknowledged first and
/// dispatched second; anything else is a no-op.
pub open spec fn sm_frame(text: Seq<char>) -> (SessionStateModel, Seq<SessionActionModel>) {
    match classify_text(text) {
        None => (SessionStateModel::Streaming, Seq::empty()),
        Some(env) => if env is Disconnect {
            (SessionStateModel::Draining, Seq::empty())
        } else {
            match env.envelope_id() {
                Some(id) => (
                    SessionStateModel::Streaming,
                    seq![
                        SessionActionModel::SendAck { id },
                        SessionActionModel::Dispatch { envelope: env },
                    ],
                ),
                None => (SessionStateModel::Streaming, Seq::empty()),
            }
        },
    }
}

/// The transition function. A shutdown request wins in every state and
/// never leads anywhere but `Terminated`; an event that does not
/// belong to the current state is ignored.
pub open spec fn sm_step(s: SessionStateModel, e: SessionEventModel) -> (
    SessionStateModel,
    Seq<SessionActionModel>,
) {
    match s {
        SessionStateModel::Terminated => (SessionStateModel::Terminated, Seq::empty()),
        SessionStateModel::Bootstrapping => match e {
            SessionEventModel::Shutdown => (SessionStateModel::Terminated, Seq::empty()),
            SessionEventModel::UrlFetched { url } => (
                SessionStateModel::Connecting { url },
                Seq::empty(),
            ),
            SessionEventModel::FetchFailed => (SessionStateModel::Bootstrapping, Seq::empty()),
            _ => (SessionStateModel::Bootstrapping, Seq::empty()),
        },
        SessionStateModel::Connecting { url } => match e {
            SessionEventModel::Shutdown => (SessionStateModel::Terminated, Seq::empty()),
            SessionEventModel::Connected => (SessionStateModel::Streaming, Seq::empty()),
            SessionEventModel::ConnectFailed => (SessionStateModel::Bootstrapping, Seq::empty()),
            _ => (SessionStateModel::Connecting { url }, Seq::empty()),
        },
        SessionStateModel::Streaming => match e {
            SessionEventModel::Shutdown => (
                SessionStateModel::Terminated,
                seq![SessionActionModel::CloseConnection],
            ),
            SessionEventModel::TextFrame { text } => sm_frame(text),
            SessionEventModel::ControlFrame => (SessionStateModel::Streaming, Seq::empty()),
            SessionEventModel::TransportClosed => (SessionStateModel::Reconnecting, Seq::empty()),
            SessionEventModel::TransportFailed => (SessionStateModel::Reconnecting, Seq::empty()),
            _ => (SessionStateModel::Streaming, Seq::empty()),
        },
        SessionStateModel::Draining => match e {
            SessionEventModel::Shutdown => (
                SessionStateModel::Terminated,
                seq![SessionActionModel::CloseConnection],
            ),
            SessionEventModel::Drained => (SessionStateModel::Reconnecting, Seq::empty()),
            _ => (SessionStateModel::Draining, Seq::empty()),
        },
        SessionStateModel::Reconnecting => match e {
            SessionEventModel::Shutdown => (SessionStateModel::Terminated, Seq::empty()),
            SessionEventModel::Discarded => (SessionStateModel::Bootstrapping, Seq::empty()),
            _ => (SessionStateModel::Reconnecting, Seq::empty()),
        },
    }
}

/// The work each state waits on.
pub open spec fn sm_pending(s: SessionStateModel) -> PendingActionModel {
    match s {
        SessionStateModel::Bootstrapping => PendingActionModel::FetchUrl,
        SessionStateModel::Connecting { url } => PendingActionModel::OpenConnection { url },
        SessionStateModel::Streaming => PendingActionModel::AwaitFrame,
        SessionStateModel::Draining => PendingActionModel::AwaitDrain,
        SessionStateModel::Reconnecting => PendingActionModel::DiscardConnection,
        SessionStateModel::Terminated => PendingActionModel::Idle,
    }
}

// ------------------------------------------------------------------
// The transition function, executed.
// ------------------------------------------------------------------

fn quiet(next: SessionState) -> (r: StepResult)
    ensures
        r.next@ == next@,
        actions_model(r.actions@) == Seq::<SessionActionModel>::empty(),
{
    let actions: Vec<SessionAction> = Vec::new();
    proof {
        assert(actions_model(actions@) =~= Seq::<SessionActionModel>::empty());
    }
    StepResult { next, actions }
}

/// Performs one transition of the session state machine.
pub fn step(state: SessionState, event: SessionEvent) -> (r: StepResult)
    ensures
        (r.next@, actions_model(r.actions@)) == sm_step(state@, event@),
{
    match state {
        SessionState::Terminated => quiet(SessionState::Terminated),
        SessionState::Bootstrapping => match event {
            SessionEvent::Shutdown => quiet(SessionState::Terminated),
            SessionEvent::UrlFetched { url } => quiet(SessionState::Connecting { url }),
            _ => quiet(SessionState::Bootstrapping),
        },
        SessionState::Connecting { url } => match event {
            SessionEvent::Shutdown => quiet(SessionState::Terminated),
            SessionEvent::Connected => quiet(SessionState::Streaming),
            SessionEvent::ConnectFailed => quiet(SessionState::Bootstrapping),
            _ => quiet(SessionState::Connecting { url }),
        },
        SessionState::Streaming => match event {
            SessionEvent::Shutdown => {
                let mut actions: Vec<SessionAction> = Vec::new();
                actions.push(SessionAction::CloseConnection);
                proof {
                    assert(actions_model(actions@) =~= seq![SessionActionModel::CloseConnection]);
                }
                StepResult { next: SessionState::Terminated, actions }
            },
            SessionEvent::TextFrame { text } => match classify(text.as_str()) {
                Ok(env) => {
                    if env.is_disconnect() {
                        quiet(SessionState::Draining)
                    } else {
                        match env.get_id() {
                            Some(id) => {
                                let mut actions: Vec<SessionAction> = Vec::new();
                                let ghost env_m = env@;
                                let ghost id_m = id@;
                                actions.push(SessionAction::SendAck { id });
                                actions.push(SessionAction::Dispatch { envelope: env });
                                proof {
                                    assert(actions_model(actions@) =~= seq![
                                        SessionActionModel::SendAck { id: id_m },
                                        SessionActionModel::Dispatch { envelope: env_m },
                                    ]);
                                }
                                StepResult { next: SessionState::Streaming, actions }
                            },
                            None => quiet(SessionState::Streaming),
                        }
                    }
                },
                Err(_) => quiet(SessionState::Streaming),
            },
            SessionEvent::ControlFrame => quiet(SessionState::Streaming),
            SessionEvent::TransportClosed => quiet(SessionState::Reconnecting),
            SessionEvent::TransportFailed => quiet(SessionState::Reconnecting),
            _ => quiet(SessionState::Streaming),
        },
        SessionState::Draining => match event {
            SessionEvent::Shutdown => {
                let mut actions: Vec<SessionAction> = Vec::new();
                actions.push(SessionAction::CloseConnection);
                proof {
                    assert(actions_model(actions@) =~= seq![SessionActionModel::CloseConnection]);
                }
                StepResult { next: SessionState::Terminated, actions }
            },
            SessionEvent::Drained => quiet(SessionState::Reconnecting),
            _ => quiet(SessionState::Draining),
        },
        SessionState::Reconnecting => match event {
            SessionEvent::Shutdown => quiet(SessionState::Terminated),
            SessionEvent::Discarded => quiet(SessionState::Bootstrapping),
            _ => quiet(SessionState::Reconnecting),
        },
    }
}

// ------------------------------------------------------------------
// Routing a dispatched envelope to its handler.
// ------------------------------------------------------------------

/// Which external handler a dispatched envelope belongs to. Hello and
/// unhandled envelopes belong to none; a handler failure is the
/// runner's to log and isolate, never a reason to end the stream.
#[derive(Debug, PartialEq, Eq, Structural)]
pub enum HandlerKind {
    Event,
    Command,
    InteractivePayload,
    NoOp,
}

/// The handler each envelope kind belongs to.
pub open spec fn sm_route(env: EnvelopeModel) -> HandlerKind {
    match env {
        EnvelopeModel::EventsApi { .. } => HandlerKind::Event,
        EnvelopeModel::SlashCommand { .. } => HandlerKind::Command,
        EnvelopeModel::Interactive { .. } => HandlerKind::InteractivePayload,
        _ => HandlerKind::NoOp,
    }
}

/// Names the handler a classified envelope is dispatched to.
pub fn route(envelope: &ReceivedStreamData) -> (r: HandlerKind)
    ensures
        r == sm_route(envelope@),
{
    match envelope {
        ReceivedStreamData::EventsApi { .. } => HandlerKind::Event,
        ReceivedStreamData::SlashCommand { .. } => HandlerKind::Command,
        ReceivedStreamData::Interactive { .. } => HandlerKind::InteractivePayload,
        _ => HandlerKind::NoOp,
    }
}

/// Exactly the envelopes routed to a real handler carry an envelope
/// id, so every dispatched envelope was acknowledged first and
/// no-op envelopes cost nothing.
pub proof fn lemma_routed_iff_acknowledgable(env: EnvelopeModel)
    ensures
        (sm_route(env) != HandlerKind::NoOp) == (env.envelope_id() is Some),
{
}

// ------------------------------------------------------------------
// Laws of the machine.
// ------------------------------------------------------------------

/// A text frame bearing an envelope id, received while streaming,
/// yields exactly one acknowledgment, bearing that very id, placed
/// before the dispatch of the envelope — so the acknowledgment is sent
/// first, and sent once.
pub proof fn lemma_ack_once_before_dispatch(text: Seq<char>, env: EnvelopeModel, id: Seq<char>)
    requires
        classify_text(text) == Some(env),
        env.envelope_id() == Some(id),
    ensures
        ({
            let (next, acts) = sm_step(
                SessionStateModel::Streaming,
                SessionEventModel::TextFrame { text },
            );
            &&& next == SessionStateModel::Streaming
            &&& acts.len() == 2
            &&& acts[0] == (SessionActionModel::SendAck { id })
            &&& acts[1] == (SessionActionModel::Dispatch { envelope: env })
        }),
{
}

/// Redelivery changes nothing: when a frame leaves the machine
/// streaming, feeding the identical frame again returns the identical
/// result — the same acknowledgment and the same dispatch, with no
/// state accumulated in between. The machine keeps no per-envelope
/// record and deduplicates nothing; idempotence is the consumer's
/// duty.
pub proof fn lemma_redelivery_same_outcome(text: Seq<char>)
    requires
        sm_step(SessionStateModel::Streaming, SessionEventModel::TextFrame { text }).0
            == SessionStateModel::Streaming,
    ensures
        ({
            let first = sm_step(SessionStateModel::Streaming, SessionEventModel::TextFrame { text });
            sm_step(first.0, SessionEventModel::TextFrame { text }) == first
        }),
{
}

/// A frame that fails to classify is dropped whole: the machine stays
/// streaming, performs nothing, and handles the next frame exactly as
/// it would have without the bad one.
pub proof fn lemma_malformed_frame_dropped(bad: Seq<char>, next_text: Seq<char>)
    requires
        classify_text(bad) is None,
    ensures
        sm_step(SessionStateModel::Streaming, SessionEventModel::TextFrame { text: bad }) == (
            SessionStateModel::Streaming,
            Seq::<SessionActionModel>::empty(),
        ),
        ({
            let after = sm_step(SessionStateModel::Streaming, SessionEventModel::TextFrame { text: bad }).0;
            sm_step(after, SessionEventModel::TextFrame { text: next_text }) == sm_step(
                SessionStateModel::Streaming,
                SessionEventModel::TextFrame { text: next_text },
            )
        }),
{
}

/// A disconnect frame drives the machine through its recovery path:
/// streaming to draining, draining to reconnecting once drained,
/// reconnecting to bootstrapping once the dead connection is
/// discarded — where the pending work is fetching a fresh URL. No
/// acknowledgment and no dispatch accompany the disconnect.
pub proof fn lemma_disconnect_recovery(text: Seq<char>)
    requires
        classify_text(text) matches Some(env) && env is Disconnect,
    ensures
        sm_step(SessionStateModel::Streaming, SessionEventModel::TextFrame { text }) == (
            SessionStateModel::Draining,
            Seq::<SessionActionModel>::empty(),
        ),
        sm_step(SessionStateModel::Draining, SessionEventModel::Drained).0
            == SessionStateModel::Reconnecting,
        sm_step(SessionStateModel::Reconnecting, SessionEventModel::Discarded).0
            == SessionStateModel::Bootstrapping,
        sm_pending(SessionStateModel::Bootstrapping) == PendingActionModel::FetchUrl,
{
}

/// A shutdown request ends the session from every state: the machine
/// reaches `Terminated` in one step, closes the connection exactly
/// when one may be live (streaming or draining), asks for nothing
/// else, and `Terminated` absorbs every further event — so no
/// reconnection is ever attempted after shutdown.
pub proof fn lemma_shutdown_terminates(s: SessionStateModel, e: SessionEventModel)
    ensures
        sm_step(s, SessionEventModel::Shutdown).0 == SessionStateModel::Terminated,
        sm_step(s, SessionEventModel::Shutdown).1 == if s is Streaming || s is Draining {
            seq![SessionActionModel::CloseConnection]
        } else {
            Seq::<SessionActionModel>::empty()
        },
        sm_pending(SessionStateModel::Terminated) == PendingActionModel::Idle,
        sm_step(SessionStateModel::Terminated, e) == (
            SessionStateModel::Terminated,
            Seq::<SessionActionModel>::empty(),
        ),
{
}

/// A connection URL is single-use: the only state that holds one is
/// `Connecting`, it is entered only by a fresh fetch result carrying
/// that very URL, and both outcomes of the handshake leave it — so no
/// URL survives one attempt, and every new attempt begins with a new
/// fetch.
pub proof fn lemma_url_single_use(s: SessionStateModel, e: SessionEventModel, url: Seq<char>)
    ensures
        sm_step(s, e).0 == (SessionStateModel::Connecting { url }) ==> (s
            == SessionStateModel::Bootstrapping && e == (SessionEventModel::UrlFetched { url }))
            || s == (SessionStateModel::Connecting { url }),
        sm_step(SessionStateModel::Connecting { url }, SessionEventModel::Connected).0
            == SessionStateModel::Streaming,
        sm_step(SessionStateModel::Connecting { url }, SessionEventModel::ConnectFailed).0
            == SessionStateModel::Bootstrapping,
{
}

/// Names the work the current state waits on.
pub fn pending_action(state: &SessionState) -> (r: PendingAction)
    ensures
        r@ == sm_pending(state@),
{
    match state {
        SessionState::Bootstrapping => PendingAction::FetchUrl,
        SessionState::Connecting { url } => PendingAction::OpenConnection { url: url.clone() },
        SessionState::Streaming => PendingAction::AwaitFrame,
        SessionState::Draining => PendingAction::AwaitDrain,
        SessionState::Reconnecting => PendingAction::DiscardConnection,
        SessionState::Terminated => PendingAction::Idle,
    }
}

} // verus!
