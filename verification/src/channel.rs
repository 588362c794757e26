//! The reliable command channel: connection lifecycle and the
//! send-and-await-acknowledgment exchange.
//!
//! All socket work happens outside this crate. Here the channel is a
//! state machine: the caller reports what the transport observed (a
//! datagram, a timeout, a clean close, a read error) and the machine
//! answers with what to do next (resend the same request, keep waiting,
//! or finish with a result). One exchange is outstanding at a time; a
//! retried send reuses the same correlation id so the peer can
//! deduplicate; after a `Wait` response the only valid step is one more
//! unbounded receive.

use vstd::prelude::*;

use crate::id64::Id64;
use crate::protocol::Command;
use crate::protocol::RespModel;
use crate::protocol::Request;
use crate::protocol::Response;
use crate::protocol::parse_response;
use crate::protocol::parse_response_spec;
use crate::protocol::push_all;
use crate::protocol::request_wire;
use crate::protocol::encode_request;

verus! {

/// The connection lifecycle: any transport failure while connected moves
/// the state back to `Disconnected`, from which only a fresh connection
/// attempt is valid.
#[derive(Clone, Copy, PartialEq, Eq, Structural, Debug)]
pub enum ConnectionState {
    Disconnected,
    Connecting,
    Connected,
}

/// How a single command can fail.
#[derive(Clone, PartialEq, Eq, Debug)]
pub enum ChannelError {
    /// No connection is established; the caller must reconnect
    /// explicitly.
    NotConnected,
    /// Writing the request to the transport failed.
    SendFailed,
    /// Reading a response failed with a hard transport error.
    RecvFailed,
    /// The peer closed the connection before sending any byte: the
    /// command may have taken effect (ambiguous outcome).
    ProbablyRestarted,
    /// The peer attempted the command and reported failure, with an
    /// opaque reason if it gave one.
    PeerRejected(Option<Vec<u8>>),
    /// The peer sent bytes outside the response grammar.
    UnknownResponse(Vec<u8>),
    /// The peer sent a second `Wait` on one exchange: a protocol
    /// violation, reported and never retried.
    UnexpectedWait,
}

/// The mathematical shape of a channel error.
pub enum ErrModel {
    NotConnected,
    SendFailed,
    RecvFailed,
    ProbablyRestarted,
    PeerRejected(Option<Seq<u8>>),
    UnknownResponse(Seq<u8>),
    UnexpectedWait,
}

/// The model of an executable channel error.
pub open spec fn err_model(e: ChannelError) -> ErrModel {
    match e {
        ChannelError::NotConnected => ErrModel::NotConnected,
        ChannelError::SendFailed => ErrModel::SendFailed,
        ChannelError::RecvFailed => ErrModel::RecvFailed,
        ChannelError::ProbablyRestarted => ErrModel::ProbablyRestarted,
        ChannelError::PeerRejected(None) => ErrModel::PeerRejected(None),
        ChannelError::PeerRejected(Some(v)) => ErrModel::PeerRejected(Some(v@)),
        ChannelError::UnknownResponse(v) => ErrModel::UnknownResponse(v@),
        ChannelError::UnexpectedWait => ErrModel::UnexpectedWait,
    }
}

/// The model of a command's outcome.
pub open spec fn result_model(r: Option<Result<(), ChannelError>>) -> Option<
    Result<(), ErrModel>,
> {
    match r {
        None => None,
        Some(Ok(())) => Some(Ok(())),
        Some(Err(e)) => Some(Err(err_model(e))),
    }
}

/// What the transport observed while one exchange was outstanding.
#[derive(Clone, PartialEq, Eq, Debug)]
pub enum WireEvent {
    /// A whole response arrived.
    Received(Vec<u8>),
    /// The bounded read timed out with nothing received.
    TimedOut,
    /// The peer closed the connection cleanly with zero bytes.
    Closed,
    /// Reading failed with a hard transport error.
    RecvError,
}

/// The mathematical shape of a wire event.
pub enum EvModel {
    Received(Seq<u8>),
    TimedOut,
    Closed,
    RecvError,
}

/// The model of an executable wire event.
pub open spec fn ev_model(e: WireEvent) -> EvModel {
    match e {
        WireEvent::Received(v) => EvModel::Received(v@),
        WireEvent::TimedOut => EvModel::TimedOut,
        WireEvent::Closed => EvModel::Closed,
        WireEvent::RecvError => EvModel::RecvError,
    }
}

/// The models of a trace of wire events.
pub open spec fn evs_model(s: Seq<WireEvent>) -> Seq<EvModel> {
    Seq::new(s.len(), |i: int| ev_model(s[i]))
}

/// Where a single exchange stands.
#[derive(Clone, Copy, PartialEq, Eq, Structural, Debug)]
pub enum ExchangePhase {
    /// The request is out; reads are bounded and a timeout means resend.
    AwaitingAck,
    /// A `Wait` was received; exactly one more response is awaited with
    /// no timeout and no resend.
    AwaitingFinal,
}

/// What the transport must do next.
#[derive(PartialEq, Eq, Debug)]
pub enum ExchangeStep {
    /// Send the identical request again, then wait with the bounded
    /// timeout.
    Resend,
    /// Send nothing; wait for one more response without a timeout.
    KeepWaiting,
    /// The exchange is over with this outcome.
    Done(Result<(), ChannelError>),
}

/// The mathematical shape of an exchange step.
pub enum StepModel {
    Resend,
    KeepWaiting,
    Done(Result<(), ErrModel>),
}

/// The model of an executable exchange step.
pub open spec fn step_model(s: ExchangeStep) -> StepModel {
    match s {
        ExchangeStep::Resend => StepModel::Resend,
        ExchangeStep::KeepWaiting => StepModel::KeepWaiting,
        ExchangeStep::Done(Ok(())) => StepModel::Done(Ok(())),
        ExchangeStep::Done(Err(e)) => StepModel::Done(Err(err_model(e))),
    }
}

/// The step the exchange takes on one event, as a function of the phase
/// alone.
pub open spec fn step_of(phase: ExchangePhase, ev: EvModel) -> StepModel {
    match phase {
        ExchangePhase::AwaitingAck => match ev {
            EvModel::Received(s) => match parse_response_spec(s) {
                Some(RespModel::Success) => StepModel::Done(Ok(())),
                Some(RespModel::Error(reason)) => StepModel::Done(
                    Err(ErrModel::PeerRejected(reason)),
                ),
                Some(RespModel::Wait) => StepModel::KeepWaiting,
                None => StepModel::Done(Err(ErrModel::UnknownResponse(s))),
            },
            EvModel::TimedOut => StepModel::Resend,
            EvModel::Closed => StepModel::Done(Err(ErrModel::ProbablyRestarted)),
            EvModel::RecvError => StepModel::Done(Err(ErrModel::RecvFailed)),
        },
        ExchangePhase::AwaitingFinal => match ev {
            EvModel::Received(s) => match parse_response_spec(s) {
                Some(RespModel::Success) => StepModel::Done(Ok(())),
                Some(RespModel::Error(reason)) => StepModel::Done(
                    Err(ErrModel::PeerRejected(reason)),
                ),
                Some(RespModel::Wait) => StepModel::Done(Err(ErrModel::UnexpectedWait)),
                None => StepModel::Done(Err(ErrModel::UnknownResponse(s))),
            },
            EvModel::TimedOut => StepModel::KeepWaiting,
            EvModel::Closed => StepModel::Done(Err(ErrModel::ProbablyRestarted)),
            EvModel::RecvError => StepModel::Done(Err(ErrModel::RecvFailed)),
        },
    }
}

/// The phase after one event: only a `Wait` answer to the first send
/// moves the exchange forward.
pub open spec fn phase_after(phase: ExchangePhase, ev: EvModel) -> ExchangePhase {
    if phase is AwaitingAck && (ev matches EvModel::Received(s) && parse_response_spec(s) == Some(
        RespModel::Wait,
    )) {
        ExchangePhase::AwaitingFinal
    } else {
        phase
    }
}

/// One outstanding exchange: the fixed request and where it stands.
#[derive(Debug)]
pub struct Exchange {
    pub req: Request,
    pub phase: ExchangePhase,
}

/// Copy a byte vector.
pub fn clone_bytes(v: &Vec<u8>) -> (r: Vec<u8>)
    ensures
        r@ == v@,
{
    let mut r: Vec<u8> = Vec::new();
    push_all(&mut r, v.as_slice());
    proof {
        assert(r@ =~= v@);
    }
    r
}

impl Exchange {
    /// Begin an exchange for one command under a given correlation id.
    pub fn start(cmd: Command, id: Id64) -> (ex: Exchange)
        ensures
            ex.req == (Request { id, cmd }),
            ex.phase == ExchangePhase::AwaitingAck,
    {
        Exchange { req: Request { id, cmd }, phase: ExchangePhase::AwaitingAck }
    }

    /// The wire bytes of the request; identical for every resend.
    pub fn request_bytes(&self) -> (r: Vec<u8>)
        ensures
            r@ == request_wire(self.req),
    {
        encode_request(&self.req)
    }

    /// Advance the exchange by one transport observation. The request —
    /// and with it the correlation id — never changes.
    pub fn on_event(&mut self, ev: &WireEvent) -> (step: ExchangeStep)
        ensures
            final(self).req == old(self).req,
            final(self).phase == phase_after(old(self).phase, ev_model(*ev)),
            step_model(step) == step_of(old(self).phase, ev_model(*ev)),
    {
        match ev {
            WireEvent::Received(bytes) => {
                match parse_response(bytes.as_slice()) {
                    Some(Response::Success) => ExchangeStep::Done(Ok(())),
                    Some(Response::Error(reason)) => ExchangeStep::Done(
                        Err(ChannelError::PeerRejected(reason)),
                    ),
                    Some(Response::Wait) => {
                        match self.phase {
                            ExchangePhase::AwaitingAck => {
                                self.phase = ExchangePhase::AwaitingFinal;
                                ExchangeStep::KeepWaiting
                            },
                            ExchangePhase::AwaitingFinal => ExchangeStep::Done(
                                Err(ChannelError::UnexpectedWait),
                            ),
                        }
                    },
                    None => ExchangeStep::Done(
                        Err(ChannelError::UnknownResponse(clone_bytes(bytes))),
                    ),
                }
            },
            WireEvent::TimedOut => {
                match self.phase {
                    ExchangePhase::AwaitingAck => ExchangeStep::Resend,
                    ExchangePhase::AwaitingFinal => ExchangeStep::KeepWaiting,
                }
            },
            WireEvent::Closed => ExchangeStep::Done(Err(ChannelError::ProbablyRestarted)),
            WireEvent::RecvError => ExchangeStep::Done(Err(ChannelError::RecvFailed)),
        }
    }
}

/// The outcome of an exchange over a finite trace of wire events, with
/// the datagram count: the first send plus one per resend. `None` means
/// the trace ended before a terminal step.
pub open spec fn run_spec(phase: ExchangePhase, evs: Seq<EvModel>, sends: nat) -> (Option<
    Result<(), ErrModel>,
>, nat)
    decreases evs.len(),
{
    if evs.len() == 0 {
        (None, sends)
    } else {
        match step_of(phase, evs[0]) {
            StepModel::Done(r) => (Some(r), sends),
            StepModel::Resend => run_spec(phase, evs.skip(1), sends + 1),
            StepModel::KeepWaiting => run_spec(phase_after(phase, evs[0]), evs.skip(1), sends),
        }
    }
}

/// The outcome of driving one command over a trace of wire events.
pub struct ExchangeOutcome {
    /// `None` when the trace ran out before the exchange finished.
    pub result: Option<Result<(), ChannelError>>,
    /// Datagrams sent: the first send plus one per retry.
    pub sends: usize,
}

/// Drive one command to its outcome over the given trace of transport
/// observations, exactly as the exchange state machine dictates.
pub fn single_command(cmd: Command, id: Id64, events: &Vec<WireEvent>) -> (r: ExchangeOutcome)
    requires
        events@.len() < usize::MAX,
    ensures
        ({
            let rs = run_spec(ExchangePhase::AwaitingAck, evs_model(events@), 1);
            result_model(r.result) == rs.0 && r.sends as nat == rs.1
        }),
{
    let ghost all = evs_model(events@);
    let mut ex = Exchange::start(cmd, id);
    let mut sends: usize = 1;
    let mut i: usize = 0;
    let n = events.len();
    proof {
        assert(all.skip(0) =~= all);
    }
    while i < n
        invariant
            0 <= i <= n,
            n == events@.len(),
            n < usize::MAX,
            1 <= sends <= 1 + i,
            all == evs_model(events@),
            run_spec(ExchangePhase::AwaitingAck, all, 1) == run_spec(
                ex.phase,
                all.skip(i as int),
                sends as nat,
            ),
        decreases n - i,
    {
        let ghost tail = all.skip(i as int);
        proof {
            assert(tail.len() == n - i);
            assert(tail[0] == ev_model(events@[i as int]));
            assert(tail.skip(1) =~= all.skip(i + 1));
        }
        let step = ex.on_event(&events[i]);
        match step {
            ExchangeStep::Done(res) => {
                return ExchangeOutcome { result: Some(res), sends };
            },
            ExchangeStep::Resend => {
                sends = sends + 1;
            },
            ExchangeStep::KeepWaiting => {},
        }
        i += 1;
    }
    proof {
        assert(all.skip(n as int) =~= Seq::<EvModel>::empty());
    }
    ExchangeOutcome { result: None, sends }
}

/// A resend happens only when the bounded wait for the first
/// acknowledgment times out: no received response — in particular no
/// `Wait` — ever causes one.
pub proof fn lemma_resend_only_on_timeout(phase: ExchangePhase, ev: EvModel)
    ensures
        step_of(phase, ev) is Resend ==> phase is AwaitingAck && ev is TimedOut,
{
}

/// A clean close with zero bytes is always the ambiguous outcome, never
/// a hard transport error.
pub proof fn lemma_closed_is_ambiguous(phase: ExchangePhase)
    ensures
        step_of(phase, EvModel::Closed) == StepModel::Done(
            Err::<(), ErrModel>(ErrModel::ProbablyRestarted),
        ),
{
}

/// Retry law: against a peer that stays silent through any number of
/// bounded timeouts and then acknowledges success, the exchange ends in
/// success, having sent one datagram per timeout beyond the first send —
/// each a resend of the identical request.
pub proof fn lemma_retry_until_ack(evs: Seq<EvModel>, sends: nat)
    requires
        evs.len() >= 1,
        forall|i: int| 0 <= i < evs.len() - 1 ==> evs[i] == EvModel::TimedOut,
        evs[evs.len() - 1] == EvModel::Received(crate::protocol::success_wire()),
    ensures
        run_spec(ExchangePhase::AwaitingAck, evs, sends) == (
            Some(Ok::<(), ErrModel>(())),
            (sends + evs.len() - 1) as nat,
        ),
    decreases evs.len(),
{
    if evs.len() == 1 {
        assert(parse_response_spec(crate::protocol::success_wire()) == Some(RespModel::Success));
    } else {
        assert(evs[0] == EvModel::TimedOut);
        let tail = evs.skip(1);
        assert forall|i: int| 0 <= i < tail.len() - 1 implies tail[i] == EvModel::TimedOut by {
            assert(tail[i] == evs[i + 1]);
        }
        assert(tail[tail.len() - 1] == evs[evs.len() - 1]);
        lemma_retry_until_ack(tail, sends + 1);
    }
}

/// Fixed configuration of a channel: the bounded first-response timeout
/// and the reconnect backoff, both in milliseconds.
#[derive(Clone, Copy, PartialEq, Eq, Structural, Debug)]
pub struct ChannelConfig {
    pub timeout_ms: u64,
    pub backoff_ms: u64,
}

/// A command channel: exclusive owner of one (modeled) transport
/// connection.
pub struct Channel {
    pub conn: ConnectionState,
    pub config: ChannelConfig,
}

impl Channel {
    /// A fresh channel, not yet connected.
    pub fn new(config: ChannelConfig) -> (c: Channel)
        ensures
            c.conn == ConnectionState::Disconnected,
            c.config == config,
    {
        Channel { conn: ConnectionState::Disconnected, config }
    }

    /// Pure observation of the connection state; no I/O.
    pub fn is_connected(&self) -> (b: bool)
        ensures
            b <==> self.conn is Connected,
    {
        match self.conn {
            ConnectionState::Connected => true,
            _ => false,
        }
    }

    /// Drop whatever connection was held and begin a fresh attempt; valid
    /// in every state.
    pub fn begin_connect(&mut self)
        ensures
            final(self).conn == ConnectionState::Connecting,
            final(self).config == old(self).config,
    {
        self.conn = ConnectionState::Connecting;
    }

    /// Record the result of one connection attempt. On failure the caller
    /// waits `retry_delay_ms` and tries again, indefinitely.
    pub fn connect_attempt_done(&mut self, ok: bool)
        requires
            old(self).conn == ConnectionState::Connecting,
        ensures
            final(self).conn == if ok {
                ConnectionState::Connected
            } else {
                ConnectionState::Disconnected
            },
            final(self).config == old(self).config,
    {
        if ok {
            self.conn = ConnectionState::Connected;
        } else {
            self.conn = ConnectionState::Disconnected;
        }
    }

    /// How long to back off before the next connection attempt.
    pub fn retry_delay_ms(&self) -> (d: u64)
        ensures
            d == self.config.backoff_ms,
    {
        self.config.backoff_ms
    }

    /// Any transport failure while connected returns the channel to
    /// `Disconnected`.
    pub fn connection_lost(&mut self)
        ensures
            final(self).conn == ConnectionState::Disconnected,
            final(self).config == old(self).config,
    {
        self.conn = ConnectionState::Disconnected;
    }

    /// Begin a command exchange. Succeeds exactly when connected — this
    /// never reconnects on its own — and hands back the exchange with the
    /// wire bytes to send.
    pub fn start_exchange(&self, cmd: Command, id: Id64) -> (r: Result<
        (Exchange, Vec<u8>),
        ChannelError,
    >)
        ensures
            r is Ok <==> self.conn is Connected,
            r matches Ok((ex, payload)) ==> ex.req == (Request { id, cmd }) && ex.phase
                == ExchangePhase::AwaitingAck && payload@ == request_wire(Request { id, cmd }),
            r matches Err(e) ==> err_model(e) == ErrModel::NotConnected,
    {
        match self.conn {
            ConnectionState::Connected => {
                let ex = Exchange::start(cmd, id);
                let payload = ex.request_bytes();
                Ok((ex, payload))
            },
            _ => Err(ChannelError::NotConnected),
        }
    }
}

} // verus!
