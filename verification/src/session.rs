use vstd::prelude::*;
use crate::error::GatewayError;
use crate::response::{
    law_nonempty_response_is_rewritten, rewrite_response, rewritten, status_code, status_code_of,
};
use crate::routing::{
    draw_below, plan_route, route_for, GatewayConfig, GatewayConfigView, Server, ServerStatus,
};
use crate::text::{decode_lossy, utf8_lossy};

verus! {

/// The reply sent when no backend is online.
pub open spec fn unavailable_reply() -> Seq<char> {
    "HTTP/1.1 503 Service Unavailable\r\n\r\nNo available servers"@
}

/// The reply sent when connecting to a backend fails.
pub open spec fn bad_gateway_reply() -> Seq<char> {
    "HTTP/1.1 502 Bad Gateway\r\n\r\nFailed to connect to target server"@
}

/// The reply sent when connecting to a backend times out.
pub open spec fn gateway_timeout_reply() -> Seq<char> {
    "HTTP/1.1 504 Gateway Timeout\r\n\r\nTimeout while connecting to target server"@
}

/// Which error reply is being sent after a failed connection.
#[derive(Clone, Copy, Debug, PartialEq, Eq, Structural)]
pub enum FailureReply {
    BadGateway,
    GatewayTimeout,
}

impl FailureReply {
    pub open spec fn text(self) -> Seq<char> {
        match self {
            FailureReply::BadGateway => bad_gateway_reply(),
            FailureReply::GatewayTimeout => gateway_timeout_reply(),
        }
    }

    pub open spec fn code(self) -> Seq<char> {
        match self {
            FailureReply::BadGateway => "502"@,
            FailureReply::GatewayTimeout => "504"@,
        }
    }

    fn reply_text(self) -> (s: String)
        ensures
            s@ == self.text(),
    {
        match self {
            FailureReply::BadGateway => "HTTP/1.1 502 Bad Gateway\r\n\r\nFailed to connect to target server".to_owned(),
            FailureReply::GatewayTimeout => "HTTP/1.1 504 Gateway Timeout\r\n\r\nTimeout while connecting to target server".to_owned(),
        }
    }

    fn code_text(self) -> (s: String)
        ensures
            s@ == self.code(),
    {
        match self {
            FailureReply::BadGateway => "502".to_owned(),
            FailureReply::GatewayTimeout => "504".to_owned(),
        }
    }
}

/// An update of the gateway's metrics.
pub enum MetricUpdate {
    /// One more request received by the gateway.
    CountRequest,
    /// A backend's status gauge takes `value`.
    SetStatusGauge { server: Server, value: i64 },
    /// One more response with status `code` sent by the gateway.
    CountResponse { code: String },
    /// One more response with status `code` on behalf of `server`.
    CountServerResponse { server: Server, code: String },
    /// The time since the request came in is recorded as a latency sample,
    /// as measured by the caller when the backend's response was read.
    ObserveLatency,
}

pub enum MetricView {
    CountRequest,
    SetStatusGauge { server: Server, value: i64 },
    CountResponse { code: Seq<char> },
    CountServerResponse { server: Server, code: Seq<char> },
    ObserveLatency,
}

impl View for MetricUpdate {
    type V = MetricView;

    open spec fn view(&self) -> MetricView {
        match self {
            MetricUpdate::CountRequest => MetricView::CountRequest,
            MetricUpdate::SetStatusGauge { server, value } => MetricView::SetStatusGauge {
                server: *server,
                value: *value,
            },
            MetricUpdate::CountResponse { code } => MetricView::CountResponse { code: code@ },
            MetricUpdate::CountServerResponse { server, code } => MetricView::CountServerResponse {
                server: *server,
                code: code@,
            },
            MetricUpdate::ObserveLatency => MetricView::ObserveLatency,
        }
    }
}

pub open spec fn metric_views(v: Seq<MetricUpdate>) -> Seq<MetricView> {
    v.map_values(|m: MetricUpdate| m@)
}

/// The outside work that the session asks for next.
pub enum Command {
    /// Read the client's request.
    ReadRequest,
    /// Fetch the current configuration and backend status.
    LoadState,
    /// Connect to `addr` (resolving it first), with the connect timeout.
    Connect { addr: String },
    /// Send `text` to the connected backend, with the I/O timeout.
    SendRequest { text: String },
    /// Read the backend's response, with the I/O timeout.
    ReadResponse,
    /// Write `text` to the client and flush; with the I/O timeout when `timed`.
    Reply { text: String, timed: bool },
    /// The connection is handled, with this outcome.
    Finish { result: Result<(), GatewayError> },
}

pub enum CommandView {
    ReadRequest,
    LoadState,
    Connect { addr: Seq<char> },
    SendRequest { text: Seq<char> },
    ReadResponse,
    Reply { text: Seq<char>, timed: bool },
    Finish { result: Result<(), GatewayError> },
}

impl View for Command {
    type V = CommandView;

    open spec fn view(&self) -> CommandView {
        match self {
            Command::ReadRequest => CommandView::ReadRequest,
            Command::LoadState => CommandView::LoadState,
            Command::Connect { addr } => CommandView::Connect { addr: addr@ },
            Command::SendRequest { text } => CommandView::SendRequest { text: text@ },
            Command::ReadResponse => CommandView::ReadResponse,
            Command::Reply { text, timed } => CommandView::Reply { text: text@, timed: *timed },
            Command::Finish { result } => CommandView::Finish { result: *result },
        }
    }
}

/// The outcome of the outside work last asked for.
pub enum Event {
    /// The client's request was read; empty when the client sent nothing.
    RequestRead { bytes: Vec<u8> },
    /// The configuration and the backend status were fetched.
    StateLoaded { config: GatewayConfig, status: ServerStatus },
    /// The backend's address could not be resolved.
    Unresolved { refused: bool },
    /// The connection to the backend is open.
    Connected,
    /// The request was sent to the backend.
    Sent,
    /// The backend's response was read (empty when it closed the connection),
    /// `latency_ms` being the time since the request came in, in milliseconds.
    ResponseRead { bytes: Vec<u8>, latency_ms: String },
    /// The reply was written to the client and flushed.
    Replied,
    /// The work failed with `error`.
    Failed { error: GatewayError },
}

pub enum EventView {
    RequestRead { bytes: Seq<u8> },
    StateLoaded { config: GatewayConfigView, status: ServerStatus },
    Unresolved { refused: bool },
    Connected,
    Sent,
    ResponseRead { bytes: Seq<u8>, latency_ms: Seq<char> },
    Replied,
    Failed { error: GatewayError },
}

impl View for Event {
    type V = EventView;

    open spec fn view(&self) -> EventView {
        match self {
            Event::RequestRead { bytes } => EventView::RequestRead { bytes: bytes@ },
            Event::StateLoaded { config, status } => EventView::StateLoaded {
                config: config@,
                status: *status,
            },
            Event::Unresolved { refused } => EventView::Unresolved { refused: *refused },
            Event::Connected => EventView::Connected,
            Event::Sent => EventView::Sent,
            Event::ResponseRead { bytes, latency_ms } => EventView::ResponseRead {
                bytes: bytes@,
                latency_ms: latency_ms@,
            },
            Event::Replied => EventView::Replied,
            Event::Failed { error } => EventView::Failed { error: *error },
        }
    }
}

/// Where a session stands: what it waits for.
pub enum Stage {
    ReadingRequest,
    LoadingState,
    /// Sending the reply that no backend is online.
    Rejecting,
    Connecting,
    Sending,
    Receiving,
    /// Sending the backend's response, whose status is `code`.
    Replying { code: String },
    /// Sending an error reply after a failed connection that ended in `error`.
    ReportingFailure { reply: FailureReply, error: GatewayError },
    Done { result: Result<(), GatewayError> },
}

pub enum StageView {
    ReadingRequest,
    LoadingState,
    Rejecting,
    Connecting,
    Sending,
    Receiving,
    Replying { code: Seq<char> },
    ReportingFailure { reply: FailureReply, error: GatewayError },
    Done { result: Result<(), GatewayError> },
}

impl View for Stage {
    type V = StageView;

    open spec fn view(&self) -> StageView {
        match self {
            Stage::ReadingRequest => StageView::ReadingRequest,
            Stage::LoadingState => StageView::LoadingState,
            Stage::Rejecting => StageView::Rejecting,
            Stage::Connecting => StageView::Connecting,
            Stage::Sending => StageView::Sending,
            Stage::Receiving => StageView::Receiving,
            Stage::Replying { code } => StageView::Replying { code: code@ },
            Stage::ReportingFailure { reply, error } => StageView::ReportingFailure {
                reply: *reply,
                error: *error,
            },
            Stage::Done { result } => StageView::Done { result: *result },
        }
    }
}

/// The handling of one client connection: the decisions between the reads,
/// writes and connections that the caller performs.
pub struct Session {
    pub stage: Stage,
    /// The client's request, decoded.
    pub request: String,
    /// The configuration in force when the request came in.
    pub config: GatewayConfig,
    /// The backend being tried.
    pub target: Server,
    /// Whether the request has already been moved to the other backend.
    pub fallback_used: bool,
}

pub struct SessionView {
    pub stage: StageView,
    pub request: Seq<char>,
    pub config: GatewayConfigView,
    pub target: Server,
    pub fallback_used: bool,
}

impl View for Session {
    type V = SessionView;

    open spec fn view(&self) -> SessionView {
        SessionView {
            stage: self.stage@,
            request: self.request@,
            config: self.config@,
            target: self.target,
            fallback_used: self.fallback_used,
        }
    }
}

/// What a step gives back: metric updates to apply, then the next command.
pub struct Output {
    pub metrics: Vec<MetricUpdate>,
    pub command: Command,
}

pub struct OutputView {
    pub metrics: Seq<MetricView>,
    pub command: CommandView,
}

impl View for Output {
    type V = OutputView;

    open spec fn view(&self) -> OutputView {
        OutputView { metrics: metric_views(self.metrics@), command: self.command@ }
    }
}

/// The session ends with `result`.
pub open spec fn finish_spec(s: SessionView, result: Result<(), GatewayError>, metrics: Seq<MetricView>) -> (SessionView, OutputView) {
    (
        SessionView { stage: StageView::Done { result }, ..s },
        OutputView { metrics, command: CommandView::Finish { result } },
    )
}

/// An attempt to forward the request failed with `error`: a refused
/// connection on the first backend moves the request to the other one;
/// any other failure ends the session with that error.
pub open spec fn attempt_failed_spec(s: SessionView, error: GatewayError, metrics: Seq<MetricView>) -> (SessionView, OutputView) {
    if error.spec_is_refused() && !s.fallback_used {
        let t = s.target.spec_other();
        (
            SessionView { stage: StageView::Connecting, target: t, fallback_used: true, ..s },
            OutputView { metrics, command: CommandView::Connect { addr: s.config.addr(t) } },
        )
    } else {
        finish_spec(s, Err(error), metrics)
    }
}

pub open spec fn gauges(status: ServerStatus) -> Seq<MetricView> {
    seq![
        MetricView::SetStatusGauge {
            server: Server::Primary,
            value: if status.primary_online { 1 } else { 0 },
        },
        MetricView::SetStatusGauge {
            server: Server::Canary,
            value: if status.canary_online { 1 } else { 0 },
        },
    ]
}

pub open spec fn response_metrics(server: Server, code: Seq<char>) -> Seq<MetricView> {
    seq![
        MetricView::CountResponse { code },
        MetricView::CountServerResponse { server, code },
    ]
}

/// How a session in state `s` answers event `e`, where `roll` is the random
/// draw from `0..100` that decides between two online backends. `None` for an
/// event that does not answer the session's pending command.
pub open spec fn next(s: SessionView, e: EventView, roll: u8) -> Option<(SessionView, OutputView)> {
    let none = Seq::<MetricView>::empty();
    match s.stage {
        StageView::ReadingRequest => match e {
            EventView::RequestRead { bytes } => if bytes.len() == 0 {
                Some(finish_spec(s, Ok(()), none))
            } else {
                Some(
                    (
                        SessionView {
                            stage: StageView::LoadingState,
                            request: utf8_lossy(bytes),
                            ..s
                        },
                        OutputView {
                            metrics: seq![MetricView::CountRequest],
                            command: CommandView::LoadState,
                        },
                    ),
                )
            },
            EventView::Failed { error } => Some(finish_spec(s, Err(error), none)),
            _ => None,
        },
        StageView::LoadingState => match e {
            EventView::StateLoaded { config, status } => match route_for(
                status,
                config.canary_percentage,
                roll,
            ) {
                None => Some(
                    (
                        SessionView { stage: StageView::Rejecting, config, ..s },
                        OutputView {
                            metrics: gauges(status),
                            command: CommandView::Reply { text: unavailable_reply(), timed: false },
                        },
                    ),
                ),
                Some(t) => Some(
                    (
                        SessionView { stage: StageView::Connecting, config, target: t, ..s },
                        OutputView {
                            metrics: gauges(status),
                            command: CommandView::Connect { addr: config.addr(t) },
                        },
                    ),
                ),
            },
            _ => None,
        },
        StageView::Rejecting => match e {
            EventView::Replied => Some(
                finish_spec(s, Ok(()), seq![MetricView::CountResponse { code: "503"@ }]),
            ),
            EventView::Failed { error } => Some(finish_spec(s, Err(error), none)),
            _ => None,
        },
        StageView::Connecting => match e {
            EventView::Connected => Some(
                (
                    SessionView { stage: StageView::Sending, ..s },
                    OutputView { metrics: none, command: CommandView::SendRequest { text: s.request } },
                ),
            ),
            EventView::Unresolved { refused } => Some(
                attempt_failed_spec(s, GatewayError::Io { refused }, none),
            ),
            EventView::Failed { error } => match error {
                GatewayError::Io { .. } => if error.spec_is_refused() && !s.fallback_used {
                    Some(attempt_failed_spec(s, error, none))
                } else {
                    Some(
                    (
                        SessionView {
                            stage: StageView::ReportingFailure {
                                reply: FailureReply::BadGateway,
                                error,
                            },
                            ..s
                        },
                        OutputView {
                            metrics: none,
                            command: CommandView::Reply { text: bad_gateway_reply(), timed: false },
                        },
                    ),
                    )
                },
                GatewayError::ConnectTimeout => Some(
                    (
                        SessionView {
                            stage: StageView::ReportingFailure {
                                reply: FailureReply::GatewayTimeout,
                                error,
                            },
                            ..s
                        },
                        OutputView {
                            metrics: none,
                            command: CommandView::Reply {
                                text: gateway_timeout_reply(),
                                timed: false,
                            },
                        },
                    ),
                ),
                _ => None,
            },
            _ => None,
        },
        StageView::ReportingFailure { reply, error } => match e {
            EventView::Replied => Some(
                attempt_failed_spec(s, error, response_metrics(s.target, reply.code())),
            ),
            EventView::Failed { error: e2 } => Some(attempt_failed_spec(s, e2, none)),
            _ => None,
        },
        StageView::Sending => match e {
            EventView::Sent => Some(
                (
                    SessionView { stage: StageView::Receiving, ..s },
                    OutputView { metrics: none, command: CommandView::ReadResponse },
                ),
            ),
            EventView::Failed { error } => Some(attempt_failed_spec(s, error, none)),
            _ => None,
        },
        StageView::Receiving => match e {
            EventView::ResponseRead { bytes, latency_ms } => if bytes.len() == 0 {
                Some(finish_spec(s, Ok(()), none))
            } else {
                let text = utf8_lossy(bytes);
                let observed = seq![MetricView::ObserveLatency];
                match rewritten(text, latency_ms) {
                    None => Some(attempt_failed_spec(s, GatewayError::InvalidResponse, observed)),
                    Some(full) => Some(
                        (
                            SessionView {
                                stage: StageView::Replying { code: status_code_of(text) },
                                ..s
                            },
                            OutputView {
                                metrics: observed,
                                command: CommandView::Reply { text: full, timed: true },
                            },
                        ),
                    ),
                }
            },
            EventView::Failed { error } => Some(attempt_failed_spec(s, error, none)),
            _ => None,
        },
        StageView::Replying { code } => match e {
            EventView::Replied => Some(finish_spec(s, Ok(()), response_metrics(s.target, code))),
            EventView::Failed { error } => Some(attempt_failed_spec(s, error, none)),
            _ => None,
        },
        StageView::Done { .. } => None,
    }
}

/// A backend's response that is not empty is always passed on: a session
/// that receives one goes on to reply with it.
pub open spec fn forwards_response(before: SessionView, e: EventView, after: SessionView) -> bool {
    (before.stage is Receiving && (e matches EventView::ResponseRead { bytes, .. } && bytes.len()
        > 0)) ==> after.stage is Replying
}

/// What `step_with_roll` promises: the session and the output follow `next`,
/// and an event that does not fit leaves the session as it was.
pub open spec fn follows_next(before: SessionView, e: EventView, roll: u8, after: SessionView, out: Option<Output>) -> bool {
    match next(before, e, roll) {
        Some(r) => out matches Some(o) && (after, o@) == r,
        None => out is None && after == before,
    }
}

fn no_metrics() -> (v: Vec<MetricUpdate>)
    ensures
        metric_views(v@) == Seq::<MetricView>::empty(),
{
    let v: Vec<MetricUpdate> = Vec::new();
    assert(metric_views(v@) =~= Seq::<MetricView>::empty());
    v
}

fn gauge_updates(status: ServerStatus) -> (v: Vec<MetricUpdate>)
    ensures
        metric_views(v@) == gauges(status),
{
    let mut v: Vec<MetricUpdate> = Vec::new();
    v.push(MetricUpdate::SetStatusGauge { server: Server::Primary, value: status.gauge_value(Server::Primary) });
    v.push(MetricUpdate::SetStatusGauge { server: Server::Canary, value: status.gauge_value(Server::Canary) });
    assert(metric_views(v@) =~= gauges(status));
    v
}

fn response_updates(server: Server, code: &String) -> (v: Vec<MetricUpdate>)
    ensures
        metric_views(v@) == response_metrics(server, code@),
{
    let mut v: Vec<MetricUpdate> = Vec::new();
    v.push(MetricUpdate::CountResponse { code: code.clone() });
    v.push(MetricUpdate::CountServerResponse { server, code: code.clone() });
    assert(metric_views(v@) =~= response_metrics(server, code@));
    v
}

impl Session {
    /// A session for a newly accepted connection, and its first command: read
    /// the request.
    pub fn start() -> (r: (Session, Command))
        ensures
            r.0@.stage == StageView::ReadingRequest,
            r.0@.request == Seq::<char>::empty(),
            r.0@.config.primary_addr == Seq::<char>::empty(),
            r.0@.config.canary_addr == Seq::<char>::empty(),
            r.0@.config.canary_percentage == 0,
            well_formed(r.0@),
            r.0@.target == Server::Primary,
            !r.0@.fallback_used,
            r.1@ == CommandView::ReadRequest,
    {
        (
            Session {
                stage: Stage::ReadingRequest,
                request: String::new(),
                config: GatewayConfig::empty(),
                target: Server::Primary,
                fallback_used: false,
            },
            Command::ReadRequest,
        )
    }

    fn finish(&mut self, result: Result<(), GatewayError>, metrics: Vec<MetricUpdate>) -> (o: Output)
        ensures
            (final(self)@, o@) == finish_spec(old(self)@, result, metric_views(metrics@)),
    {
        self.stage = Stage::Done { result };
        Output { metrics, command: Command::Finish { result } }
    }

    fn attempt_failed(&mut self, error: GatewayError, metrics: Vec<MetricUpdate>) -> (o: Output)
        ensures
            (final(self)@, o@) == attempt_failed_spec(old(self)@, error, metric_views(metrics@)),
    {
        if error.is_refused() && !self.fallback_used {
            let t = self.target.other();
            self.target = t;
            self.fallback_used = true;
            self.stage = Stage::Connecting;
            let addr = self.config.address(t);
            Output { metrics, command: Command::Connect { addr } }
        } else {
            self.finish(Err(error), metrics)
        }
    }

    fn on_reading_request(&mut self, event: Event) -> (out: Option<Output>)
        requires
            old(self)@.stage == StageView::ReadingRequest,
        ensures
            follows_next(old(self)@, event@, 0, final(self)@, out),
    {
        match event {
            Event::RequestRead { bytes } => {
                if bytes.len() == 0 {
                    Some(self.finish(Ok(()), no_metrics()))
                } else {
                    self.request = decode_lossy(bytes.as_slice());
                    self.stage = Stage::LoadingState;
                    let mut m: Vec<MetricUpdate> = Vec::new();
                    m.push(MetricUpdate::CountRequest);
                    assert(metric_views(m@) =~= seq![MetricView::CountRequest]);
                    Some(Output { metrics: m, command: Command::LoadState })
                }
            },
            Event::Failed { error } => Some(self.finish(Err(error), no_metrics())),
            _ => None,
        }
    }

    fn on_state_loaded(&mut self, event: Event, roll: u8) -> (out: Option<Output>)
        requires
            old(self)@.stage == StageView::LoadingState,
        ensures
            follows_next(old(self)@, event@, roll, final(self)@, out),
    {
        match event {
            Event::StateLoaded { config, status } => {
                let route = plan_route(&config, status, roll);
                let metrics = gauge_updates(status);
                match route {
                    None => {
                        self.config = config;
                        self.stage = Stage::Rejecting;
                        let text = "HTTP/1.1 503 Service Unavailable\r\n\r\nNo available servers".to_owned();
                        Some(Output { metrics, command: Command::Reply { text, timed: false } })
                    },
                    Some(t) => {
                        let addr = config.address(t);
                        self.config = config;
                        self.target = t;
                        self.stage = Stage::Connecting;
                        Some(Output { metrics, command: Command::Connect { addr } })
                    },
                }
            },
            _ => None,
        }
    }

    fn on_rejecting(&mut self, event: Event) -> (out: Option<Output>)
        requires
            old(self)@.stage == StageView::Rejecting,
        ensures
            follows_next(old(self)@, event@, 0, final(self)@, out),
    {
        match event {
            Event::Replied => {
                let mut m: Vec<MetricUpdate> = Vec::new();
                m.push(MetricUpdate::CountResponse { code: "503".to_owned() });
                assert(metric_views(m@) =~= seq![MetricView::CountResponse { code: "503"@ }]);
                Some(self.finish(Ok(()), m))
            },
            Event::Failed { error } => Some(self.finish(Err(error), no_metrics())),
            _ => None,
        }
    }

    fn on_connecting(&mut self, event: Event) -> (out: Option<Output>)
        requires
            old(self)@.stage == StageView::Connecting,
        ensures
            follows_next(old(self)@, event@, 0, final(self)@, out),
    {
        match event {
            Event::Connected => {
                self.stage = Stage::Sending;
                let text = self.request.clone();
                Some(Output { metrics: no_metrics(), command: Command::SendRequest { text } })
            },
            Event::Unresolved { refused } => Some(
                self.attempt_failed(GatewayError::Io { refused }, no_metrics()),
            ),
            Event::Failed { error } => {
                if error.is_refused() && !self.fallback_used {
                    return Some(self.attempt_failed(error, no_metrics()));
                }
                let reply = match error {
                    GatewayError::Io { .. } => FailureReply::BadGateway,
                    GatewayError::ConnectTimeout => FailureReply::GatewayTimeout,
                    _ => {
                        return None;
                    },
                };
                self.stage = Stage::ReportingFailure { reply, error };
                let text = reply.reply_text();
                Some(Output { metrics: no_metrics(), command: Command::Reply { text, timed: false } })
            },
            _ => None,
        }
    }

    fn on_reporting_failure(&mut self, event: Event, reply: FailureReply, error: GatewayError) -> (out: Option<Output>)
        requires
            old(self)@.stage == (StageView::ReportingFailure { reply, error }),
        ensures
            follows_next(old(self)@, event@, 0, final(self)@, out),
    {
        match event {
            Event::Replied => {
                let code = reply.code_text();
                let m = response_updates(self.target, &code);
                Some(self.attempt_failed(error, m))
            },
            Event::Failed { error: e2 } => Some(self.attempt_failed(e2, no_metrics())),
            _ => None,
        }
    }

    fn on_sending(&mut self, event: Event) -> (out: Option<Output>)
        requires
            old(self)@.stage == StageView::Sending,
        ensures
            follows_next(old(self)@, event@, 0, final(self)@, out),
    {
        match event {
            Event::Sent => {
                self.stage = Stage::Receiving;
                Some(Output { metrics: no_metrics(), command: Command::ReadResponse })
            },
            Event::Failed { error } => Some(self.attempt_failed(error, no_metrics())),
            _ => None,
        }
    }

    fn on_receiving(&mut self, event: Event) -> (out: Option<Output>)
        requires
            old(self)@.stage == StageView::Receiving,
        ensures
            follows_next(old(self)@, event@, 0, final(self)@, out),
            forwards_response(old(self)@, event@, final(self)@),
    {
        match event {
            Event::ResponseRead { bytes, latency_ms } => {
                if bytes.len() == 0 {
                    Some(self.finish(Ok(()), no_metrics()))
                } else {
                    let text = decode_lossy(bytes.as_slice());
                    proof {
                        law_nonempty_response_is_rewritten(text@, latency_ms@);
                    }
                    let code = status_code(text.as_str());
                    let mut observed: Vec<MetricUpdate> = Vec::new();
                    observed.push(MetricUpdate::ObserveLatency);
                    assert(metric_views(observed@) =~= seq![MetricView::ObserveLatency]);
                    match rewrite_response(text.as_str(), latency_ms.as_str()) {
                        Err(_) => Some(self.attempt_failed(GatewayError::InvalidResponse, observed)),
                        Ok(full) => {
                            self.stage = Stage::Replying { code };
                            Some(Output { metrics: observed, command: Command::Reply { text: full, timed: true } })
                        },
                    }
                }
            },
            Event::Failed { error } => Some(self.attempt_failed(error, no_metrics())),
            _ => None,
        }
    }

    fn on_replying(&mut self, event: Event, code: String) -> (out: Option<Output>)
        requires
            old(self)@.stage == (StageView::Replying { code: code@ }),
        ensures
            follows_next(old(self)@, event@, 0, final(self)@, out),
    {
        match event {
            Event::Replied => {
                let m = response_updates(self.target, &code);
                Some(self.finish(Ok(()), m))
            },
            Event::Failed { error } => Some(self.attempt_failed(error, no_metrics())),
            _ => None,
        }
    }

    /// Answers `event` where `roll`, from `0..100`, is the draw that decides
    /// between two online backends.
    pub fn step_with_roll(&mut self, event: Event, roll: u8) -> (out: Option<Output>)
        ensures
            follows_next(old(self)@, event@, roll, final(self)@, out),
            forwards_response(old(self)@, event@, final(self)@),
    {
        match &self.stage {
            Stage::ReadingRequest => self.on_reading_request(event),
            Stage::LoadingState => self.on_state_loaded(event, roll),
            Stage::Rejecting => self.on_rejecting(event),
            Stage::Connecting => self.on_connecting(event),
            Stage::Sending => self.on_sending(event),
            Stage::Receiving => self.on_receiving(event),
            Stage::Replying { code } => {
                let c = code.clone();
                self.on_replying(event, c)
            },
            Stage::ReportingFailure { reply, error } => {
                let r = *reply;
                let e = *error;
                self.on_reporting_failure(event, r, e)
            },
            Stage::Done { .. } => None,
        }
    }

    /// Answers `event`; when the event brings the configuration and the
    /// status, a fresh random draw decides between two online backends.
    pub fn step(&mut self, event: Event) -> (out: Option<Output>)
        ensures
            exists|roll: u8| roll < 100 && follows_next(old(self)@, event@, roll, final(self)@, out),
            forwards_response(old(self)@, event@, final(self)@),
    {
        let roll = match &self.stage {
            Stage::LoadingState => draw_below(100),
            _ => 0,
        };
        self.step_with_roll(event, roll)
    }
}

/// How far a session is from its end; every step lowers it.
pub open spec fn rank(s: SessionView) -> nat {
    let stage: nat = match s.stage {
        StageView::Done { .. } => 0,
        StageView::Replying { .. } => 1,
        StageView::ReportingFailure { .. } => 1,
        StageView::Rejecting => 1,
        StageView::Receiving => 2,
        StageView::Sending => 3,
        StageView::Connecting => 4,
        StageView::LoadingState => 5,
        StageView::ReadingRequest => 6,
    };
    stage + if s.fallback_used { 0nat } else { 7nat }
}

/// What holds of every session that `start` and `step` can reach: the
/// request is moved to the other backend only once the state is loaded.
pub open spec fn well_formed(s: SessionView) -> bool {
    (s.stage is ReadingRequest || s.stage is LoadingState) ==> !s.fallback_used
}

/// Every step that a session takes brings it closer to its end, so that a
/// session answers a bounded number of events and then finishes.
pub proof fn law_every_step_progresses(s: SessionView, e: EventView, roll: u8)
    ensures
        next(s, e, roll) matches Some(r) ==> rank(r.0) < rank(s),
{
}

/// A finished session takes no more events.
pub proof fn law_done_is_final(s: SessionView, e: EventView, roll: u8)
    requires
        s.stage is Done,
    ensures
        next(s, e, roll) is None,
{
}

/// A step finishes the session exactly when its command is `Finish`, and
/// the session keeps the result it finished with.
pub proof fn law_finish_ends_session(s: SessionView, e: EventView, roll: u8)
    ensures
        next(s, e, roll) matches Some(r) ==> ((r.1.command is Finish <==> r.0.stage is Done) && (
        r.1.command matches CommandView::Finish { result } ==> r.0.stage == (StageView::Done {
            result,
        }))),
{
}

/// Every step keeps sessions well formed, and `start` makes one.
pub proof fn law_steps_keep_well_formed(s: SessionView, e: EventView, roll: u8)
    requires
        well_formed(s),
    ensures
        next(s, e, roll) matches Some(r) ==> well_formed(r.0),
{
}

/// Whether the step of `s` on `e` observes an I/O error of kind "connection
/// refused": the event reports one, or it ends the error reply sent after one.
pub open spec fn refusal_observed(s: SessionView, e: EventView) -> bool {
    ||| e == (EventView::Unresolved { refused: true })
    ||| (e matches EventView::Failed { error } && error.spec_is_refused())
    ||| (e is Replied && (s.stage matches StageView::ReportingFailure { error, .. }
        && error.spec_is_refused()))
}

/// A request is moved to the other backend at most once, and only after a
/// refused connection: once moved, the backend stays; when moved, it goes to
/// the other backend, by a new connection, after a step that observed an I/O
/// error of kind "connection refused".
pub proof fn law_single_fallback_after_refusal(s: SessionView, e: EventView, roll: u8)
    requires
        well_formed(s),
    ensures
        next(s, e, roll) matches Some(r) ==> {
            &&& s.fallback_used ==> r.0.fallback_used && r.0.target == s.target
            &&& !s.fallback_used && r.0.fallback_used ==> {
                &&& r.0.target == s.target.spec_other()
                &&& r.0.stage is Connecting
                &&& r.1.command == (CommandView::Connect { addr: s.config.addr(r.0.target) })
                &&& refusal_observed(s, e)
            }
        },
{
}

/// The gateway answers that no server is available only when the state it
/// loaded shows both backends offline; otherwise the first backend it
/// connects to is one that is online.
pub proof fn law_first_backend_is_online(s: SessionView, e: EventView, roll: u8)
    requires
        s.stage is LoadingState,
    ensures
        next(s, e, roll) matches Some(r) ==> (e matches EventView::StateLoaded { status, .. } && (
        r.0.stage is Rejecting <==> (!status.primary_online && !status.canary_online)) && (
        r.0.stage is Connecting ==> status.online(r.0.target))),
{
}

/// A refused attempt on the first backend goes straight to the other
/// backend: the client gets no error reply for it and no response is counted,
/// so that the client sees only the other backend's answer.
pub proof fn law_refused_attempt_retries_quietly(s: SessionView, e: EventView, roll: u8)
    requires
        !s.fallback_used,
        s.stage is Connecting || s.stage is Sending || s.stage is Receiving || s.stage is Replying,
        e == (EventView::Failed { error: GatewayError::Io { refused: true } }) || (s.stage is Connecting
            && e == (EventView::Unresolved { refused: true })),
    ensures
        next(s, e, roll) matches Some(r) && r.0.stage is Connecting && r.0.fallback_used
            && r.0.target == s.target.spec_other() && r.1.metrics.len() == 0 && r.1.command == (
        CommandView::Connect { addr: s.config.addr(s.target.spec_other()) }),
{
}

/// An error reply after a failed connection is sent only when no retry
/// follows: the failure was not a refusal, or the other backend was already
/// tried.
pub proof fn law_error_reply_only_without_retry(s: SessionView, e: EventView, roll: u8)
    ensures
        next(s, e, roll) matches Some(r) ==> (r.0.stage matches StageView::ReportingFailure {
            error,
            ..
        } ==> !(error.spec_is_refused() && !r.0.fallback_used)),
{
}

/// What is sent to a backend is the client's request as it was read, and
/// the request is not changed once it is read.
pub proof fn law_request_forwarded_unchanged(s: SessionView, e: EventView, roll: u8)
    requires
        !(s.stage is ReadingRequest),
    ensures
        next(s, e, roll) matches Some(r) ==> (r.0.request == s.request && (
        r.1.command matches CommandView::SendRequest { text } ==> text == s.request)),
{
}


/// Once connected, a failure that is not a refused connection, or any
/// failure on the second backend, ends the session with that very error:
/// no retry, no reply and no metrics.
pub proof fn law_other_failures_end_session(s: SessionView, error: GatewayError, roll: u8)
    requires
        s.stage is Sending || s.stage is Receiving || s.stage is Replying,
        error != (GatewayError::Io { refused: true }) || s.fallback_used,
    ensures
        next(s, EventView::Failed { error }, roll) matches Some(r) && r.0.stage == (
        StageView::Done { result: Err(error) }) && r.1.command == (CommandView::Finish {
            result: Err(error),
        }) && r.1.metrics.len() == 0 && r.0.target == s.target,
{
}

} // verus!
