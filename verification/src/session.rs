use vstd::prelude::*;
use crate::auth::{invalid_token_text, is_uuid_v4_text, resolve_user_id, token_accepted, verify_token};
use crate::error::{error_text, ErrorKind, MediaSoupError};
use crate::json::{same_text, str_field, view_str_field, JsonValue, JsonView};
use crate::request::{decode_request, decodes_as, error_replies, method_of, replies, reply_for, Method, Request};
use crate::signaling::{opt_text_view, IncomingMessage, OutgoingMessage};

verus! {

/// Where a connection stands in the signaling protocol.
pub enum Phase {
    /// Nothing but an `authenticate` request is accepted yet.
    AwaitingAuth,
    /// The client authenticated as this user and may send requests.
    Active(String),
    /// The connection is over.
    Closed,
}

/// What the transport delivered to a connection.
pub enum ConnectionEvent {
    /// A text frame that parsed as a signaling envelope.
    Message(IncomingMessage),
    /// A text frame that did not parse as a signaling envelope, with the
    /// parser's reason.
    Malformed(String),
    /// A Close frame.
    Close,
    /// A ping, pong or binary frame.
    Control,
    /// The stream ended.
    Ended,
    /// Reading the next frame failed, with the transport's reason.
    Failed(String),
}

/// What the connection handler must do next.
pub enum SessionAction {
    /// Nothing; read the next frame.
    Idle,
    /// The client authenticated: send `reply` if any, then join `room_id` as `user_id`.
    Admit { user_id: String, room_id: String, reply: Option<OutgoingMessage> },
    /// Authentication failed: send `reply` if any, then close with `error`.
    Reject { reply: Option<OutgoingMessage>, error: MediaSoupError },
    /// Carry out `request` and answer it with [`crate::request::reply_for`].
    Perform { request: Request, request_id: Option<String> },
    /// The frame is already settled: send `reply` if any; `failure` is worth logging.
    Answer { reply: Option<OutgoingMessage>, failure: Option<MediaSoupError> },
    /// The connection is over, with this outcome.
    Finish(Result<(), MediaSoupError>),
}

/// The protocol state of one client connection.
pub struct Session {
    auth_token: Option<String>,
    phase: Phase,
}

/// The room every authenticated client joins.
pub open spec fn default_room() -> Seq<char> {
    "default"@
}

/// The reason given, and sent as the reply's error text, when the first
/// frame is not an `authenticate` request.
pub open spec fn auth_required_text() -> Seq<char> {
    "Authentication required: first message must be 'authenticate'"@
}

/// The reason given when a Close frame arrives before authentication.
pub open spec fn closed_before_auth_text() -> Seq<char> {
    "Closed before auth"@
}

/// The reason given when the stream ends before authentication.
pub open spec fn ended_before_auth_text() -> Seq<char> {
    "Connection closed before authentication"@
}

/// An empty JSON object.
pub open spec fn empty_object_view() -> JsonView {
    JsonView::Object(Seq::empty())
}

/// The token a message presents: its `token` field when that is a string, else empty.
pub open spec fn presented_token(msg: IncomingMessage) -> Seq<char> {
    match view_str_field(msg.payload_view(), "token"@) {
        Some(t) => t,
        None => Seq::empty(),
    }
}

/// How the first request of a connection is judged.
pub enum AuthVerdict {
    /// The message is not an `authenticate` request.
    NotAuthenticate,
    /// The token does not match the secret.
    BadToken,
    /// The client may proceed.
    Accepted,
}

/// The verdict on a message received before authentication.
pub open spec fn auth_verdict(token: Option<String>, msg: IncomingMessage) -> AuthVerdict {
    if msg.msg_type@ != "authenticate"@ {
        AuthVerdict::NotAuthenticate
    } else if !token_accepted(token, presented_token(msg)) {
        AuthVerdict::BadToken
    } else {
        AuthVerdict::Accepted
    }
}

/// The identity an admitted client takes, given the id it claimed.
pub open spec fn admitted_as(claimed: Option<Seq<char>>, user_id: Seq<char>) -> bool {
    match claimed {
        Some(c) => if c.len() > 0 { user_id == c } else { is_uuid_v4_text(user_id) },
        None => is_uuid_v4_text(user_id),
    }
}

/// The step for a message received before authentication.
pub open spec fn auth_step(token: Option<String>, msg: IncomingMessage, after: Phase, action: SessionAction) -> bool {
    let rid = opt_text_view(msg.request_id);
    match auth_verdict(token, msg) {
        AuthVerdict::NotAuthenticate => after is Closed && (action matches SessionAction::Reject { reply, error }
            && error@ == (ErrorKind::InvalidRequest, auth_required_text())
            && error_replies(reply, rid, auth_required_text())),
        AuthVerdict::BadToken => after is Closed && (action matches SessionAction::Reject { reply, error }
            && error@ == (ErrorKind::InvalidRequest, invalid_token_text())
            && error_replies(reply, rid, error_text(error@))),
        AuthVerdict::Accepted => action matches SessionAction::Admit { user_id, room_id, reply }
            && after == Phase::Active(user_id)
            && room_id@ == default_room()
            && admitted_as(opt_text_view(msg.user_id), user_id@)
            && replies(reply, rid, Ok(empty_object_view())),
    }
}

/// The step for a message received once authenticated.
pub open spec fn active_step(msg: IncomingMessage, action: SessionAction) -> bool {
    let rid = opt_text_view(msg.request_id);
    if method_of(msg.msg_type@) == Some(Method::Authenticate) {
        action matches SessionAction::Answer { reply, failure } && failure is None
            && replies(reply, rid, Ok(empty_object_view()))
    } else {
        match action {
            SessionAction::Perform { request, request_id } => decodes_as(msg.msg_type@, msg.payload_view(), Ok(request))
                && opt_text_view(request_id) == rid,
            SessionAction::Answer { reply, failure } => failure matches Some(e)
                && decodes_as(msg.msg_type@, msg.payload_view(), Err(e))
                && replies(reply, rid, Err(e@)),
            _ => false,
        }
    }
}

/// One step of the protocol: from `before`, on `event`, the connection moves
/// to `after` and the handler must do `action`.
pub open spec fn transition(
    token: Option<String>,
    before: Phase,
    event: ConnectionEvent,
    after: Phase,
    action: SessionAction,
) -> bool {
    match before {
        Phase::Closed => after is Closed && action is Idle,
        Phase::AwaitingAuth => match event {
            ConnectionEvent::Message(msg) => auth_step(token, msg, after, action),
            ConnectionEvent::Malformed(m) => after is Closed && (action matches SessionAction::Finish(Err(e))
                && e@ == (ErrorKind::Json, m@)),
            ConnectionEvent::Close => after is Closed && (action matches SessionAction::Finish(Err(e))
                && e@ == (ErrorKind::InvalidRequest, closed_before_auth_text())),
            ConnectionEvent::Control => after is AwaitingAuth && action is Idle,
            ConnectionEvent::Ended => after is Closed && (action matches SessionAction::Finish(Err(e))
                && e@ == (ErrorKind::InvalidRequest, ended_before_auth_text())),
            ConnectionEvent::Failed(m) => after is Closed && (action matches SessionAction::Finish(Err(e))
                && e@ == (ErrorKind::WebSocket, m@)),
        },
        Phase::Active(_u) => match event {
            ConnectionEvent::Message(msg) => after == before && active_step(msg, action),
            ConnectionEvent::Malformed(m) => after == before && (action matches SessionAction::Answer { reply, failure }
                && reply is None && (failure matches Some(e) && e@ == (ErrorKind::Json, m@))),
            ConnectionEvent::Close => after is Closed && action matches SessionAction::Finish(Ok(())),
            ConnectionEvent::Control => after == before && action is Idle,
            ConnectionEvent::Ended => after is Closed && action matches SessionAction::Finish(Ok(())),
            ConnectionEvent::Failed(m) => after is Closed && (action matches SessionAction::Finish(Err(e))
                && e@ == (ErrorKind::WebSocket, m@)),
        },
    }
}

impl Session {
    /// The shared secret this connection is checked against.
    pub closed spec fn token(&self) -> Option<String> {
        self.auth_token
    }

    /// Where this connection stands.
    pub closed spec fn state(&self) -> Phase {
        self.phase
    }

    /// An authenticated connection always has a non-empty identity.
    pub open spec fn wf(&self) -> bool {
        self.state() matches Phase::Active(u) ==> u@.len() > 0
    }

    /// A fresh connection, waiting for its `authenticate` request.
    pub fn new(auth_token: Option<String>) -> (s: Session)
        ensures
            s.token() == auth_token,
            s.state() is AwaitingAuth,
            s.wf(),
    {
        Session { auth_token, phase: Phase::AwaitingAuth }
    }

    /// Whether the client has authenticated and the connection is still open.
    pub fn is_active(&self) -> (active: bool)
        ensures
            active == self.state() is Active,
    {
        match self.phase {
            Phase::Active(_) => true,
            _ => false,
        }
    }

    /// Whether the connection is over.
    pub fn is_closed(&self) -> (closed: bool)
        ensures
            closed == self.state() is Closed,
    {
        match self.phase {
            Phase::Closed => true,
            _ => false,
        }
    }

    /// Advances the protocol by one transport event.
    pub fn on_event(&mut self, event: ConnectionEvent) -> (action: SessionAction)
        requires
            old(self).wf(),
        ensures
            final(self).wf(),
            final(self).token() == old(self).token(),
            transition(old(self).token(), old(self).state(), event, final(self).state(), action),
            event is Control && !(old(self).state() is Closed) ==> final(self).state() == old(self).state()
                && action is Idle,
            old(self).state() is Active && final(self).state() is Closed ==> event is Close || event is Ended
                || event is Failed,
    {
        let awaiting = match self.phase {
            Phase::AwaitingAuth => true,
            _ => false,
        };
        if self.is_closed() {
            return SessionAction::Idle;
        }
        if awaiting {
            self.on_event_before_auth(event)
        } else {
            self.on_event_when_active(event)
        }
    }

    fn on_event_before_auth(&mut self, event: ConnectionEvent) -> (action: SessionAction)
        requires
            old(self).state() is AwaitingAuth,
        ensures
            final(self).wf(),
            final(self).token() == old(self).token(),
            transition(old(self).token(), old(self).state(), event, final(self).state(), action),
    {
        match event {
            ConnectionEvent::Message(msg) => self.authenticate(msg),
            ConnectionEvent::Malformed(m) => {
                self.phase = Phase::Closed;
                SessionAction::Finish(Err(MediaSoupError::Json(m)))
            },
            ConnectionEvent::Close => {
                self.phase = Phase::Closed;
                let text = "Closed before auth".to_string();
                SessionAction::Finish(Err(MediaSoupError::InvalidRequest(text)))
            },
            ConnectionEvent::Control => SessionAction::Idle,
            ConnectionEvent::Ended => {
                self.phase = Phase::Closed;
                let text = "Connection closed before authentication".to_string();
                SessionAction::Finish(Err(MediaSoupError::InvalidRequest(text)))
            },
            ConnectionEvent::Failed(m) => {
                self.phase = Phase::Closed;
                SessionAction::Finish(Err(MediaSoupError::WebSocket(m)))
            },
        }
    }

    /// Judges the first request of a connection.
    fn authenticate(&mut self, msg: IncomingMessage) -> (action: SessionAction)
        requires
            old(self).state() is AwaitingAuth,
        ensures
            final(self).wf(),
            final(self).token() == old(self).token(),
            auth_step(old(self).token(), msg, final(self).state(), action),
    {
        if !same_text(&msg.msg_type, "authenticate") {
            let text = "Authentication required: first message must be 'authenticate'".to_string();
            let reply = match msg.request_id {
                Some(rid) => Some(OutgoingMessage::error(rid, text.clone())),
                None => None,
            };
            self.phase = Phase::Closed;
            return SessionAction::Reject { reply, error: MediaSoupError::InvalidRequest(text) };
        }
        let presented = match str_field(&msg.payload, "token") {
            Some(t) => t,
            None => String::new(),
        };
        match verify_token(&self.auth_token, presented.as_str()) {
            Err(e) => {
                let reply = match msg.request_id {
                    Some(rid) => Some(OutgoingMessage::error(rid, e.message())),
                    None => None,
                };
                self.phase = Phase::Closed;
                SessionAction::Reject { reply, error: e }
            },
            Ok(()) => {
                let user_id = resolve_user_id(msg.user_id);
                let reply = match msg.request_id {
                    Some(rid) => Some(OutgoingMessage::response(rid, JsonValue::Object(Vec::new()))),
                    None => None,
                };
                self.phase = Phase::Active(user_id.clone());
                let room_id = "default".to_string();
                SessionAction::Admit { user_id, room_id, reply }
            },
        }
    }

    fn on_event_when_active(&mut self, event: ConnectionEvent) -> (action: SessionAction)
        requires
            old(self).state() is Active,
            old(self).wf(),
        ensures
            final(self).wf(),
            final(self).token() == old(self).token(),
            transition(old(self).token(), old(self).state(), event, final(self).state(), action),
    {
        match event {
            ConnectionEvent::Message(msg) => match decode_request(&msg) {
                Ok(Request::Authenticate) => {
                    let reply = reply_for(msg.request_id, Ok(JsonValue::Object(Vec::new())));
                    SessionAction::Answer { reply, failure: None }
                },
                Ok(request) => SessionAction::Perform { request, request_id: msg.request_id },
                Err(e) => {
                    let reply = match msg.request_id {
                        Some(rid) => Some(OutgoingMessage::error(rid, e.message())),
                        None => None,
                    };
                    SessionAction::Answer { reply, failure: Some(e) }
                },
            },
            ConnectionEvent::Malformed(m) => SessionAction::Answer {
                reply: None,
                failure: Some(MediaSoupError::Json(m)),
            },
            ConnectionEvent::Close => {
                self.phase = Phase::Closed;
                SessionAction::Finish(Ok(()))
            },
            ConnectionEvent::Control => SessionAction::Idle,
            ConnectionEvent::Ended => {
                self.phase = Phase::Closed;
                SessionAction::Finish(Ok(()))
            },
            ConnectionEvent::Failed(m) => {
                self.phase = Phase::Closed;
                SessionAction::Finish(Err(MediaSoupError::WebSocket(m)))
            },
        }
    }
}

} // verus!

verus! {

/// Control frames (ping, pong, binary) are ignored: in any open phase they
/// leave the phase as it is and ask for nothing.  An authenticated connection
/// closes only on a Close frame, the end of the stream or a transport failure,
/// and keeps serving requests otherwise.
pub proof fn lemma_control_frames_are_ignored(
    token: Option<String>,
    before: Phase,
    event: ConnectionEvent,
    after: Phase,
    action: SessionAction,
)
    requires
        transition(token, before, event, after, action),
    ensures
        event is Control && !(before is Closed) ==> after == before && action is Idle,
        before is Active && after is Closed ==> event is Close || event is Ended || event is Failed,
        before is Active && !(after is Closed) ==> after == before,
        before is Active && event is Close ==> after is Closed && action matches SessionAction::Finish(Ok(())),
        before is Active && event is Ended ==> after is Closed && action matches SessionAction::Finish(Ok(())),
        before is Active ==> !(action is Admit) && !(action is Reject),
        before is AwaitingAuth ==> !(action is Perform) && !(action is Answer),
        before is AwaitingAuth && after is Active ==> event is Message && action is Admit,
{
}

/// A recorded run of a connection: the phase before each event, the event,
/// and the action the handler was given.
pub struct Step {
    pub before: Phase,
    pub event: ConnectionEvent,
    pub action: SessionAction,
}

/// Whether a run is one the protocol allows: it starts awaiting
/// authentication, each step is a transition, and each step starts in the
/// phase the previous one ended in (`end` is the phase after the last step).
pub open spec fn valid_run(token: Option<String>, steps: Seq<Step>, end: Phase) -> bool {
    &&& steps.len() > 0 ==> steps[0].before is AwaitingAuth
    &&& forall|i: int|
        0 <= i < steps.len() ==> transition(
            token,
            #[trigger] steps[i].before,
            steps[i].event,
            if i + 1 < steps.len() { steps[i + 1].before } else { end },
            steps[i].action,
        )
}

/// The authentication gate: in any run, a request is carried out only after
/// the client was admitted earlier in the same run, and every step after an
/// admission happens in an authenticated or closed connection.
pub proof fn lemma_no_request_before_admission(token: Option<String>, steps: Seq<Step>, end: Phase)
    requires
        valid_run(token, steps, end),
    ensures
        forall|i: int|
            0 <= i < steps.len() && (#[trigger] steps[i].action is Perform || steps[i].action is Answer)
                ==> exists|j: int| 0 <= j < i && #[trigger] steps[j].action is Admit,
{
    assert forall|i: int|
        0 <= i < steps.len() && (#[trigger] steps[i].action is Perform || steps[i].action is Answer)
            implies exists|j: int| 0 <= j < i && #[trigger] steps[j].action is Admit by {
        lemma_active_was_admitted(token, steps, end, i);
    }
}

/// Before every step that starts authenticated, some earlier step admitted
/// the client.
proof fn lemma_active_was_admitted(token: Option<String>, steps: Seq<Step>, end: Phase, i: int)
    requires
        valid_run(token, steps, end),
        0 <= i < steps.len(),
    ensures
        steps[i].before is Active ==> exists|j: int| 0 <= j < i && #[trigger] steps[j].action is Admit,
        steps[i].action is Perform || steps[i].action is Answer ==> steps[i].before is Active,
    decreases i,
{
    let t = steps[i];
    assert(transition(token, t.before, t.event, if i + 1 < steps.len() { steps[i + 1].before } else { end }, t.action));
    if i > 0 {
        let p = steps[i - 1];
        assert(transition(token, p.before, p.event, t.before, p.action));
        lemma_active_was_admitted(token, steps, end, i - 1);
        if t.before is Active && !(p.action is Admit) {
            // the previous step was already authenticated
            assert(p.before is Active);
        }
    }
}

/// A closed connection stays closed: once a step ends in `Closed`, every
/// later step starts closed and does nothing.
pub proof fn lemma_closed_is_final(token: Option<String>, steps: Seq<Step>, end: Phase, i: int)
    requires
        valid_run(token, steps, end),
        0 <= i < steps.len(),
        steps[i].before is Closed,
    ensures
        forall|k: int| i <= k < steps.len() ==> #[trigger] steps[k].before is Closed && steps[k].action is Idle,
        end is Closed,
{
    assert forall|k: int| i <= k < steps.len() implies #[trigger] steps[k].before is Closed && steps[k].action is Idle by {
        lemma_closed_stays_closed(token, steps, end, i, k);
    }
    lemma_closed_stays_closed(token, steps, end, i, steps.len() - 1);
    let last = steps.len() - 1;
    assert(transition(token, steps[last].before, steps[last].event, end, steps[last].action));
}

proof fn lemma_closed_stays_closed(token: Option<String>, steps: Seq<Step>, end: Phase, i: int, k: int)
    requires
        valid_run(token, steps, end),
        0 <= i <= k < steps.len(),
        steps[i].before is Closed,
    ensures
        steps[k].before is Closed,
        steps[k].action is Idle,
    decreases k - i,
{
    if k > i {
        lemma_closed_stays_closed(token, steps, end, i, k - 1);
        let p = steps[k - 1];
        assert(transition(token, p.before, p.event, steps[k].before, p.action));
    }
    let t = steps[k];
    assert(transition(token, t.before, t.event, if k + 1 < steps.len() { steps[k + 1].before } else { end }, t.action));
}

} // verus!
