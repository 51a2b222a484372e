use vstd::prelude::*;
use crate::error::{error_text, ErrorKind, MediaSoupError};
use crate::json::{copy_members, members_view, same_text, str_field, view_str_field, JsonValue, JsonView};
use crate::signaling::{opt_text_view, IncomingMessage, OutgoingMessage};

verus! {

/// The operations a client can ask for.
#[derive(Debug, Clone, Copy, PartialEq, Eq, Structural)]
pub enum Method {
    Authenticate,
    GetRouterRtpCapabilities,
    CreateWebRtcTransport,
    ConnectTransport,
    Produce,
    Consume,
    ResumeConsumer,
    PauseProducer,
    ResumeProducer,
}

/// The operation a message type names, if it names one.
pub open spec fn method_of(name: Seq<char>) -> Option<Method> {
    if name == "authenticate"@ {
        Some(Method::Authenticate)
    } else if name == "getRouterRtpCapabilities"@ {
        Some(Method::GetRouterRtpCapabilities)
    } else if name == "createWebRtcTransport"@ {
        Some(Method::CreateWebRtcTransport)
    } else if name == "connectTransport"@ {
        Some(Method::ConnectTransport)
    } else if name == "produce"@ {
        Some(Method::Produce)
    } else if name == "consume"@ {
        Some(Method::Consume)
    } else if name == "consumerResume"@ {
        Some(Method::ResumeConsumer)
    } else if name == "pauseProducer"@ {
        Some(Method::PauseProducer)
    } else if name == "resumeProducer"@ {
        Some(Method::ResumeProducer)
    } else {
        None
    }
}

/// The reason given for a message type that names no operation.
pub open spec fn unknown_method_text(name: Seq<char>) -> Seq<char> {
    "Unknown method: "@ + name
}

/// Reads the operation a message type names.
pub fn parse_method(name: &String) -> (r: Result<Method, MediaSoupError>)
    ensures
        match method_of(name@) {
            Some(m) => r == Ok::<Method, MediaSoupError>(m),
            None => r matches Err(e) && e@ == (ErrorKind::InvalidRequest, unknown_method_text(name@)),
        },
{
    if same_text(name, "authenticate") {
        Ok(Method::Authenticate)
    } else if same_text(name, "getRouterRtpCapabilities") {
        Ok(Method::GetRouterRtpCapabilities)
    } else if same_text(name, "createWebRtcTransport") {
        Ok(Method::CreateWebRtcTransport)
    } else if same_text(name, "connectTransport") {
        Ok(Method::ConnectTransport)
    } else if same_text(name, "produce") {
        Ok(Method::Produce)
    } else if same_text(name, "consume") {
        Ok(Method::Consume)
    } else if same_text(name, "consumerResume") {
        Ok(Method::ResumeConsumer)
    } else if same_text(name, "pauseProducer") {
        Ok(Method::PauseProducer)
    } else if same_text(name, "resumeProducer") {
        Ok(Method::ResumeProducer)
    } else {
        let text = "Unknown method: ".to_string().concat(name.as_str());
        Err(MediaSoupError::InvalidRequest(text))
    }
}

/// A request whose operation is known, ready to be carried out against the
/// media engine.  Operations that take structured parameters carry the
/// message's payload members, which are decoded into the matching data type
/// (`ConnectTransportData` and the like) when the request is carried out.
pub enum Request {
    /// A repeated `authenticate`: answered with an empty object.
    Authenticate,
    GetRouterRtpCapabilities,
    CreateWebRtcTransport(Vec<(String, JsonValue)>),
    ConnectTransport(Vec<(String, JsonValue)>),
    Produce(Vec<(String, JsonValue)>),
    Consume(Vec<(String, JsonValue)>),
    ResumeConsumer(String),
    PauseProducer(String),
    ResumeProducer(String),
}

/// The reason given when an id field that a request needs is absent.
pub open spec fn missing_id_text(field: Seq<char>) -> Seq<char> {
    "Missing "@ + field
}

/// Whether `r` is what a message of type `name` with payload `pv` asks for:
/// the operation the type names, with the payload or the id it needs, or
/// the error when the type names no operation or the id is missing.
pub open spec fn decodes_as(name: Seq<char>, pv: Seq<(Seq<char>, JsonView)>, r: Result<Request, MediaSoupError>) -> bool {
    match method_of(name) {
        None => r matches Err(e) && e@ == (ErrorKind::InvalidRequest, unknown_method_text(name)),
        Some(Method::Authenticate) => r matches Ok(Request::Authenticate),
        Some(Method::GetRouterRtpCapabilities) => r matches Ok(Request::GetRouterRtpCapabilities),
        Some(Method::CreateWebRtcTransport) => r matches Ok(Request::CreateWebRtcTransport(p)) && members_view(p@) == pv,
        Some(Method::ConnectTransport) => r matches Ok(Request::ConnectTransport(p)) && members_view(p@) == pv,
        Some(Method::Produce) => r matches Ok(Request::Produce(p)) && members_view(p@) == pv,
        Some(Method::Consume) => r matches Ok(Request::Consume(p)) && members_view(p@) == pv,
        Some(Method::ResumeConsumer) => id_request(r, view_str_field(pv, "consumerId"@), "consumerId"@, Method::ResumeConsumer),
        Some(Method::PauseProducer) => id_request(r, view_str_field(pv, "producerId"@), "producerId"@, Method::PauseProducer),
        Some(Method::ResumeProducer) => id_request(r, view_str_field(pv, "producerId"@), "producerId"@, Method::ResumeProducer),
    }
}

/// The outcome for a request that only names an id: the id when the field is
/// a string, otherwise the "Missing ..." error.
pub open spec fn id_request(
    r: Result<Request, MediaSoupError>,
    id: Option<Seq<char>>,
    field: Seq<char>,
    method: Method,
) -> bool {
    match id {
        None => r matches Err(e) && e@ == (ErrorKind::InvalidRequest, missing_id_text(field)),
        Some(expected) => match r {
            Ok(Request::ResumeConsumer(got)) => method == Method::ResumeConsumer && got@ == expected,
            Ok(Request::PauseProducer(got)) => method == Method::PauseProducer && got@ == expected,
            Ok(Request::ResumeProducer(got)) => method == Method::ResumeProducer && got@ == expected,
            _ => false,
        },
    }
}

fn read_id(payload: &Vec<(String, JsonValue)>, field: &str) -> (r: Result<String, MediaSoupError>)
    ensures
        match view_str_field(members_view(payload@), field@) {
            Some(t) => r matches Ok(s) && s@ == t,
            None => r matches Err(e) && e@ == (ErrorKind::InvalidRequest, missing_id_text(field@)),
        },
{
    match str_field(payload, field) {
        Some(s) => Ok(s),
        None => {
            let text = "Missing ".to_string().concat(field);
            Err(MediaSoupError::InvalidRequest(text))
        },
    }
}

/// The operation a request carries out.
pub open spec fn request_method(r: Request) -> Method {
    match r {
        Request::Authenticate => Method::Authenticate,
        Request::GetRouterRtpCapabilities => Method::GetRouterRtpCapabilities,
        Request::CreateWebRtcTransport(_) => Method::CreateWebRtcTransport,
        Request::ConnectTransport(_) => Method::ConnectTransport,
        Request::Produce(_) => Method::Produce,
        Request::Consume(_) => Method::Consume,
        Request::ResumeConsumer(_) => Method::ResumeConsumer,
        Request::PauseProducer(_) => Method::PauseProducer,
        Request::ResumeProducer(_) => Method::ResumeProducer,
    }
}

/// Each message type of the protocol names its own operation, and no other
/// text names one.
pub proof fn lemma_method_names(name: Seq<char>)
    ensures
        method_of("authenticate"@) == Some(Method::Authenticate),
        method_of("getRouterRtpCapabilities"@) == Some(Method::GetRouterRtpCapabilities),
        method_of("createWebRtcTransport"@) == Some(Method::CreateWebRtcTransport),
        method_of("connectTransport"@) == Some(Method::ConnectTransport),
        method_of("produce"@) == Some(Method::Produce),
        method_of("consume"@) == Some(Method::Consume),
        method_of("consumerResume"@) == Some(Method::ResumeConsumer),
        method_of("pauseProducer"@) == Some(Method::PauseProducer),
        method_of("resumeProducer"@) == Some(Method::ResumeProducer),
        name != "authenticate"@ && name != "getRouterRtpCapabilities"@ && name != "createWebRtcTransport"@
            && name != "connectTransport"@ && name != "produce"@ && name != "consume"@
            && name != "consumerResume"@ && name != "pauseProducer"@ && name != "resumeProducer"@
            ==> method_of(name) is None,
{
    reveal_strlit("authenticate");
    reveal_strlit("getRouterRtpCapabilities");
    reveal_strlit("createWebRtcTransport");
    reveal_strlit("connectTransport");
    reveal_strlit("produce");
    reveal_strlit("consume");
    reveal_strlit("consumerResume");
    reveal_strlit("pauseProducer");
    reveal_strlit("resumeProducer");
    assert("authenticate"@.len() == 12);
    assert("getRouterRtpCapabilities"@.len() == 24);
    assert("createWebRtcTransport"@.len() == 21);
    assert("connectTransport"@.len() == 16);
    assert("produce"@.len() == 7);
    assert("consume"@.len() == 7);
    assert("consumerResume"@.len() == 14);
    assert("pauseProducer"@.len() == 13);
    assert("resumeProducer"@.len() == 14);
    assert("produce"@[0] != "consume"@[0]);
    assert("consumerResume"@[0] != "resumeProducer"@[0]);
}

/// Decoding keeps the operation the message names: a decoded request carries
/// out exactly the operation its message type names, and a type that names
/// no operation is refused.
pub proof fn lemma_decoding_keeps_the_method(name: Seq<char>, pv: Seq<(Seq<char>, JsonView)>, r: Result<Request, MediaSoupError>)
    requires
        decodes_as(name, pv, r),
    ensures
        r matches Ok(req) ==> method_of(name) == Some(request_method(req)),
        method_of(name) is None ==> r is Err,
{
}

/// What each message type decodes to: the payload for the operations that
/// take structured parameters, the named id for the id operations (or the
/// "Missing ..." error), and nothing more for the others.
pub proof fn lemma_decoding_by_name(name: Seq<char>, pv: Seq<(Seq<char>, JsonView)>, r: Result<Request, MediaSoupError>)
    requires
        decodes_as(name, pv, r),
    ensures
        name == "authenticate"@ ==> r matches Ok(Request::Authenticate),
        name == "getRouterRtpCapabilities"@ ==> r matches Ok(Request::GetRouterRtpCapabilities),
        name == "createWebRtcTransport"@ ==> (r matches Ok(Request::CreateWebRtcTransport(p)) && members_view(p@) == pv),
        name == "connectTransport"@ ==> (r matches Ok(Request::ConnectTransport(p)) && members_view(p@) == pv),
        name == "produce"@ ==> (r matches Ok(Request::Produce(p)) && members_view(p@) == pv),
        name == "consume"@ ==> (r matches Ok(Request::Consume(p)) && members_view(p@) == pv),
        name == "consumerResume"@ ==> match view_str_field(pv, "consumerId"@) {
            Some(id) => r matches Ok(Request::ResumeConsumer(x)) && x@ == id,
            None => r matches Err(e) && e@ == (ErrorKind::InvalidRequest, "Missing consumerId"@),
        },
        name == "pauseProducer"@ ==> match view_str_field(pv, "producerId"@) {
            Some(id) => r matches Ok(Request::PauseProducer(x)) && x@ == id,
            None => r matches Err(e) && e@ == (ErrorKind::InvalidRequest, "Missing producerId"@),
        },
        name == "resumeProducer"@ ==> match view_str_field(pv, "producerId"@) {
            Some(id) => r matches Ok(Request::ResumeProducer(x)) && x@ == id,
            None => r matches Err(e) && e@ == (ErrorKind::InvalidRequest, "Missing producerId"@),
        },
        method_of(name) is None ==> (r matches Err(e) && e@ == (ErrorKind::InvalidRequest, "Unknown method: "@ + name)),
{
    lemma_method_names(name);
    reveal_strlit("Missing ");
    reveal_strlit("consumerId");
    reveal_strlit("producerId");
    reveal_strlit("Missing consumerId");
    reveal_strlit("Missing producerId");
    assert("Missing consumerId"@ =~= "Missing "@ + "consumerId"@);
    assert("Missing producerId"@ =~= "Missing "@ + "producerId"@);
}

/// Works out what a message asks for: the operation its type names, with
/// the payload or id that operation needs.
pub fn decode_request(msg: &IncomingMessage) -> (r: Result<Request, MediaSoupError>)
    ensures
        decodes_as(msg.msg_type@, msg.payload_view(), r),
        r matches Ok(req) ==> method_of(msg.msg_type@) == Some(request_method(req)),
{
    let method = parse_method(&msg.msg_type)?;
    match method {
        Method::Authenticate => Ok(Request::Authenticate),
        Method::GetRouterRtpCapabilities => Ok(Request::GetRouterRtpCapabilities),
        Method::CreateWebRtcTransport => Ok(Request::CreateWebRtcTransport(copy_members(&msg.payload))),
        Method::ConnectTransport => Ok(Request::ConnectTransport(copy_members(&msg.payload))),
        Method::Produce => Ok(Request::Produce(copy_members(&msg.payload))),
        Method::Consume => Ok(Request::Consume(copy_members(&msg.payload))),
        Method::ResumeConsumer => {
            let id = read_id(&msg.payload, "consumerId")?;
            Ok(Request::ResumeConsumer(id))
        },
        Method::PauseProducer => {
            let id = read_id(&msg.payload, "producerId")?;
            Ok(Request::PauseProducer(id))
        },
        Method::ResumeProducer => {
            let id = read_id(&msg.payload, "producerId")?;
            Ok(Request::ResumeProducer(id))
        },
    }
}

/// The model of a handler outcome: the data on success, the error's model on failure.
pub open spec fn outcome_view(result: Result<JsonValue, MediaSoupError>) -> Result<JsonView, (ErrorKind, Seq<char>)> {
    match result {
        Ok(data) => Ok(data@),
        Err(e) => Err(e@),
    }
}

/// Whether `m` answers the request `rid` whose outcome was `outcome`: it
/// carries the same `requestId`, and either the data or the error text.
pub open spec fn answers(m: OutgoingMessage, rid: Seq<char>, outcome: Result<JsonView, (ErrorKind, Seq<char>)>) -> bool {
    &&& (m.request_id matches Some(r) && r@ == rid)
    &&& m.msg_type is None
    &&& m.extra@.len() == 0
    &&& match outcome {
        Ok(data) => (m.data matches Some(d) && d@ == data) && m.error is None,
        Err(e) => m.data is None && (m.error matches Some(t) && t@ == error_text(e)),
    }
}

/// Whether `reply` is what a request with id `rid` is owed: nothing without a
/// `requestId`, otherwise the answer for `outcome`.
pub open spec fn replies(reply: Option<OutgoingMessage>, rid: Option<Seq<char>>, outcome: Result<JsonView, (ErrorKind, Seq<char>)>) -> bool {
    match rid {
        None => reply is None,
        Some(r) => reply matches Some(m) && answers(m, r, outcome),
    }
}

/// Whether `reply` is the error reply owed to a request with id `rid`: nothing
/// without a `requestId`, otherwise a frame with that id and `text` as its error.
pub open spec fn error_replies(reply: Option<OutgoingMessage>, rid: Option<Seq<char>>, text: Seq<char>) -> bool {
    match rid {
        None => reply is None,
        Some(r) => reply matches Some(m) && {
            &&& (m.request_id matches Some(x) && x@ == r)
            &&& m.msg_type is None
            &&& m.extra@.len() == 0
            &&& m.data is None
            &&& (m.error matches Some(t) && t@ == text)
        },
    }
}

/// The answer owed for a request: only a request that carries a `requestId`
/// is answered, with the data on success and the error text on failure.
pub fn reply_for(request_id: Option<String>, result: Result<JsonValue, MediaSoupError>) -> (reply: Option<OutgoingMessage>)
    ensures
        replies(reply, opt_text_view(request_id), outcome_view(result)),
{
    match request_id {
        None => None,
        Some(rid) => match result {
            Ok(data) => Some(OutgoingMessage::response(rid, data)),
            Err(e) => Some(OutgoingMessage::error(rid, e.message())),
        },
    }
}

} // verus!
