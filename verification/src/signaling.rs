use vstd::prelude::*;
use crate::error::{ErrorKind, MediaSoupError};
use crate::json::{
    copy_members, lemma_lookup_after_member, lemma_lookup_first, lemma_members_view, lemma_members_view_concat,
    members_view, same_text, view_lookup, JsonValue, JsonView,
};

verus! {

/// Incoming signaling frame from the FoundryVTT client.
///
/// The client uses a flat envelope `{ "type", "requestId", "userId", <payload fields...> }`:
/// the three envelope fields are read into their own fields and every other
/// top-level member stays in `payload`.
pub struct IncomingMessage {
    /// Operation name, e.g. `produce`, `consume`, `getRouterRtpCapabilities`.
    pub msg_type: String,
    /// Correlation id, present on requests that expect a response.
    pub request_id: Option<String>,
    /// Client-supplied user id.
    pub user_id: Option<String>,
    /// All remaining top-level members (transportId, kind, rtpParameters, ...).
    pub payload: Vec<(String, JsonValue)>,
}

/// The model of an optional string.
pub open spec fn opt_text_view(o: Option<String>) -> Option<Seq<char>> {
    match o {
        Some(s) => Some(s@),
        None => None,
    }
}

/// The model of an optional JSON value.
pub open spec fn opt_json_view(o: Option<JsonValue>) -> Option<JsonView> {
    match o {
        Some(v) => Some(v@),
        None => None,
    }
}

impl IncomingMessage {
    /// The model of the payload members.
    pub open spec fn payload_view(&self) -> Seq<(Seq<char>, JsonView)> {
        members_view(self.payload@)
    }

    /// The payload as a JSON object, for typed decoding.
    pub fn payload_value(&self) -> (v: JsonValue)
        ensures
            v@ == JsonView::Object(self.payload_view()),
    {
        JsonValue::Object(copy_members(&self.payload))
    }
}

/// Outgoing signaling frame to the client.
///
/// Responses carry `requestId` with `data` or `error`; notifications carry
/// `type` and flat fields (`extra`).  Fields that are `None` are left out on
/// the wire.
pub struct OutgoingMessage {
    pub request_id: Option<String>,
    pub msg_type: Option<String>,
    pub error: Option<String>,
    pub data: Option<JsonValue>,
    /// Flattened notification fields (producerId, userId, kind, ...).
    pub extra: Vec<(String, JsonValue)>,
}

/// A single member when the field is present, nothing otherwise.
pub open spec fn optional_member(key: Seq<char>, value: Option<JsonView>) -> Seq<(Seq<char>, JsonView)> {
    match value {
        Some(v) => seq![(key, v)],
        None => Seq::empty(),
    }
}

/// The model of an optional string as an optional JSON string.
pub open spec fn opt_str_json(o: Option<String>) -> Option<JsonView> {
    match o {
        Some(s) => Some(JsonView::Str(s@)),
        None => None,
    }
}

impl OutgoingMessage {
    /// The top-level members of this frame on the wire, in order.
    pub open spec fn wire_members(&self) -> Seq<(Seq<char>, JsonView)> {
        optional_member("requestId"@, opt_str_json(self.request_id))
            + optional_member("type"@, opt_str_json(self.msg_type))
            + optional_member("error"@, opt_str_json(self.error))
            + optional_member("data"@, opt_json_view(self.data))
            + members_view(self.extra@)
    }

    /// Successful response to a request.
    pub fn response(request_id: String, data: JsonValue) -> (m: OutgoingMessage)
        ensures
            m.request_id == Some(request_id),
            m.msg_type is None,
            m.error is None,
            m.data == Some(data),
            m.extra@.len() == 0,
    {
        OutgoingMessage {
            request_id: Some(request_id),
            msg_type: None,
            error: None,
            data: Some(data),
            extra: Vec::new(),
        }
    }

    /// Error response to a request.
    pub fn error(request_id: String, error: String) -> (m: OutgoingMessage)
        ensures
            m.request_id == Some(request_id),
            m.msg_type is None,
            m.error == Some(error),
            m.data is None,
            m.extra@.len() == 0,
    {
        OutgoingMessage {
            request_id: Some(request_id),
            msg_type: None,
            error: Some(error),
            data: None,
            extra: Vec::new(),
        }
    }

    /// Server-initiated notification (no response expected).  When `fields`
    /// is a JSON object its members become top-level fields on the wire;
    /// any other value contributes no fields.
    pub fn notification(msg_type: &str, fields: JsonValue) -> (m: OutgoingMessage)
        ensures
            m.request_id is None,
            m.msg_type matches Some(t) && t@ == msg_type@,
            m.error is None,
            m.data is None,
            match fields {
                JsonValue::Object(ms) => m.extra == ms,
                _ => m.extra@.len() == 0,
            },
    {
        let extra = match fields {
            JsonValue::Object(ms) => ms,
            _ => Vec::new(),
        };
        OutgoingMessage {
            request_id: None,
            msg_type: Some(msg_type.to_string()),
            error: None,
            data: None,
            extra,
        }
    }

    /// The frame as a JSON object, ready to be written on the wire.
    pub fn to_json(&self) -> (v: JsonValue)
        ensures
            v@ == JsonView::Object(self.wire_members()),
    {
        let mut out: Vec<(String, JsonValue)> = Vec::new();
        if let Some(rid) = &self.request_id {
            out.push(("requestId".to_string(), JsonValue::Str(rid.clone())));
        }
        let ghost after_rid = out@;
        if let Some(t) = &self.msg_type {
            out.push(("type".to_string(), JsonValue::Str(t.clone())));
        }
        let ghost after_type = out@;
        if let Some(e) = &self.error {
            out.push(("error".to_string(), JsonValue::Str(e.clone())));
        }
        let ghost after_error = out@;
        if let Some(d) = &self.data {
            out.push(("data".to_string(), d.duplicate()));
        }
        let ghost head = out@;
        let mut tail = copy_members(&self.extra);
        let ghost tail_seq = tail@;
        out.append(&mut tail);
        proof {
            lemma_members_view_concat(head, tail_seq);
            lemma_members_view(head);
            lemma_members_view(after_error);
            lemma_members_view(after_type);
            lemma_members_view(after_rid);
            assert(members_view(head) =~= optional_member("requestId"@, opt_str_json(self.request_id))
                + optional_member("type"@, opt_str_json(self.msg_type))
                + optional_member("error"@, opt_str_json(self.error))
                + optional_member("data"@, opt_json_view(self.data)));
        }
        JsonValue::Object(out)
    }
}

/// The envelope field names differ from one another.
pub proof fn lemma_wire_names_distinct()
    ensures
        "requestId"@ != "type"@,
        "requestId"@ != "data"@,
        "requestId"@ != "error"@,
        "type"@ != "data"@,
        "type"@ != "error"@,
        "data"@ != "error"@,
{
    reveal_strlit("requestId");
    reveal_strlit("data");
    reveal_strlit("type");
    reveal_strlit("error");
    assert("requestId"@.len() == 9);
    assert("type"@.len() == 4);
    assert("data"@.len() == 4);
    assert("error"@.len() == 5);
    assert("type"@[0] != "data"@[0]);
}

/// A response carries its `requestId` and its `data`, and neither a `type`
/// nor an `error` field.
pub proof fn lemma_response_wire_shape(m: OutgoingMessage)
    requires
        m.request_id is Some,
        m.msg_type is None,
        m.error is None,
        m.data is Some,
        m.extra@.len() == 0,
    ensures
        view_lookup(m.wire_members(), "requestId"@) == Some(JsonView::Str(m.request_id->0@)),
        view_lookup(m.wire_members(), "data"@) == Some(m.data->0@),
        view_lookup(m.wire_members(), "type"@) is None,
        view_lookup(m.wire_members(), "error"@) is None,
{
    lemma_wire_names_distinct();
    let first = ("requestId"@, JsonView::Str(m.request_id->0@));
    let second = ("data"@, m.data->0@);
    let empty = Seq::<(Seq<char>, JsonView)>::empty();
    assert(members_view(m.extra@) =~= empty);
    assert(m.wire_members() =~= seq![first] + (seq![second] + empty));
    lemma_lookup_after_member(second, empty, "requestId"@);
    lemma_lookup_after_member(second, empty, "data"@);
    lemma_lookup_after_member(second, empty, "type"@);
    lemma_lookup_after_member(second, empty, "error"@);
    lemma_lookup_after_member(first, seq![second] + empty, "requestId"@);
    lemma_lookup_after_member(first, seq![second] + empty, "data"@);
    lemma_lookup_after_member(first, seq![second] + empty, "type"@);
    lemma_lookup_after_member(first, seq![second] + empty, "error"@);
}

/// An error response carries its `requestId` and its `error` text, and
/// neither a `type` nor a `data` field.
pub proof fn lemma_error_wire_shape(m: OutgoingMessage)
    requires
        m.request_id is Some,
        m.msg_type is None,
        m.error is Some,
        m.data is None,
        m.extra@.len() == 0,
    ensures
        view_lookup(m.wire_members(), "requestId"@) == Some(JsonView::Str(m.request_id->0@)),
        view_lookup(m.wire_members(), "error"@) == Some(JsonView::Str(m.error->0@)),
        view_lookup(m.wire_members(), "type"@) is None,
        view_lookup(m.wire_members(), "data"@) is None,
{
    lemma_wire_names_distinct();
    let first = ("requestId"@, JsonView::Str(m.request_id->0@));
    let second = ("error"@, JsonView::Str(m.error->0@));
    let empty = Seq::<(Seq<char>, JsonView)>::empty();
    assert(members_view(m.extra@) =~= empty);
    assert(m.wire_members() =~= seq![first] + (seq![second] + empty));
    lemma_lookup_after_member(second, empty, "requestId"@);
    lemma_lookup_after_member(second, empty, "data"@);
    lemma_lookup_after_member(second, empty, "type"@);
    lemma_lookup_after_member(second, empty, "error"@);
    lemma_lookup_after_member(first, seq![second] + empty, "requestId"@);
    lemma_lookup_after_member(first, seq![second] + empty, "data"@);
    lemma_lookup_after_member(first, seq![second] + empty, "type"@);
    lemma_lookup_after_member(first, seq![second] + empty, "error"@);
}

/// A notification carries its `type` and no `requestId`; every other field
/// on the wire is the field of the same name in its flattened members.
pub proof fn lemma_notification_wire_shape(m: OutgoingMessage, key: Seq<char>)
    requires
        m.request_id is None,
        m.msg_type is Some,
        m.error is None,
        m.data is None,
    ensures
        view_lookup(m.wire_members(), "type"@) == Some(JsonView::Str(m.msg_type->0@)),
        view_lookup(m.wire_members(), "requestId"@) == view_lookup(members_view(m.extra@), "requestId"@),
        key != "type"@ ==> view_lookup(m.wire_members(), key) == view_lookup(members_view(m.extra@), key),
{
    lemma_wire_names_distinct();
    let first = ("type"@, JsonView::Str(m.msg_type->0@));
    assert(m.wire_members() =~= seq![first] + members_view(m.extra@));
    lemma_lookup_after_member(first, members_view(m.extra@), "type"@);
    lemma_lookup_after_member(first, members_view(m.extra@), "requestId"@);
    lemma_lookup_after_member(first, members_view(m.extra@), key);
}

/// Transport connection data (`connectTransport`).
pub struct ConnectTransportData {
    pub transport_id: String,
    pub dtls_parameters: JsonValue,
}

/// Producer creation data (`produce`).
pub struct ProduceData {
    pub transport_id: String,
    /// "audio" or "video".
    pub kind: String,
    pub rtp_parameters: JsonValue,
    pub app_data: Option<JsonValue>,
}

impl ProduceData {
    /// The media kind this producer sends, checked to be audio or video.
    pub fn media_kind(&self) -> (r: Result<MediaKind, MediaSoupError>)
        ensures
            match media_kind_of(self.kind@) {
                Some(k) => r == Ok::<MediaKind, MediaSoupError>(k),
                None => r matches Err(e) && e@ == (ErrorKind::InvalidRequest, invalid_kind_text(self.kind@)),
            },
    {
        parse_media_kind(&self.kind)
    }
}

/// Consumer creation data (`consume`).
pub struct ConsumeData {
    pub transport_id: String,
    pub producer_id: String,
    pub rtp_capabilities: JsonValue,
}

/// WebRTC transport creation data (`createWebRtcTransport`).
pub struct CreateWebRtcTransportData {
    pub producing: Option<bool>,
    pub consuming: Option<bool>,
    pub sctp_capabilities: Option<JsonValue>,
}

impl CreateWebRtcTransportData {
    /// Whether the client asked for a data channel (SCTP) on the transport.
    pub fn wants_sctp(&self) -> (enabled: bool)
        ensures
            enabled == self.sctp_capabilities is Some,
    {
        self.sctp_capabilities.is_some()
    }
}

/// Transport creation response.
pub struct TransportCreatedResponse {
    pub id: String,
    pub ice_parameters: JsonValue,
    pub ice_candidates: JsonValue,
    pub dtls_parameters: JsonValue,
    pub sctp_parameters: Option<JsonValue>,
}

impl TransportCreatedResponse {
    /// The members of this response on the wire, in order.
    pub open spec fn wire_members(&self) -> Seq<(Seq<char>, JsonView)> {
        seq![
            ("id"@, JsonView::Str(self.id@)),
            ("iceParameters"@, self.ice_parameters@),
            ("iceCandidates"@, self.ice_candidates@),
            ("dtlsParameters"@, self.dtls_parameters@),
        ] + optional_member("sctpParameters"@, opt_json_view(self.sctp_parameters))
    }

    /// The response as a JSON object, each field under its own name.
    pub fn to_json(&self) -> (v: JsonValue)
        ensures
            v@ == JsonView::Object(self.wire_members()),
            v@ matches JsonView::Object(ms) && transport_created_fields(*self, ms),
    {
        proof {
            lemma_transport_created_fields(*self);
        }
        let mut out: Vec<(String, JsonValue)> = Vec::new();
        out.push(("id".to_string(), JsonValue::Str(self.id.clone())));
        out.push(("iceParameters".to_string(), self.ice_parameters.duplicate()));
        out.push(("iceCandidates".to_string(), self.ice_candidates.duplicate()));
        out.push(("dtlsParameters".to_string(), self.dtls_parameters.duplicate()));
        if let Some(sctp) = &self.sctp_parameters {
            out.push(("sctpParameters".to_string(), sctp.duplicate()));
        }
        proof {
            lemma_members_view(out@);
            assert(members_view(out@) =~= self.wire_members());
        }
        JsonValue::Object(out)
    }
}

/// Producer creation response.
pub struct ProducedResponse {
    pub id: String,
}

impl ProducedResponse {
    /// The response as a JSON object: `{ "id": <producer id> }`.
    pub fn to_json(&self) -> (v: JsonValue)
        ensures
            v@ == JsonView::Object(seq![("id"@, JsonView::Str(self.id@))]),
            v@ matches JsonView::Object(ms) && view_lookup(ms, "id"@) == Some(JsonView::Str(self.id@)),
    {
        proof {
            lemma_produced_response_field(*self);
        }
        let mut out: Vec<(String, JsonValue)> = Vec::new();
        out.push(("id".to_string(), JsonValue::Str(self.id.clone())));
        proof {
            lemma_members_view(out@);
            assert(members_view(out@) =~= seq![("id"@, JsonView::Str(self.id@))]);
        }
        JsonValue::Object(out)
    }
}

/// Consumer creation response.
pub struct ConsumedResponse {
    pub id: String,
    pub producer_id: String,
    pub kind: String,
    pub rtp_parameters: JsonValue,
    /// Whether the underlying producer is currently paused.
    pub producer_paused: bool,
}

impl ConsumedResponse {
    /// The members of this response on the wire, in order.
    pub open spec fn wire_members(&self) -> Seq<(Seq<char>, JsonView)> {
        seq![
            ("id"@, JsonView::Str(self.id@)),
            ("producerId"@, JsonView::Str(self.producer_id@)),
            ("kind"@, JsonView::Str(self.kind@)),
            ("rtpParameters"@, self.rtp_parameters@),
            ("producerPaused"@, JsonView::Bool(self.producer_paused)),
        ]
    }

    /// The response as a JSON object, each field under its own name.
    pub fn to_json(&self) -> (v: JsonValue)
        ensures
            v@ == JsonView::Object(self.wire_members()),
            v@ matches JsonView::Object(ms) && consumed_fields(*self, ms),
    {
        proof {
            lemma_consumed_response_fields(*self);
        }
        let mut out: Vec<(String, JsonValue)> = Vec::new();
        out.push(("id".to_string(), JsonValue::Str(self.id.clone())));
        out.push(("producerId".to_string(), JsonValue::Str(self.producer_id.clone())));
        out.push(("kind".to_string(), JsonValue::Str(self.kind.clone())));
        out.push(("rtpParameters".to_string(), self.rtp_parameters.duplicate()));
        out.push(("producerPaused".to_string(), JsonValue::Bool(self.producer_paused)));
        proof {
            lemma_members_view(out@);
            assert(members_view(out@) =~= self.wire_members());
        }
        JsonValue::Object(out)
    }
}

/// Whether `ms` carries a consume response's fields each under its own name:
/// the consumer id, the producer id, the kind, the RTP parameters and whether
/// the producer is paused.
pub open spec fn consumed_fields(c: ConsumedResponse, ms: Seq<(Seq<char>, JsonView)>) -> bool {
    &&& view_lookup(ms, "id"@) == Some(JsonView::Str(c.id@))
    &&& view_lookup(ms, "producerId"@) == Some(JsonView::Str(c.producer_id@))
    &&& view_lookup(ms, "kind"@) == Some(JsonView::Str(c.kind@))
    &&& view_lookup(ms, "rtpParameters"@) == Some(c.rtp_parameters@)
    &&& view_lookup(ms, "producerPaused"@) == Some(JsonView::Bool(c.producer_paused))
}

/// The consume response reports each field of the response under its own
/// name, the producer's pause state included.
pub proof fn lemma_consumed_response_fields(c: ConsumedResponse)
    ensures
        consumed_fields(c, c.wire_members()),
{
    reveal_strlit("id");
    reveal_strlit("producerId");
    reveal_strlit("kind");
    reveal_strlit("rtpParameters");
    reveal_strlit("producerPaused");
    assert("id"@.len() == 2);
    assert("producerId"@.len() == 10);
    assert("kind"@.len() == 4);
    assert("rtpParameters"@.len() == 13);
    assert("producerPaused"@.len() == 14);
    let ms = c.wire_members();
    lemma_lookup_first(ms, "id"@, 0);
    lemma_lookup_first(ms, "producerId"@, 1);
    lemma_lookup_first(ms, "kind"@, 2);
    lemma_lookup_first(ms, "rtpParameters"@, 3);
    lemma_lookup_first(ms, "producerPaused"@, 4);
}

/// Whether `ms` carries a transport creation response's fields each under its
/// own name; `sctpParameters` appears exactly when the transport has them.
pub open spec fn transport_created_fields(t: TransportCreatedResponse, ms: Seq<(Seq<char>, JsonView)>) -> bool {
    &&& view_lookup(ms, "id"@) == Some(JsonView::Str(t.id@))
    &&& view_lookup(ms, "iceParameters"@) == Some(t.ice_parameters@)
    &&& view_lookup(ms, "iceCandidates"@) == Some(t.ice_candidates@)
    &&& view_lookup(ms, "dtlsParameters"@) == Some(t.dtls_parameters@)
    &&& view_lookup(ms, "sctpParameters"@) == opt_json_view(t.sctp_parameters)
}

/// The transport creation response carries each field under its own name:
/// ICE parameters as `iceParameters`, DTLS parameters as `dtlsParameters`, and
/// so on.
pub proof fn lemma_transport_created_fields(t: TransportCreatedResponse)
    ensures
        transport_created_fields(t, t.wire_members()),
{
    reveal_strlit("id");
    reveal_strlit("iceParameters");
    reveal_strlit("iceCandidates");
    reveal_strlit("dtlsParameters");
    reveal_strlit("sctpParameters");
    assert("id"@.len() == 2);
    assert("iceParameters"@.len() == 13);
    assert("iceCandidates"@.len() == 13);
    assert("dtlsParameters"@.len() == 14);
    assert("sctpParameters"@.len() == 14);
    assert("iceParameters"@[3] != "iceCandidates"@[3]);
    assert("dtlsParameters"@[0] != "sctpParameters"@[0]);
    let ms = t.wire_members();
    lemma_lookup_first(ms, "id"@, 0);
    lemma_lookup_first(ms, "iceParameters"@, 1);
    lemma_lookup_first(ms, "iceCandidates"@, 2);
    lemma_lookup_first(ms, "dtlsParameters"@, 3);
    if t.sctp_parameters is Some {
        lemma_lookup_first(ms, "sctpParameters"@, 4);
    } else {
        lemma_lookup_first(ms, "sctpParameters"@, 4);
    }
}

/// The produce response carries the producer id as `id`.
pub proof fn lemma_produced_response_field(p: ProducedResponse)
    ensures
        view_lookup(seq![("id"@, JsonView::Str(p.id@))], "id"@) == Some(JsonView::Str(p.id@)),
{
    lemma_lookup_first(seq![("id"@, JsonView::Str(p.id@))], "id"@, 0);
}

/// The two kinds of media a producer can send.
#[derive(Debug, Clone, Copy, PartialEq, Eq, Structural)]
pub enum MediaKind {
    Audio,
    Video,
}

/// The media kind a client names, if it names one.
pub open spec fn media_kind_of(name: Seq<char>) -> Option<MediaKind> {
    if name == "audio"@ {
        Some(MediaKind::Audio)
    } else if name == "video"@ {
        Some(MediaKind::Video)
    } else {
        None
    }
}

/// The reason given for a media kind that is neither audio nor video.
pub open spec fn invalid_kind_text(name: Seq<char>) -> Seq<char> {
    "Invalid media kind: "@ + name
}

/// Reads the media kind a client names ("audio" or "video").
pub fn parse_media_kind(name: &String) -> (r: Result<MediaKind, MediaSoupError>)
    ensures
        match media_kind_of(name@) {
            Some(k) => r == Ok::<MediaKind, MediaSoupError>(k),
            None => r matches Err(e) && e@ == (ErrorKind::InvalidRequest, invalid_kind_text(name@)),
        },
{
    if same_text(name, "audio") {
        Ok(MediaKind::Audio)
    } else if same_text(name, "video") {
        Ok(MediaKind::Video)
    } else {
        let text = "Invalid media kind: ".to_string().concat(name.as_str());
        Err(MediaSoupError::InvalidRequest(text))
    }
}

/// The wire name of a media kind.
pub open spec fn media_kind_name(kind: MediaKind) -> Seq<char> {
    match kind {
        MediaKind::Audio => "audio"@,
        MediaKind::Video => "video"@,
    }
}

/// The wire name of a media kind.
pub fn media_kind_str(kind: MediaKind) -> (name: &'static str)
    ensures
        name@ == media_kind_name(kind),
{
    match kind {
        MediaKind::Audio => "audio",
        MediaKind::Video => "video",
    }
}

} // verus!
