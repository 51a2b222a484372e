use vstd::prelude::*;

verus! {

/// Errors that the signaling server reports, locally or to a client.
#[derive(Debug, PartialEq, Eq)]
pub enum MediaSoupError {
    /// Invalid or unusable configuration (also: no worker available).
    Config(String),
    /// A malformed or unauthorised request.
    InvalidRequest(String),
    /// A frame or payload that is not the expected JSON.
    Json(String),
    /// The WebSocket transport failed.
    WebSocket(String),
    /// No transport with this id belongs to the peer.
    TransportNotFound(String),
    /// No producer with this id belongs to the peer.
    ProducerNotFound(String),
    /// No consumer with this id belongs to the peer.
    ConsumerNotFound(String),
    /// The media engine refused a transport operation.
    Transport(String),
    /// The media engine refused a producer operation.
    Producer(String),
    /// The media engine refused a consumer operation.
    Consumer(String),
}

/// Which kind of failure an error reports.
#[derive(Debug, Clone, Copy, PartialEq, Eq, Structural)]
pub enum ErrorKind {
    Config,
    InvalidRequest,
    Json,
    WebSocket,
    TransportNotFound,
    ProducerNotFound,
    ConsumerNotFound,
    Transport,
    Producer,
    Consumer,
}

impl View for MediaSoupError {
    type V = (ErrorKind, Seq<char>);

    /// The kind of an error together with its detail text.
    open spec fn view(&self) -> (ErrorKind, Seq<char>) {
        match self {
            MediaSoupError::Config(m) => (ErrorKind::Config, m@),
            MediaSoupError::InvalidRequest(m) => (ErrorKind::InvalidRequest, m@),
            MediaSoupError::Json(m) => (ErrorKind::Json, m@),
            MediaSoupError::WebSocket(m) => (ErrorKind::WebSocket, m@),
            MediaSoupError::TransportNotFound(m) => (ErrorKind::TransportNotFound, m@),
            MediaSoupError::ProducerNotFound(m) => (ErrorKind::ProducerNotFound, m@),
            MediaSoupError::ConsumerNotFound(m) => (ErrorKind::ConsumerNotFound, m@),
            MediaSoupError::Transport(m) => (ErrorKind::Transport, m@),
            MediaSoupError::Producer(m) => (ErrorKind::Producer, m@),
            MediaSoupError::Consumer(m) => (ErrorKind::Consumer, m@),
        }
    }
}

/// The text of an error as it is shown in logs and sent to clients.
pub open spec fn error_text(e: (ErrorKind, Seq<char>)) -> Seq<char> {
    kind_prefix(e.0) + e.1
}

/// The words that introduce each kind of error.
pub open spec fn kind_prefix(kind: ErrorKind) -> Seq<char> {
    match kind {
        ErrorKind::Config => "Configuration error: "@,
        ErrorKind::InvalidRequest => "Invalid request: "@,
        ErrorKind::Json => "JSON error: "@,
        ErrorKind::WebSocket => "WebSocket error: "@,
        ErrorKind::TransportNotFound => "Transport not found: "@,
        ErrorKind::ProducerNotFound => "Producer not found: "@,
        ErrorKind::ConsumerNotFound => "Consumer not found: "@,
        ErrorKind::Transport => "Transport error: "@,
        ErrorKind::Producer => "Producer error: "@,
        ErrorKind::Consumer => "Consumer error: "@,
    }
}

impl MediaSoupError {
    /// The human-readable text of this error.
    pub fn message(&self) -> (text: String)
        ensures
            text@ == error_text(self@),
    {
        let (prefix, detail): (&str, &String) = match self {
            MediaSoupError::Config(m) => ("Configuration error: ", m),
            MediaSoupError::InvalidRequest(m) => ("Invalid request: ", m),
            MediaSoupError::Json(m) => ("JSON error: ", m),
            MediaSoupError::WebSocket(m) => ("WebSocket error: ", m),
            MediaSoupError::TransportNotFound(m) => ("Transport not found: ", m),
            MediaSoupError::ProducerNotFound(m) => ("Producer not found: ", m),
            MediaSoupError::ConsumerNotFound(m) => ("Consumer not found: ", m),
            MediaSoupError::Transport(m) => ("Transport error: ", m),
            MediaSoupError::Producer(m) => ("Producer error: ", m),
            MediaSoupError::Consumer(m) => ("Consumer error: ", m),
        };
        let head = prefix.to_string();
        head.concat(detail.as_str())
    }
}

} // verus!
