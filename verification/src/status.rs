//! Status events: what the supervised server reports, and what the interface
//! is told of it.

use vstd::prelude::*;
use vstd::utf8::{decode_utf8, encode_utf8, encode_utf8_decode_utf8, valid_utf8};

verus! {

/// The topic of the interface's event bus on which every status event is
/// published.
pub const SERVER_STATUS_TOPIC: &'static str = "server-status";

/// The stream or occurrence a status event reports.
#[derive(Clone, Copy, Debug, PartialEq, Eq, Structural)]
pub enum StatusKind {
    Stdout,
    Stderr,
    Error,
    Terminated,
    Other,
}

impl StatusKind {
    /// The tag under which the interface receives events of this kind.
    pub open spec fn tag_text(self) -> Seq<char> {
        match self {
            StatusKind::Stdout => "stdout"@,
            StatusKind::Stderr => "stderr"@,
            StatusKind::Error => "error"@,
            StatusKind::Terminated => "terminated"@,
            StatusKind::Other => "other"@,
        }
    }

    pub fn tag(self) -> (res: &'static str)
        ensures
            res@ == self.tag_text(),
    {
        match self {
            StatusKind::Stdout => "stdout",
            StatusKind::Stderr => "stderr",
            StatusKind::Error => "error",
            StatusKind::Terminated => "terminated",
            StatusKind::Other => "other",
        }
    }
}

/// One item from the merged output of the server process, as the process
/// runner delivers it. Chunks are whatever the stream reader produced; they
/// are not split into lines again here.
#[derive(Clone, Debug, PartialEq, Eq)]
pub enum ChildEvent {
    /// Raw bytes read from standard error.
    Stderr(Vec<u8>),
    /// Raw bytes read from standard output.
    Stdout(Vec<u8>),
    /// An I/O error on one of the streams, already rendered as text.
    Error(String),
    /// The process ended; the text is the runner's account of how.
    Terminated(String),
    /// Anything else the runner may announce.
    Other,
}

/// The pair `(kind, payload)` published on [`SERVER_STATUS_TOPIC`].
#[derive(Clone, Debug, PartialEq, Eq)]
pub struct ServerStatusEvent {
    pub kind: StatusKind,
    pub payload: String,
}

/// The text a chunk of output stands for: its UTF-8 decoding, or nothing at
/// all when the chunk is not valid UTF-8. The payload is advisory, so a bad
/// chunk is blanked rather than repaired.
pub open spec fn chunk_text(bytes: Seq<u8>) -> Seq<char> {
    if valid_utf8(bytes) {
        decode_utf8(bytes)
    } else {
        Seq::empty()
    }
}

impl ChildEvent {
    /// The kind under which this event is published.
    pub open spec fn kind(&self) -> StatusKind {
        match self {
            ChildEvent::Stderr(_) => StatusKind::Stderr,
            ChildEvent::Stdout(_) => StatusKind::Stdout,
            ChildEvent::Error(_) => StatusKind::Error,
            ChildEvent::Terminated(_) => StatusKind::Terminated,
            ChildEvent::Other => StatusKind::Other,
        }
    }

    /// The payload published with this event.
    pub open spec fn payload(&self) -> Seq<char> {
        match self {
            ChildEvent::Stderr(bytes) => chunk_text(bytes@),
            ChildEvent::Stdout(bytes) => chunk_text(bytes@),
            ChildEvent::Error(text) => text@,
            ChildEvent::Terminated(text) => text@,
            ChildEvent::Other => Seq::empty(),
        }
    }

    /// Whether this event announces the end of the process.
    pub open spec fn is_termination(&self) -> bool {
        self is Terminated
    }
}

/// `String::from_utf8` of the standard library, with the error dropped: the
/// bytes become a string exactly when they are valid UTF-8, and the string
/// then consists of those same bytes.
#[verifier::external_body]
fn string_from_utf8(bytes: Vec<u8>) -> (res: Option<String>)
    ensures
        res is Some <==> valid_utf8(bytes@),
        res matches Some(text) ==> encode_utf8(text@) == bytes@,
{
    String::from_utf8(bytes).ok()
}

/// Decodes one chunk of server output. Never fails: a chunk that is not
/// valid UTF-8 yields the empty string.
pub fn decode_chunk(bytes: Vec<u8>) -> (text: String)
    ensures
        text@ == chunk_text(bytes@),
        !valid_utf8(bytes@) ==> text@.len() == 0,
{
    let ghost raw = bytes@;
    match string_from_utf8(bytes) {
        Some(text) => {
            proof {
                encode_utf8_decode_utf8(text@);
            }
            text
        },
        None => String::new(),
    }
}

/// Turns what the process runner delivered into the event the interface
/// receives.
pub fn classify(event: ChildEvent) -> (status: ServerStatusEvent)
    ensures
        status.kind == event.kind(),
        status.payload@ == event.payload(),
        event matches ChildEvent::Stdout(bytes) && !valid_utf8(bytes@) ==> status.payload@.len() == 0,
        event matches ChildEvent::Stderr(bytes) && !valid_utf8(bytes@) ==> status.payload@.len() == 0,
{
    match event {
        ChildEvent::Stderr(bytes) => ServerStatusEvent {
            kind: StatusKind::Stderr,
            payload: decode_chunk(bytes),
        },
        ChildEvent::Stdout(bytes) => ServerStatusEvent {
            kind: StatusKind::Stdout,
            payload: decode_chunk(bytes),
        },
        ChildEvent::Error(text) => ServerStatusEvent { kind: StatusKind::Error, payload: text },
        ChildEvent::Terminated(text) => ServerStatusEvent {
            kind: StatusKind::Terminated,
            payload: text,
        },
        ChildEvent::Other => ServerStatusEvent { kind: StatusKind::Other, payload: String::new() },
    }
}

} // verus!
