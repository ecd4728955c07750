//! The error taxonomy shared by all resolution pipelines.
use vstd::prelude::*;

verus! {

/// How an HTTP transport failure is classified.
#[derive(Debug, Clone, Copy, PartialEq, Eq, Structural)]
pub enum HTTPErrorKind {
    Connect,
    Timeout,
    Decode,
    Other,
}

/// An HTTP transport failure, without the transport's internals.
#[derive(Debug, Clone, Copy, PartialEq, Eq, Structural)]
pub struct HTTPError {
    pub kind: HTTPErrorKind,
}

impl HTTPError {
    /// The classification of a transport failure from what the transport
    /// reports of it: a connect failure first, then a timeout, then a body
    /// that could not be decoded.
    pub open spec fn kind_of(is_connect: bool, is_timeout: bool, is_decode: bool) -> HTTPErrorKind {
        if is_connect {
            HTTPErrorKind::Connect
        } else if is_timeout {
            HTTPErrorKind::Timeout
        } else if is_decode {
            HTTPErrorKind::Decode
        } else {
            HTTPErrorKind::Other
        }
    }

    pub fn classify(is_connect: bool, is_timeout: bool, is_decode: bool) -> (r: HTTPError)
        ensures
            r.kind == HTTPError::kind_of(is_connect, is_timeout, is_decode),
    {
        let kind = if is_connect {
            HTTPErrorKind::Connect
        } else if is_timeout {
            HTTPErrorKind::Timeout
        } else if is_decode {
            HTTPErrorKind::Decode
        } else {
            HTTPErrorKind::Other
        };
        HTTPError { kind }
    }
}

/// A terminal state of a room that ends a resolution early.
#[derive(Debug, Clone, Copy, PartialEq, Eq, Structural)]
pub enum RoomStateError {
    Offline,
    NotExists,
    IsClosed,
    IsReplay,
}

impl RoomStateError {
    pub open spec fn message_spec(self) -> Seq<char> {
        match self {
            RoomStateError::Offline => "该房间未开播"@,
            RoomStateError::NotExists => "房间号不存在"@,
            RoomStateError::IsClosed => "该房间已被关闭"@,
            RoomStateError::IsReplay => "该房间正在重播"@,
        }
    }

    /// The text shown to the user.
    pub fn message(&self) -> (r: String)
        ensures
            r@ == self.message_spec(),
    {
        let s: &str = match self {
            RoomStateError::Offline => "该房间未开播",
            RoomStateError::NotExists => "房间号不存在",
            RoomStateError::IsClosed => "该房间已被关闭",
            RoomStateError::IsReplay => "该房间正在重播",
        };
        String::from_str(s)
    }
}

/// A request that the platform refused.
#[derive(Debug, Clone, Copy, PartialEq, Eq, Structural)]
pub enum RequestError {
    BadRequest,
}

/// A field that a stage needed and did not find.
#[derive(Debug, Clone, Copy, PartialEq, Eq, Structural)]
pub enum MissKeyFieldError {
    Title,
    AnchorName,
    SignatureFunction,
    RandomNumber,
    RoomId,
}

/// A failure of the hand-off to the script evaluator.
#[derive(Debug, Clone, PartialEq, Eq)]
pub enum EvalError {
    ChannelReceiveError,
    ChannelSendError(String),
}

/// Every failure a resolution can end in.
#[derive(Debug, Clone, PartialEq, Eq)]
pub enum LsarError {
    Http(HTTPError),
    RoomState(RoomStateError),
    Request(RequestError),
    MissKeyField(MissKeyFieldError),
    Eval(EvalError),
    /// A pattern that did not compile, with the pattern engine's message.
    Regex(String),
    /// A query string that could not be read.
    UrlParse,
    /// A response body that did not have the expected shape.
    SerdeJSON(String),
    Other(String),
}

pub type LsarResult<T> = Result<T, LsarError>;

impl HTTPErrorKind {
    pub open spec fn name(self) -> Seq<char> {
        match self {
            HTTPErrorKind::Connect => "Connect"@,
            HTTPErrorKind::Timeout => "Timeout"@,
            HTTPErrorKind::Decode => "Decode"@,
            HTTPErrorKind::Other => "Other"@,
        }
    }

    fn name_str(&self) -> (r: &'static str)
        ensures
            r@ == self.name(),
    {
        match self {
            HTTPErrorKind::Connect => "Connect",
            HTTPErrorKind::Timeout => "Timeout",
            HTTPErrorKind::Decode => "Decode",
            HTTPErrorKind::Other => "Other",
        }
    }
}

impl MissKeyFieldError {
    pub open spec fn name(self) -> Seq<char> {
        match self {
            MissKeyFieldError::Title => "Title"@,
            MissKeyFieldError::AnchorName => "AnchorName"@,
            MissKeyFieldError::SignatureFunction => "SignatureFunction"@,
            MissKeyFieldError::RandomNumber => "RandomNumber"@,
            MissKeyFieldError::RoomId => "RoomId"@,
        }
    }

    fn name_str(&self) -> (r: &'static str)
        ensures
            r@ == self.name(),
    {
        match self {
            MissKeyFieldError::Title => "Title",
            MissKeyFieldError::AnchorName => "AnchorName",
            MissKeyFieldError::SignatureFunction => "SignatureFunction",
            MissKeyFieldError::RandomNumber => "RandomNumber",
            MissKeyFieldError::RoomId => "RoomId",
        }
    }
}

impl LsarError {
    /// The text shown to the user.
    pub open spec fn message_spec(self) -> Seq<char> {
        match self {
            LsarError::Http(e) => "http error: "@ + e.kind.name(),
            LsarError::RoomState(s) => s.message_spec(),
            LsarError::Request(_) => "BadRequest"@,
            LsarError::MissKeyField(f) => f.name(),
            LsarError::Eval(EvalError::ChannelReceiveError) => "ChannelReceiveError"@,
            LsarError::Eval(EvalError::ChannelSendError(m)) => "ChannelSendError: "@ + m@,
            LsarError::Regex(m) => m@,
            LsarError::UrlParse => "invalid query string"@,
            LsarError::SerdeJSON(m) => m@,
            LsarError::Other(m) => m@,
        }
    }

    /// The text shown to the user.
    pub fn message(&self) -> (r: String)
        ensures
            r@ == self.message_spec(),
    {
        match self {
            LsarError::Http(e) => String::from_str("http error: ").concat(e.kind.name_str()),
            LsarError::RoomState(s) => s.message(),
            LsarError::Request(_) => String::from_str("BadRequest"),
            LsarError::MissKeyField(f) => String::from_str(f.name_str()),
            LsarError::Eval(EvalError::ChannelReceiveError) => String::from_str("ChannelReceiveError"),
            LsarError::Eval(EvalError::ChannelSendError(m)) => String::from_str(
                "ChannelSendError: ",
            ).concat(m.as_str()),
            LsarError::Regex(m) => m.clone(),
            LsarError::UrlParse => String::from_str("invalid query string"),
            LsarError::SerdeJSON(m) => m.clone(),
            LsarError::Other(m) => m.clone(),
        }
    }

    /// An error carrying the text `s`.
    pub fn other(s: &str) -> (r: LsarError)
        ensures
            r matches LsarError::Other(m) && m@ == s@,
    {
        LsarError::Other(String::from_str(s))
    }
}

} // verus!
