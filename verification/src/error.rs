use vstd::prelude::*;

verus! {

/// The one error a failed render carries.
#[derive(Clone, Copy, Debug, PartialEq, Eq, Structural)]
pub enum RenderError {
    /// The control plane was unreachable or its tab-creation answer was malformed.
    ConnectionError,
    /// The command channel could not be opened or written to.
    TransportError,
    /// The command channel closed before the awaited response arrived.
    ProtocolError,
    /// The print response carried no payload, or an empty one.
    BrowserRenderError,
    /// The payload was not valid base64.
    DecodeError,
    /// The overall deadline passed.
    TimeoutError,
    /// The concurrency gate failed.
    ResourceError,
}

impl RenderError {
    /// Whether this error is reported with the deadline status rather than the generic one.
    pub fn is_timeout(&self) -> (r: bool)
        ensures
            r == (*self == RenderError::TimeoutError),
    {
        match self {
            RenderError::TimeoutError => true,
            _ => false,
        }
    }

    /// The HTTP status a failure is reported with: 408 for the deadline, 500
    /// for everything else.
    pub fn status(&self) -> (r: u16)
        ensures
            r == (if *self == RenderError::TimeoutError {
                408u16
            } else {
                500u16
            }),
    {
        if self.is_timeout() {
            408
        } else {
            500
        }
    }

    /// The textual cause shown to the caller.
    pub fn cause(&self) -> (r: &'static str)
        ensures
            r@ == self.spec_cause(),
    {
        match self {
            RenderError::ConnectionError => "browser control endpoint failed",
            RenderError::TransportError => "command channel failed",
            RenderError::ProtocolError => "command channel closed before the response",
            RenderError::BrowserRenderError => "browser returned no data",
            RenderError::DecodeError => "payload is not valid base64",
            RenderError::TimeoutError => "request timed out",
            RenderError::ResourceError => "concurrency gate failed",
        }
    }

    pub open spec fn spec_cause(&self) -> Seq<char> {
        match self {
            RenderError::ConnectionError => "browser control endpoint failed"@,
            RenderError::TransportError => "command channel failed"@,
            RenderError::ProtocolError => "command channel closed before the response"@,
            RenderError::BrowserRenderError => "browser returned no data"@,
            RenderError::DecodeError => "payload is not valid base64"@,
            RenderError::TimeoutError => "request timed out"@,
            RenderError::ResourceError => "concurrency gate failed"@,
        }
    }
}

} // verus!
