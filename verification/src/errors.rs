use vstd::prelude::*;

verus! {

/// Every failure a session operation or the result decoder can report.
///
/// The server's transport and status-code contract split failures into four
/// families: the connection itself failed, the handshake announced a protocol
/// version other than the requested one, the server answered with a
/// non-success status code, or the result payload could not be decoded.
/// Operations attempted on a session that is not open fail fast with
/// `InvalidSessionState` instead of sending a stale session id to the server.
#[derive(Clone, Debug, PartialEq)]
pub enum IotDBError {
    /// The transport layer failed (connect, write or read error); the text is
    /// the I/O layer's diagnostic.
    Transport(String),
    /// The server accepted the handshake but announced a protocol version
    /// (`server`) other than the requested one (`client`).
    VersionMismatch { client: i32, server: i32 },
    /// The RPC completed but its status code signals a domain failure; the
    /// payload is the server's message, or a placeholder when it sent none.
    Application(String),
    /// The result payload is structurally inconsistent: a value buffer ran out
    /// in the middle of a field, a buffer index fell outside the payload, or a
    /// row consumed no bytes although data was left.
    Decode,
    /// An integer tag that no known enum variant carries.
    UnknownVariant(i32),
    /// A column type name that no known `DataType` variant carries.
    UnknownTypeName(String),
    /// An endpoint string that is not of the form `host:port`.
    BadEndpoint(String),
    /// The operation is not permitted in the session's current lifecycle
    /// state: every server operation needs an open session, and a session
    /// opens only once, from its initial disconnected state.
    InvalidSessionState,
}

impl IotDBError {
    /// Human-readable description of the failure: a fixed phrase per kind,
    /// with the carried text appended where the variant holds one.
    pub fn message(&self) -> (r: String)
        ensures
            match *self {
                IotDBError::Transport(m) => r@ == "transport error: "@ + m@,
                IotDBError::VersionMismatch { client: _, server: _ } => r@
                    == "protocol version of the server differs from the requested one"@,
                IotDBError::Application(m) => r@ == "server reported: "@ + m@,
                IotDBError::Decode => r@ == "malformed result payload"@,
                IotDBError::UnknownVariant(_) => r@ == "unknown variant tag"@,
                IotDBError::UnknownTypeName(n) => r@ == "unknown data type name: "@ + n@,
                IotDBError::BadEndpoint(s) => r@ == "endpoint is not host:port: "@ + s@,
                IotDBError::InvalidSessionState => r@
                    == "session is not in a state that permits this operation"@,
            },
    {
        match self {
            IotDBError::Transport(m) => "transport error: ".to_owned().concat(m.as_str()),
            IotDBError::VersionMismatch { client: _, server: _ } => {
                "protocol version of the server differs from the requested one".to_owned()
            },
            IotDBError::Application(m) => "server reported: ".to_owned().concat(m.as_str()),
            IotDBError::Decode => "malformed result payload".to_owned(),
            IotDBError::UnknownVariant(_) => "unknown variant tag".to_owned(),
            IotDBError::UnknownTypeName(n) => "unknown data type name: ".to_owned().concat(
                n.as_str(),
            ),
            IotDBError::BadEndpoint(s) => "endpoint is not host:port: ".to_owned().concat(
                s.as_str(),
            ),
            IotDBError::InvalidSessionState => "session is not in a state that permits this operation".to_owned(),
        }
    }
}

} // verus!
