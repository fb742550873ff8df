use crate::common::{Compressor, DataType, Encoding, ProtocolVersion};
use crate::errors::IotDBError;
use crate::rpc::{
    TSCancelOperationReq, TSCloseSessionReq, TSCreateMultiTimeseriesReq, TSCreateTimeseriesReq,
    TSDeleteDataReq, TSDeleteStorageGroupsReq, TSDeleteTimeseriesReq, TSExecuteBatchStatementReq,
    TSExecuteStatementReq, TSExecuteStatementResp, TSGetTimeZoneResp, TSInsertRecordReq,
    TSInsertRecordsOfOneDeviceReq, TSInsertRecordsReq, TSInsertStringRecordsReq,
    TSInsertTabletReq, TSInsertTabletsReq,
    TSOpenSessionReq, TSOpenSessionResp, TSRawDataQueryReq, TSSetStorageGroupReq,
    TSSetTimeZoneReq, TSStatus,
};
use crate::SUCCESS_CODE;
use vstd::prelude::*;

verus! {

/// Where the server listens: a host and a port, both kept as strings.
/// Immutable once built.
#[derive(Clone, Debug, PartialEq)]
pub struct Endpoint {
    pub host: String,
    pub port: String,
}

/// Whether `i` is the position of the one and only `:` in `s` -- the shape an
/// endpoint string must have.
pub open spec fn is_the_colon(s: Seq<char>, i: int) -> bool {
    &&& 0 <= i < s.len()
    &&& s[i] == ':'
    &&& forall|j: int| 0 <= j < s.len() && s[j] == ':' ==> j == i
}

/// Whether `s` has the form `host:port`: exactly one colon.
pub open spec fn valid_endpoint_str(s: Seq<char>) -> bool {
    exists|i: int| is_the_colon(s, i)
}

/// The position of the one colon of a valid endpoint string.
pub open spec fn colon_index(s: Seq<char>) -> int {
    choose|i: int| is_the_colon(s, i)
}

impl Endpoint {
    /// An endpoint from its two parts.
    pub fn new(host: &str, port: &str) -> (r: Endpoint)
        ensures
            r.host@ == host@,
            r.port@ == port@,
    {
        Endpoint { host: host.to_owned(), port: port.to_owned() }
    }

    /// Parse a `host:port` string; a string without exactly one colon is
    /// rejected, never panicked on.
    pub fn from_str(s: &str) -> (r: Result<Endpoint, IotDBError>)
        ensures
            match r {
                Ok(e) => {
                    &&& valid_endpoint_str(s@)
                    &&& e.host@ == s@.take(colon_index(s@))
                    &&& e.port@ == s@.skip(colon_index(s@) + 1)
                },
                Err(err) => {
                    &&& !valid_endpoint_str(s@)
                    &&& err matches IotDBError::BadEndpoint(t) && t@ == s@
                },
            },
    {
        let n = s.unicode_len();
        let mut i: usize = 0;
        let mut first: usize = 0;
        let mut found: bool = false;
        let mut multiple: bool = false;
        while i < n
            invariant
                i <= n,
                n == s@.len(),
                !found ==> !multiple && (forall|j: int| 0 <= j < i ==> s@[j] != ':'),
                found ==> first < i && s@[first as int] == ':' && (forall|j: int|
                    0 <= j < first ==> s@[j] != ':'),
                found && !multiple ==> (forall|j: int| first < j < i ==> s@[j] != ':'),
                multiple ==> found && (exists|j: int| first < j < i && s@[j] == ':'),
            decreases n - i,
        {
            let ch = s.get_char(i);
            if ch == ':' {
                if found {
                    multiple = true;
                } else {
                    found = true;
                    first = i;
                }
            }
            i = i + 1;
        }
        if found && !multiple {
            proof {
                assert(is_the_colon(s@, first as int));
                let ci = colon_index(s@);
                assert(is_the_colon(s@, ci));
                assert(ci == first as int);
            }
            let host = s.substring_char(0, first);
            let port = s.substring_char(first + 1, n);
            proof {
                assert(s@.subrange(0, first as int) =~= s@.take(colon_index(s@)));
                assert(s@.subrange(first + 1, n as int) =~= s@.skip(colon_index(s@) + 1));
            }
            Ok(Endpoint { host: host.to_owned(), port: port.to_owned() })
        } else {
            proof {
                if !found {
                    assert forall|i2: int| !is_the_colon(s@, i2) by {
                        if 0 <= i2 < s@.len() {
                            assert(s@[i2] != ':');
                        }
                    }
                } else {
                    let j2 = choose|j: int| first < j < i && s@[j] == ':';
                    assert forall|i2: int| !is_the_colon(s@, i2) by {
                        if is_the_colon(s@, i2) {
                            assert(s@[first as int] == ':');
                            assert(s@[j2] == ':');
                            assert(i2 == first as int && i2 == j2);
                        }
                    }
                }
            }
            Err(IotDBError::BadEndpoint(s.to_owned()))
        }
    }

    /// The endpoint rendered back as `host:port`.
    pub fn to_string(&self) -> (r: String)
        ensures
            r@ == self.host@ + ":"@ + self.port@,
    {
        let r = self.host.clone().concat(":").concat(self.port.as_str());
        proof {
            assert(r@ =~= self.host@ + ":"@ + self.port@);
        }
        r
    }
}

impl Default for Endpoint {
    /// The conventional local endpoint.
    fn default() -> (r: Endpoint)
        ensures
            r.host@ == "127.0.0.1"@,
            r.port@ == "6667"@,
    {
        Endpoint::new("127.0.0.1", "6667")
    }
}

/// Relies on chrono's `Utc::now` and `Local::now`: the machine's current UTC
/// and local offsets rendered as one string (for example `UTC+08:00`). The
/// value depends on the machine's clock and time zone settings, so nothing is
/// promised of it. (chrono's `Utc::now` aborts on a system clock set before
/// the Unix epoch -- ambient machine state no precondition can exclude.)
#[verifier::external_body]
fn local_time_zone_string() -> String {
    format!("{}{}", chrono::Utc::now().offset(), chrono::Local::now().offset())
}

/// Everything a session is created from: endpoint, credentials, time zone,
/// per-call fetch size and timeout, wire-encoding and redirect flags, the
/// protocol version to request, and free-form configuration pairs (a later
/// pair overrides an earlier one with the same key when the map is
/// materialized for the wire). Immutable once built.
#[derive(Clone, Debug, PartialEq)]
pub struct Config {
    pub user: String,
    pub password: String,
    pub time_zone: String,
    pub timeout: i64,
    pub fetch_size: i32,
    pub endpoint: Endpoint,
    pub rpc_compaction: bool,
    pub protocol_version: ProtocolVersion,
    pub enable_redirect_query: bool,
    pub config_map: Vec<(String, String)>,
}

/// Everything `Config::default` pins down; the time zone is taken from the
/// machine and is not constrained.
pub open spec fn default_config_shape(c: Config) -> bool {
    &&& c.user@ == "root"@
    &&& c.password@ == "root"@
    &&& c.timeout == 3000
    &&& c.fetch_size == 1024
    &&& c.endpoint.host@ == "127.0.0.1"@
    &&& c.endpoint.port@ == "6667"@
    &&& !c.rpc_compaction
    &&& c.protocol_version == ProtocolVersion::V3
    &&& !c.enable_redirect_query
    &&& c.config_map@ == Seq::<(String, String)>::empty()
}

impl Default for Config {
    /// Local server, `root`/`root`, protocol V3, the machine's time zone.
    fn default() -> (r: Config)
        ensures
            default_config_shape(r),
    {
        let config_map: Vec<(String, String)> = Vec::new();
        proof {
            assert(config_map@ =~= Seq::<(String, String)>::empty());
        }
        Config {
            user: "root".to_owned(),
            password: "root".to_owned(),
            time_zone: local_time_zone_string(),
            timeout: 3000,
            fetch_size: 1024,
            endpoint: Endpoint::default(),
            rpc_compaction: false,
            protocol_version: ProtocolVersion::V3,
            enable_redirect_query: false,
            config_map,
        }
    }
}

/// Builds a `Config` by accumulating settings into one owned value; `build`
/// consumes the builder and yields the finished configuration.
#[derive(Clone, Debug, PartialEq)]
pub struct ConfigBuilder(pub Config);

impl Default for ConfigBuilder {
    /// A builder starting from `Config::default`.
    fn default() -> (r: ConfigBuilder)
        ensures
            default_config_shape(r.0),
    {
        ConfigBuilder::new()
    }
}

impl ConfigBuilder {
    /// A builder starting from `Config::default`.
    pub fn new() -> (r: ConfigBuilder)
        ensures
            default_config_shape(r.0),
    {
        ConfigBuilder(Config::default())
    }

    /// Point the configuration at `host:port`, given as two parts.
    pub fn host_port(self, host: &str, port: &str) -> (r: Self)
        ensures
            r.0 == (Config { endpoint: r.0.endpoint, ..self.0 }),
            r.0.endpoint.host@ == host@,
            r.0.endpoint.port@ == port@,
    {
        let ConfigBuilder(mut c) = self;
        c.endpoint = Endpoint::new(host, port);
        ConfigBuilder(c)
    }

    /// Point the configuration at a `host:port` string; a string without
    /// exactly one colon is rejected, never panicked on.
    pub fn endpoint(self, endpoint: &str) -> (r: Result<Self, IotDBError>)
        ensures
            match r {
                Ok(b) => {
                    &&& valid_endpoint_str(endpoint@)
                    &&& b.0 == (Config { endpoint: b.0.endpoint, ..self.0 })
                    &&& b.0.endpoint.host@ == endpoint@.take(colon_index(endpoint@))
                    &&& b.0.endpoint.port@ == endpoint@.skip(colon_index(endpoint@) + 1)
                },
                Err(err) => {
                    &&& !valid_endpoint_str(endpoint@)
                    &&& err matches IotDBError::BadEndpoint(t) && t@ == endpoint@
                },
            },
    {
        let ConfigBuilder(mut c) = self;
        match Endpoint::from_str(endpoint) {
            Ok(e) => {
                c.endpoint = e;
                Ok(ConfigBuilder(c))
            },
            Err(err) => Err(err),
        }
    }

    /// Set the user name.
    pub fn user(self, user: &str) -> (r: Self)
        ensures
            r.0 == (Config { user: r.0.user, ..self.0 }),
            r.0.user@ == user@,
    {
        let ConfigBuilder(mut c) = self;
        c.user = user.to_owned();
        ConfigBuilder(c)
    }

    /// Set the password.
    pub fn password(self, password: &str) -> (r: Self)
        ensures
            r.0 == (Config { password: r.0.password, ..self.0 }),
            r.0.password@ == password@,
    {
        let ConfigBuilder(mut c) = self;
        c.password = password.to_owned();
        ConfigBuilder(c)
    }

    /// Set the per-call timeout, in milliseconds.
    pub fn timeout(self, timeout: i64) -> (r: Self)
        ensures
            r.0 == (Config { timeout, ..self.0 }),
    {
        let ConfigBuilder(mut c) = self;
        c.timeout = timeout;
        ConfigBuilder(c)
    }

    /// Set the time zone string sent at the handshake, upper-cased as the
    /// server expects.
    pub fn time_zone(self, time_zone: &str) -> (r: Self)
        ensures
            r.0 == (Config { time_zone: r.0.time_zone, ..self.0 }),
            r.0.time_zone@ == upper_of(time_zone@),
    {
        let ConfigBuilder(mut c) = self;
        c.time_zone = to_uppercase(time_zone);
        ConfigBuilder(c)
    }

    /// Set how many rows each fetch asks the server for.
    pub fn fetch_size(self, fetch_size: i32) -> (r: Self)
        ensures
            r.0 == (Config { fetch_size, ..self.0 }),
    {
        let ConfigBuilder(mut c) = self;
        c.fetch_size = fetch_size;
        ConfigBuilder(c)
    }

    /// Select the compact wire encoding.
    pub fn enable_rpc_compaction(self) -> (r: Self)
        ensures
            r.0 == (Config { rpc_compaction: true, ..self.0 }),
    {
        let ConfigBuilder(mut c) = self;
        c.rpc_compaction = true;
        ConfigBuilder(c)
    }

    /// Request a particular protocol version at the handshake.
    pub fn set_protocol_version(self, protocol_version: ProtocolVersion) -> (r: Self)
        ensures
            r.0 == (Config { protocol_version, ..self.0 }),
    {
        let ConfigBuilder(mut c) = self;
        c.protocol_version = protocol_version;
        ConfigBuilder(c)
    }

    /// Let query statements follow server redirects.
    pub fn enable_redirect_query(self, enable_redirect_query: bool) -> (r: Self)
        ensures
            r.0 == (Config { enable_redirect_query, ..self.0 }),
    {
        let ConfigBuilder(mut c) = self;
        c.enable_redirect_query = enable_redirect_query;
        ConfigBuilder(c)
    }

    /// Add one configuration pair; a later pair with the same key overrides
    /// this one when the map is materialized for the wire.
    pub fn set_config(self, key: &str, value: &str) -> (r: Self)
        ensures
            r.0 == (Config { config_map: r.0.config_map, ..self.0 }),
            r.0.config_map@ == self.0.config_map@.push(r.0.config_map@.last()),
            r.0.config_map@.last().0@ == key@,
            r.0.config_map@.last().1@ == value@,
    {
        let ConfigBuilder(mut c) = self;
        c.config_map.push((key.to_owned(), value.to_owned()));
        ConfigBuilder(c)
    }

    /// Append a batch of configuration pairs, in order, after the present
    /// ones.
    pub fn set_config_map(self, map: Vec<(String, String)>) -> (r: Self)
        ensures
            r.0 == (Config { config_map: r.0.config_map, ..self.0 }),
            r.0.config_map@ == self.0.config_map@ + map@,
    {
        let ConfigBuilder(mut c) = self;
        let mut m = map;
        c.config_map.append(&mut m);
        ConfigBuilder(c)
    }

    /// The finished configuration.
    pub fn build(self) -> (r: Config)
        ensures
            r == self.0,
    {
        self.0
    }
}

/// The uppercased image of a character sequence, as `str::to_uppercase`
/// computes it; the result depends on the characters alone.
pub uninterp spec fn upper_of(s: Seq<char>) -> Seq<char>;

/// Relies on str::to_uppercase: the uppercase equivalent of the string, a
/// function of its characters alone.
#[verifier::external_body]
fn to_uppercase(s: &str) -> (r: String)
    ensures
        r@ == upper_of(s@),
{
    s.to_uppercase()
}

/// Copy of a configuration-pair list.
fn clone_pairs(v: &Vec<(String, String)>) -> (r: Vec<(String, String)>)
    ensures
        r@ == v@,
{
    let mut r: Vec<(String, String)> = Vec::new();
    let mut i: usize = 0;
    proof {
        assert(r@ =~= v@.take(0));
    }
    while i < v.len()
        invariant
            i <= v@.len(),
            r@ == v@.take(i as int),
        decreases v@.len() - i,
    {
        let key = v[i].0.clone();
        let val = v[i].1.clone();
        r.push((key, val));
        proof {
            assert((key, val) == v@[i as int]);
            assert(r@ =~= v@.take(i + 1));
        }
        i = i + 1;
    }
    proof {
        assert(v@.take(v@.len() as int) =~= v@);
    }
    r
}

/// Lifecycle phase of a session. A fresh session is `Disconnected`; a
/// successful handshake makes it `Open`; a successful close makes it
/// `Closed`, which is terminal -- a closed session is reconstructed from its
/// `Config`, never reopened.
#[derive(Clone, Copy, Debug, PartialEq, Eq, Structural)]
pub enum SessionState {
    Disconnected,
    Open,
    Closed,
}

/// Client-side session state: credentials and per-call settings from the
/// `Config`, plus the server-assigned session and statement ids (`-1` until
/// open) and the lifecycle phase. The session never performs I/O itself: each
/// operation builds the request value to transmit, and a matching function
/// applies the server's reply to the state. Not safe for concurrent use from
/// several threads without external synchronization.
#[derive(Clone, Debug, PartialEq)]
pub struct Session {
    pub user: String,
    pub password: String,
    pub zone_id: String,
    pub fetch_size: i32,
    pub timeout: i64,
    pub session_id: i64,
    pub statement_id: i64,
    pub state: SessionState,
    pub protocol_version: ProtocolVersion,
    pub enable_redirect_query: bool,
    pub config: Vec<(String, String)>,
}

/// The close request a session would send: one is due exactly while the
/// session is open; closing a session in any other state is already complete.
pub open spec fn spec_close_request(s: Session) -> Option<TSCloseSessionReq> {
    if s.state == SessionState::Open {
        Some(TSCloseSessionReq { session_id: s.session_id })
    } else {
        None
    }
}

/// The session as a successful close leaves it: closed, all else unchanged.
pub open spec fn spec_close_success_state(s: Session) -> Session {
    Session { state: SessionState::Closed, ..s }
}

/// What the handshake reply yields: the assigned session id when the status
/// reports success, the announced protocol version matches the requested one,
/// and the server sent a session id; nothing otherwise.
pub open spec fn spec_open_outcome(s: Session, resp: TSOpenSessionResp) -> Option<i64> {
    if resp.status.code == SUCCESS_CODE && resp.server_protocol_version
        == s.protocol_version.spec_code() {
        resp.session_id
    } else {
        None
    }
}

/// Whether an existence probe's reply reports the probed series as present:
/// a result payload came back and its value-buffer list is not empty.
pub open spec fn spec_time_series_exists(resp: TSExecuteStatementResp) -> bool {
    match resp.query_data_set {
        Some(q) => q.value_list@.len() > 0,
        None => false,
    }
}

/// The fields every statement-execution request carries: the session and
/// statement ids, the statement text, and the session's per-call settings.
pub open spec fn spec_statement_req(
    s: Session,
    statement: Seq<char>,
    req: TSExecuteStatementReq,
) -> bool {
    &&& req.session_id == s.session_id
    &&& req.statement@ == statement
    &&& req.statement_id == s.statement_id
    &&& req.fetch_size == s.fetch_size
    &&& req.timeout == s.timeout
    &&& req.enable_redirect_query == s.enable_redirect_query
    &&& req.jdbc_query == false
}

/// The message text an error surfaces: the server's message, or the
/// placeholder when it sent none.
pub open spec fn spec_status_message(m: Option<String>) -> Seq<char> {
    match m {
        Some(s) => s@,
        None => "None"@,
    }
}

impl Session {
    /// A fresh, disconnected session built from a configuration; ids are `-1`
    /// until the handshake assigns real ones.
    pub fn new(config: Config) -> (r: Session)
        ensures
            r == (Session {
                user: config.user,
                password: config.password,
                zone_id: config.time_zone,
                fetch_size: config.fetch_size,
                timeout: config.timeout,
                session_id: -1i64,
                statement_id: -1i64,
                state: SessionState::Disconnected,
                protocol_version: config.protocol_version,
                enable_redirect_query: config.enable_redirect_query,
                config: config.config_map,
            }),
    {
        Session {
            user: config.user,
            password: config.password,
            zone_id: config.time_zone,
            fetch_size: config.fetch_size,
            timeout: config.timeout,
            session_id: -1,
            statement_id: -1,
            state: SessionState::Disconnected,
            protocol_version: config.protocol_version,
            enable_redirect_query: config.enable_redirect_query,
            config: config.config_map,
        }
    }

    /// Whether the session is open.
    pub open spec fn spec_is_open(self) -> bool {
        self.state == SessionState::Open
    }

    /// Whether the session is open.
    pub fn is_open(&self) -> (r: bool)
        ensures
            r == self.spec_is_open(),
    {
        match self.state {
            SessionState::Open => true,
            _ => false,
        }
    }

    /// Whether the session is not open (never opened, or closed).
    pub fn is_close(&self) -> (r: bool)
        ensures
            r == !self.spec_is_open(),
    {
        !self.is_open()
    }

    /// Set the user name (before opening).
    pub fn user(&mut self, user: &str)
        ensures
            *final(self) == (Session { user: final(self).user, ..*old(self) }),
            final(self).user@ == user@,
    {
        self.user = user.to_owned();
    }

    /// Set the password (before opening).
    pub fn password(&mut self, password: &str)
        ensures
            *final(self) == (Session { password: final(self).password, ..*old(self) }),
            final(self).password@ == password@,
    {
        self.password = password.to_owned();
    }

    /// Set the time zone sent at the handshake (before opening).
    pub fn zone_id(&mut self, zone_id: &str)
        ensures
            *final(self) == (Session { zone_id: final(self).zone_id, ..*old(self) }),
            final(self).zone_id@ == zone_id@,
    {
        self.zone_id = zone_id.to_owned();
    }

    /// Set how many rows each fetch asks the server for.
    pub fn fetch_size(&mut self, fetch_size: i32)
        ensures
            *final(self) == (Session { fetch_size, ..*old(self) }),
    {
        self.fetch_size = fetch_size;
    }

    /// Set the protocol version requested at the handshake (before opening).
    pub fn protocol_version(&mut self, protocol_version: ProtocolVersion)
        ensures
            *final(self) == (Session { protocol_version, ..*old(self) }),
    {
        self.protocol_version = protocol_version;
    }

    /// Add one configuration pair for the handshake; a later pair with the
    /// same key overrides an earlier one when the map is materialized.
    pub fn config(&mut self, key: &str, value: &str)
        ensures
            *final(self) == (Session { config: final(self).config, ..*old(self) }),
            final(self).config@ == old(self).config@.push(final(self).config@.last()),
            final(self).config@.last().0@ == key@,
            final(self).config@.last().1@ == value@,
    {
        self.config.push((key.to_owned(), value.to_owned()));
    }

    /// Append a batch of configuration pairs, in order, after the present
    /// ones.
    pub fn config_map(&mut self, map: Vec<(String, String)>)
        ensures
            *final(self) == (Session { config: final(self).config, ..*old(self) }),
            final(self).config@ == old(self).config@ + map@,
    {
        let mut m = map;
        self.config.append(&mut m);
    }

    /// Whether a reply's status code is the one success code.
    pub fn is_success(&self, status: &TSStatus) -> (r: bool)
        ensures
            r == (status.code == SUCCESS_CODE),
    {
        status.code == SUCCESS_CODE
    }

    /// The status contract every reply is held to: the success code passes,
    /// any other code is a domain failure carrying the server's message (or
    /// the placeholder when it sent none).
    pub fn apply_status(status: TSStatus) -> (r: Result<(), IotDBError>)
        ensures
            match r {
                Ok(()) => status.code == SUCCESS_CODE,
                Err(e) => {
                    &&& status.code != SUCCESS_CODE
                    &&& e matches IotDBError::Application(m) && m@ == spec_status_message(
                        status.message,
                    )
                },
            },
    {
        if status.code == SUCCESS_CODE {
            Ok(())
        } else {
            match status.message {
                Some(m) => Err(IotDBError::Application(m)),
                None => Err(IotDBError::Application("None".to_owned())),
            }
        }
    }

    /// The handshake request to transmit. Only a fresh (disconnected) session
    /// may open: an open one already has its ids, and a closed one must be
    /// reconstructed from its `Config`.
    pub fn open(&self) -> (r: Result<TSOpenSessionReq, IotDBError>)
        ensures
            match r {
                Ok(req) => {
                    &&& self.state == SessionState::Disconnected
                    &&& req.protocol_version == self.protocol_version
                    &&& req.zone_id == self.zone_id
                    &&& req.username == self.user
                    &&& req.password == self.password
                    &&& req.configuration@ == self.config@
                },
                Err(e) => self.state != SessionState::Disconnected && e
                    == IotDBError::InvalidSessionState,
            },
    {
        match self.state {
            SessionState::Disconnected => Ok(
                TSOpenSessionReq {
                    protocol_version: self.protocol_version,
                    zone_id: self.zone_id.clone(),
                    username: self.user.clone(),
                    password: self.password.clone(),
                    configuration: clone_pairs(&self.config),
                },
            ),
            _ => Err(IotDBError::InvalidSessionState),
        }
    }

    /// Judge the handshake reply; the session itself is untouched (it is
    /// borrowed immutably), so a rejected open leaves it disconnected. A
    /// non-success status is an application error; a success whose announced
    /// protocol version differs from the requested one is a version-mismatch
    /// error; a success without a session id is a decode error. On full
    /// success the assigned session id is returned, to be fed to
    /// `complete_open` together with the statement id from the follow-up
    /// round-trip.
    pub fn apply_open_resp(&self, resp: &TSOpenSessionResp) -> (r: Result<i64, IotDBError>)
        ensures
            match r {
                Ok(sid) => spec_open_outcome(*self, *resp) == Some(sid),
                Err(e) => {
                    &&& spec_open_outcome(*self, *resp) is None
                    &&& match e {
                        IotDBError::Application(m) => resp.status.code != SUCCESS_CODE && m@
                            == spec_status_message(resp.status.message),
                        IotDBError::VersionMismatch { client, server } => {
                            &&& resp.status.code == SUCCESS_CODE
                            &&& client == self.protocol_version.spec_code()
                            &&& server == resp.server_protocol_version
                            &&& client != server
                        },
                        IotDBError::Decode => {
                            &&& resp.status.code == SUCCESS_CODE
                            &&& resp.server_protocol_version == self.protocol_version.spec_code()
                            &&& resp.session_id is None
                        },
                        _ => false,
                    }
                },
            },
    {
        if resp.status.code != SUCCESS_CODE {
            match &resp.status.message {
                Some(m) => Err(IotDBError::Application(m.clone())),
                None => Err(IotDBError::Application("None".to_owned())),
            }
        } else {
            let client = self.protocol_version.to_code();
            if resp.server_protocol_version != client {
                Err(
                    IotDBError::VersionMismatch {
                        client,
                        server: resp.server_protocol_version,
                    },
                )
            } else {
                match resp.session_id {
                    Some(sid) => Ok(sid),
                    None => Err(IotDBError::Decode),
                }
            }
        }
    }

    /// Record the server-assigned ids and mark the session open. Permitted
    /// only on a fresh session; any other state is refused and unchanged.
    pub fn complete_open(&mut self, session_id: i64, statement_id: i64) -> (r: Result<
        (),
        IotDBError,
    >)
        ensures
            match r {
                Ok(()) => {
                    &&& old(self).state == SessionState::Disconnected
                    &&& *final(self) == (Session {
                        session_id,
                        statement_id,
                        state: SessionState::Open,
                        ..*old(self)
                    })
                },
                Err(e) => {
                    &&& old(self).state != SessionState::Disconnected
                    &&& *final(self) == *old(self)
                    &&& e == IotDBError::InvalidSessionState
                },
            },
    {
        match self.state {
            SessionState::Disconnected => {
                self.session_id = session_id;
                self.statement_id = statement_id;
                self.state = SessionState::Open;
                Ok(())
            },
            _ => Err(IotDBError::InvalidSessionState),
        }
    }

    /// The close request to transmit, or `None` when the session is not open:
    /// the close is then already complete and counts as success, and no RPC
    /// is issued. The session itself is untouched until `apply_close_resp`.
    pub fn close(&self) -> (r: Option<TSCloseSessionReq>)
        ensures
            r == spec_close_request(*self),
    {
        match self.state {
            SessionState::Open => Some(TSCloseSessionReq { session_id: self.session_id }),
            _ => None,
        }
    }

    /// Apply the reply to a transmitted close request: on success the session
    /// becomes closed; on failure it is left unchanged, so the caller may
    /// retry. Refused when no close was due.
    pub fn apply_close_resp(&mut self, status: TSStatus) -> (r: Result<(), IotDBError>)
        ensures
            match r {
                Ok(()) => {
                    &&& old(self).state == SessionState::Open
                    &&& status.code == SUCCESS_CODE
                    &&& *final(self) == spec_close_success_state(*old(self))
                },
                Err(e) => {
                    &&& *final(self) == *old(self)
                    &&& match e {
                        IotDBError::InvalidSessionState => old(self).state != SessionState::Open,
                        IotDBError::Application(m) => {
                            &&& old(self).state == SessionState::Open
                            &&& status.code != SUCCESS_CODE
                            &&& m@ == spec_status_message(status.message)
                        },
                        _ => false,
                    }
                },
            },
    {
        match self.state {
            SessionState::Open => {
                match Self::apply_status(status) {
                    Ok(()) => {
                        self.state = SessionState::Closed;
                        Ok(())
                    },
                    Err(e) => Err(e),
                }
            },
            _ => Err(IotDBError::InvalidSessionState),
        }
    }
    /// The set-storage-group request to transmit; refused unless the session
    /// is open.
    pub fn set_storage_group(&self, storage_group: &str) -> (r: Result<
        TSSetStorageGroupReq,
        IotDBError,
    >)
        ensures
            match r {
                Ok(req) => {
                    &&& self.spec_is_open()
                    &&& req.session_id == self.session_id
                    &&& req.storage_group@ == storage_group@
                },
                Err(e) => !self.spec_is_open() && e == IotDBError::InvalidSessionState,
            },
    {
        if self.is_open() {
            Ok(
                TSSetStorageGroupReq {
                    session_id: self.session_id,
                    storage_group: storage_group.to_owned(),
                },
            )
        } else {
            Err(IotDBError::InvalidSessionState)
        }
    }

    /// The delete request for one storage group; refused unless the session
    /// is open.
    pub fn delete_storage_group(&self, storage_group: &str) -> (r: Result<
        TSDeleteStorageGroupsReq,
        IotDBError,
    >)
        ensures
            match r {
                Ok(req) => {
                    &&& self.spec_is_open()
                    &&& req.session_id == self.session_id
                    &&& req.storage_groups@.len() == 1
                    &&& req.storage_groups@[0]@ == storage_group@
                },
                Err(e) => !self.spec_is_open() && e == IotDBError::InvalidSessionState,
            },
    {
        let mut storage_groups: Vec<String> = Vec::new();
        storage_groups.push(storage_group.to_owned());
        self.delete_storage_groups(storage_groups)
    }

    /// The delete request for several storage groups; refused unless the
    /// session is open.
    pub fn delete_storage_groups(&self, storage_groups: Vec<String>) -> (r: Result<
        TSDeleteStorageGroupsReq,
        IotDBError,
    >)
        ensures
            match r {
                Ok(req) => {
                    &&& self.spec_is_open()
                    &&& req.session_id == self.session_id
                    &&& req.storage_groups == storage_groups
                },
                Err(e) => !self.spec_is_open() && e == IotDBError::InvalidSessionState,
            },
    {
        if self.is_open() {
            Ok(TSDeleteStorageGroupsReq { session_id: self.session_id, storage_groups })
        } else {
            Err(IotDBError::InvalidSessionState)
        }
    }

    /// The create request for one time series, its schema tags already
    /// encoded as their wire integers; refused unless the session is open.
    pub fn create_time_series(
        &self,
        ts_path: &str,
        data_type: DataType,
        encoding: Encoding,
        compressor: Compressor,
    ) -> (r: Result<TSCreateTimeseriesReq, IotDBError>)
        ensures
            match r {
                Ok(req) => {
                    &&& self.spec_is_open()
                    &&& req.session_id == self.session_id
                    &&& req.path@ == ts_path@
                    &&& req.data_type == data_type.spec_code()
                    &&& req.encoding == encoding.spec_code()
                    &&& req.compressor == compressor.spec_code()
                },
                Err(e) => !self.spec_is_open() && e == IotDBError::InvalidSessionState,
            },
    {
        if self.is_open() {
            Ok(
                TSCreateTimeseriesReq {
                    session_id: self.session_id,
                    path: ts_path.to_owned(),
                    data_type: data_type.to_code(),
                    encoding: encoding.to_code(),
                    compressor: compressor.to_code(),
                },
            )
        } else {
            Err(IotDBError::InvalidSessionState)
        }
    }

    /// The create request for several time series, with parallel per-path tag
    /// lists already encoded as wire integers; refused unless the session is
    /// open.
    pub fn create_multi_time_series(
        &self,
        ts_path_vec: Vec<String>,
        data_type_vec: Vec<i32>,
        encoding_vec: Vec<i32>,
        compressor_vec: Vec<i32>,
    ) -> (r: Result<TSCreateMultiTimeseriesReq, IotDBError>)
        ensures
            match r {
                Ok(req) => {
                    &&& self.spec_is_open()
                    &&& req.session_id == self.session_id
                    &&& req.paths == ts_path_vec
                    &&& req.data_types == data_type_vec
                    &&& req.encodings == encoding_vec
                    &&& req.compressors == compressor_vec
                },
                Err(e) => !self.spec_is_open() && e == IotDBError::InvalidSessionState,
            },
    {
        if self.is_open() {
            Ok(
                TSCreateMultiTimeseriesReq {
                    session_id: self.session_id,
                    paths: ts_path_vec,
                    data_types: data_type_vec,
                    encodings: encoding_vec,
                    compressors: compressor_vec,
                },
            )
        } else {
            Err(IotDBError::InvalidSessionState)
        }
    }

    /// The delete request for several time series; refused unless the session
    /// is open.
    pub fn delete_time_series(&self, path_vec: Vec<String>) -> (r: Result<
        TSDeleteTimeseriesReq,
        IotDBError,
    >)
        ensures
            match r {
                Ok(req) => {
                    &&& self.spec_is_open()
                    &&& req.session_id == self.session_id
                    &&& req.paths == path_vec
                },
                Err(e) => !self.spec_is_open() && e == IotDBError::InvalidSessionState,
            },
    {
        if self.is_open() {
            Ok(TSDeleteTimeseriesReq { session_id: self.session_id, paths: path_vec })
        } else {
            Err(IotDBError::InvalidSessionState)
        }
    }

    /// The existence probe for one time series: a `SHOW TIMESERIES` query on
    /// its path; judge the reply with `time_series_exists`. Refused unless
    /// the session is open.
    pub fn check_time_series_exists(&self, path: &str) -> (r: Result<
        TSExecuteStatementReq,
        IotDBError,
    >)
        ensures
            match r {
                Ok(req) => self.spec_is_open() && spec_statement_req(
                    *self,
                    "SHOW TIMESERIES "@ + path@,
                    req,
                ),
                Err(e) => !self.spec_is_open() && e == IotDBError::InvalidSessionState,
            },
    {
        if self.is_open() {
            let statement = "SHOW TIMESERIES ".to_owned().concat(path);
            Ok(self.statement_req(statement))
        } else {
            Err(IotDBError::InvalidSessionState)
        }
    }

    /// Judge an existence probe's reply: the series exists exactly when a
    /// result payload came back and its value buffers are not an empty list.
    /// A reply without a payload, or with an empty value-buffer list, means
    /// the series does not exist.
    pub fn time_series_exists(resp: &TSExecuteStatementResp) -> (r: bool)
        ensures
            r == spec_time_series_exists(*resp),
    {
        match &resp.query_data_set {
            None => false,
            Some(q) => q.value_list.len() > 0,
        }
    }

    /// The create-or-short-circuit decision on an existence probe's reply:
    /// when the probe's status fails, the failure surfaces; when the probe
    /// reports the series present, the operation is already complete and no
    /// create request is due (`None`) -- the series is never re-created;
    /// otherwise the create request to transmit comes back. Refused unless
    /// the session is open.
    pub fn create_time_series_unless_present(
        &self,
        ts_path: &str,
        data_type: DataType,
        encoding: Encoding,
        compressor: Compressor,
        probe_resp: &TSExecuteStatementResp,
    ) -> (r: Result<Option<TSCreateTimeseriesReq>, IotDBError>)
        ensures
            match r {
                Ok(opt) => {
                    &&& self.spec_is_open()
                    &&& probe_resp.status.code == SUCCESS_CODE
                    &&& (opt is None <==> spec_time_series_exists(*probe_resp))
                    &&& match opt {
                        None => true,
                        Some(req) => {
                            &&& req.session_id == self.session_id
                            &&& req.path@ == ts_path@
                            &&& req.data_type == data_type.spec_code()
                            &&& req.encoding == encoding.spec_code()
                            &&& req.compressor == compressor.spec_code()
                        },
                    }
                },
                Err(e) => match e {
                    IotDBError::InvalidSessionState => !self.spec_is_open(),
                    IotDBError::Application(m) => {
                        &&& self.spec_is_open()
                        &&& probe_resp.status.code != SUCCESS_CODE
                        &&& m@ == spec_status_message(probe_resp.status.message)
                    },
                    _ => false,
                },
            },
    {
        if !self.is_open() {
            return Err(IotDBError::InvalidSessionState);
        }
        if probe_resp.status.code != SUCCESS_CODE {
            return match &probe_resp.status.message {
                Some(m) => Err(IotDBError::Application(m.clone())),
                None => Err(IotDBError::Application("None".to_owned())),
            };
        }
        if Self::time_series_exists(probe_resp) {
            Ok(None)
        } else {
            match self.create_time_series(ts_path, data_type, encoding, compressor) {
                Ok(req) => Ok(Some(req)),
                Err(e) => Err(e),
            }
        }
    }

    /// The delete request for all points of the named series with timestamps
    /// in `[0, timestamp]`; refused unless the session is open.
    pub fn delete_data(&self, path_vec: Vec<String>, timestamp: i64) -> (r: Result<
        TSDeleteDataReq,
        IotDBError,
    >)
        ensures
            match r {
                Ok(req) => {
                    &&& self.spec_is_open()
                    &&& req.session_id == self.session_id
                    &&& req.paths == path_vec
                    &&& req.start_time == 0
                    &&& req.end_time == timestamp
                },
                Err(e) => !self.spec_is_open() && e == IotDBError::InvalidSessionState,
            },
    {
        if self.is_open() {
            Ok(
                TSDeleteDataReq {
                    session_id: self.session_id,
                    paths: path_vec,
                    start_time: 0,
                    end_time: timestamp,
                },
            )
        } else {
            Err(IotDBError::InvalidSessionState)
        }
    }

    /// The insert request for rows of string-rendered values; refused unless
    /// the session is open.
    pub fn insert_string_records(
        &self,
        device_ids: Vec<String>,
        timestamps: Vec<i64>,
        measurements_list: Vec<Vec<String>>,
        values_list: Vec<Vec<String>>,
        is_aligned: bool,
    ) -> (r: Result<TSInsertStringRecordsReq, IotDBError>)
        ensures
            match r {
                Ok(req) => {
                    &&& self.spec_is_open()
                    &&& req.session_id == self.session_id
                    &&& req.prefix_paths == device_ids
                    &&& req.timestamps == timestamps
                    &&& req.measurements_list == measurements_list
                    &&& req.values_list == values_list
                    &&& req.is_aligned == is_aligned
                },
                Err(e) => !self.spec_is_open() && e == IotDBError::InvalidSessionState,
            },
    {
        if self.is_open() {
            Ok(
                TSInsertStringRecordsReq {
                    session_id: self.session_id,
                    prefix_paths: device_ids,
                    measurements_list,
                    values_list,
                    timestamps,
                    is_aligned,
                },
            )
        } else {
            Err(IotDBError::InvalidSessionState)
        }
    }

    /// The insert request for one pre-encoded record; refused unless the
    /// session is open.
    pub fn insert_record(
        &self,
        device_id: &str,
        timestamp: i64,
        measurements: Vec<String>,
        values: Vec<u8>,
        is_aligned: bool,
    ) -> (r: Result<TSInsertRecordReq, IotDBError>)
        ensures
            match r {
                Ok(req) => {
                    &&& self.spec_is_open()
                    &&& req.session_id == self.session_id
                    &&& req.prefix_path@ == device_id@
                    &&& req.timestamp == timestamp
                    &&& req.measurements == measurements
                    &&& req.values == values
                    &&& req.is_aligned == is_aligned
                },
                Err(e) => !self.spec_is_open() && e == IotDBError::InvalidSessionState,
            },
    {
        if self.is_open() {
            Ok(
                TSInsertRecordReq {
                    session_id: self.session_id,
                    prefix_path: device_id.to_owned(),
                    measurements,
                    values,
                    timestamp,
                    is_aligned,
                },
            )
        } else {
            Err(IotDBError::InvalidSessionState)
        }
    }

    /// The same request as `insert_record`, meant for the test endpoint the
    /// server accepts and discards (for measuring client-side cost); refused
    /// unless the session is open.
    pub fn test_insert_record(
        &self,
        prefix_path: &str,
        timestamp: i64,
        measurements: Vec<String>,
        values: Vec<u8>,
        is_aligned: bool,
    ) -> (r: Result<TSInsertRecordReq, IotDBError>)
        ensures
            match r {
                Ok(req) => {
                    &&& self.spec_is_open()
                    &&& req.session_id == self.session_id
                    &&& req.prefix_path@ == prefix_path@
                    &&& req.timestamp == timestamp
                    &&& req.measurements == measurements
                    &&& req.values == values
                    &&& req.is_aligned == is_aligned
                },
                Err(e) => !self.spec_is_open() && e == IotDBError::InvalidSessionState,
            },
    {
        self.insert_record(prefix_path, timestamp, measurements, values, is_aligned)
    }

    /// The insert request for several pre-encoded records; refused unless the
    /// session is open.
    pub fn insert_records(
        &self,
        prefix_paths: Vec<String>,
        timestamps: Vec<i64>,
        measurements_list: Vec<Vec<String>>,
        values_list: Vec<Vec<u8>>,
        is_aligned: bool,
    ) -> (r: Result<TSInsertRecordsReq, IotDBError>)
        ensures
            match r {
                Ok(req) => {
                    &&& self.spec_is_open()
                    &&& req.session_id == self.session_id
                    &&& req.prefix_paths == prefix_paths
                    &&& req.timestamps == timestamps
                    &&& req.measurements_list == measurements_list
                    &&& req.values_list == values_list
                    &&& req.is_aligned == is_aligned
                },
                Err(e) => !self.spec_is_open() && e == IotDBError::InvalidSessionState,
            },
    {
        if self.is_open() {
            Ok(
                TSInsertRecordsReq {
                    session_id: self.session_id,
                    prefix_paths,
                    measurements_list,
                    values_list,
                    timestamps,
                    is_aligned,
                },
            )
        } else {
            Err(IotDBError::InvalidSessionState)
        }
    }

    /// The same request as `insert_records`, meant for the test endpoint the
    /// server accepts and discards; refused unless the session is open.
    pub fn test_insert_records(
        &self,
        prefix_paths: Vec<String>,
        timestamps: Vec<i64>,
        measurements_list: Vec<Vec<String>>,
        values_list: Vec<Vec<u8>>,
        is_aligned: bool,
    ) -> (r: Result<TSInsertRecordsReq, IotDBError>)
        ensures
            match r {
                Ok(req) => {
                    &&& self.spec_is_open()
                    &&& req.session_id == self.session_id
                    &&& req.prefix_paths == prefix_paths
                    &&& req.timestamps == timestamps
                    &&& req.measurements_list == measurements_list
                    &&& req.values_list == values_list
                    &&& req.is_aligned == is_aligned
                },
                Err(e) => !self.spec_is_open() && e == IotDBError::InvalidSessionState,
            },
    {
        self.insert_records(prefix_paths, timestamps, measurements_list, values_list, is_aligned)
    }

    /// The insert request for several pre-encoded records of one device;
    /// refused unless the session is open.
    pub fn insert_records_of_one_device(
        &self,
        device_id: &str,
        timestamps: Vec<i64>,
        measurements_list: Vec<Vec<String>>,
        values_list: Vec<Vec<u8>>,
        is_aligned: bool,
    ) -> (r: Result<TSInsertRecordsOfOneDeviceReq, IotDBError>)
        ensures
            match r {
                Ok(req) => {
                    &&& self.spec_is_open()
                    &&& req.session_id == self.session_id
                    &&& req.prefix_path@ == device_id@
                    &&& req.timestamps == timestamps
                    &&& req.measurements_list == measurements_list
                    &&& req.values_list == values_list
                    &&& req.is_aligned == is_aligned
                },
                Err(e) => !self.spec_is_open() && e == IotDBError::InvalidSessionState,
            },
    {
        if self.is_open() {
            Ok(
                TSInsertRecordsOfOneDeviceReq {
                    session_id: self.session_id,
                    prefix_path: device_id.to_owned(),
                    measurements_list,
                    values_list,
                    timestamps,
                    is_aligned,
                },
            )
        } else {
            Err(IotDBError::InvalidSessionState)
        }
    }

    /// The insert request for one tablet; refused unless the session is open.
    pub fn insert_tablet(
        &self,
        prefix_path: &str,
        measurements: Vec<String>,
        values: Vec<u8>,
        timestamps: Vec<u8>,
        types: Vec<i32>,
        size: i32,
        is_aligned: bool,
    ) -> (r: Result<TSInsertTabletReq, IotDBError>)
        ensures
            match r {
                Ok(req) => {
                    &&& self.spec_is_open()
                    &&& req.session_id == self.session_id
                    &&& req.prefix_path@ == prefix_path@
                    &&& req.measurements == measurements
                    &&& req.values == values
                    &&& req.timestamps == timestamps
                    &&& req.types == types
                    &&& req.size == size
                    &&& req.is_aligned == is_aligned
                },
                Err(e) => !self.spec_is_open() && e == IotDBError::InvalidSessionState,
            },
    {
        if self.is_open() {
            Ok(
                TSInsertTabletReq {
                    session_id: self.session_id,
                    prefix_path: prefix_path.to_owned(),
                    measurements,
                    values,
                    timestamps,
                    types,
                    size,
                    is_aligned,
                },
            )
        } else {
            Err(IotDBError::InvalidSessionState)
        }
    }

    /// The insert request for several independent tablets; refused unless the
    /// session is open.
    pub fn insert_tablets(
        &self,
        prefix_paths: Vec<String>,
        measurements_list: Vec<Vec<String>>,
        values_list: Vec<Vec<u8>>,
        timestamps_list: Vec<Vec<u8>>,
        types_list: Vec<Vec<i32>>,
        size_list: Vec<i32>,
        is_aligned: bool,
    ) -> (r: Result<TSInsertTabletsReq, IotDBError>)
        ensures
            match r {
                Ok(req) => {
                    &&& self.spec_is_open()
                    &&& req.session_id == self.session_id
                    &&& req.prefix_paths == prefix_paths
                    &&& req.measurements_list == measurements_list
                    &&& req.values_list == values_list
                    &&& req.timestamps_list == timestamps_list
                    &&& req.types_list == types_list
                    &&& req.size_list == size_list
                    &&& req.is_aligned == is_aligned
                },
                Err(e) => !self.spec_is_open() && e == IotDBError::InvalidSessionState,
            },
    {
        if self.is_open() {
            Ok(
                TSInsertTabletsReq {
                    session_id: self.session_id,
                    prefix_paths,
                    measurements_list,
                    values_list,
                    timestamps_list,
                    types_list,
                    size_list,
                    is_aligned,
                },
            )
        } else {
            Err(IotDBError::InvalidSessionState)
        }
    }

    /// A statement-execution request with this session's ids and per-call
    /// settings.
    fn statement_req(&self, statement: String) -> (r: TSExecuteStatementReq)
        ensures
            spec_statement_req(*self, statement@, r),
    {
        TSExecuteStatementReq {
            session_id: self.session_id,
            statement,
            statement_id: self.statement_id,
            fetch_size: self.fetch_size,
            timeout: self.timeout,
            enable_redirect_query: self.enable_redirect_query,
            jdbc_query: false,
        }
    }

    /// The execution request for one SQL statement; feed the reply through
    /// the status contract and `DataSet::new`. Refused unless the session is
    /// open.
    pub fn sql(&self, sql: &str) -> (r: Result<TSExecuteStatementReq, IotDBError>)
        ensures
            match r {
                Ok(req) => self.spec_is_open() && spec_statement_req(*self, sql@, req),
                Err(e) => !self.spec_is_open() && e == IotDBError::InvalidSessionState,
            },
    {
        if self.is_open() {
            Ok(self.statement_req(sql.to_owned()))
        } else {
            Err(IotDBError::InvalidSessionState)
        }
    }

    /// The execution request for one query statement; refused unless the
    /// session is open.
    pub fn exec_query(&self, query: &str) -> (r: Result<TSExecuteStatementReq, IotDBError>)
        ensures
            match r {
                Ok(req) => self.spec_is_open() && spec_statement_req(*self, query@, req),
                Err(e) => !self.spec_is_open() && e == IotDBError::InvalidSessionState,
            },
    {
        self.sql(query)
    }

    /// The execution request for one update statement; refused unless the
    /// session is open.
    pub fn exec_update(&self, statement: &str) -> (r: Result<TSExecuteStatementReq, IotDBError>)
        ensures
            match r {
                Ok(req) => self.spec_is_open() && spec_statement_req(*self, statement@, req),
                Err(e) => !self.spec_is_open() && e == IotDBError::InvalidSessionState,
            },
    {
        self.sql(statement)
    }

    /// The execution request for a batch of statements; refused unless the
    /// session is open.
    pub fn exec_batch(&self, statements: Vec<String>) -> (r: Result<
        TSExecuteBatchStatementReq,
        IotDBError,
    >)
        ensures
            match r {
                Ok(req) => {
                    &&& self.spec_is_open()
                    &&& req.session_id == self.session_id
                    &&& req.statements == statements
                },
                Err(e) => !self.spec_is_open() && e == IotDBError::InvalidSessionState,
            },
    {
        if self.is_open() {
            Ok(TSExecuteBatchStatementReq { session_id: self.session_id, statements })
        } else {
            Err(IotDBError::InvalidSessionState)
        }
    }

    /// The raw-data query request for the named series over
    /// `[start_time, end_time)`; refused unless the session is open.
    pub fn exec_raw_data_query(&self, paths: Vec<String>, start_time: i64, end_time: i64) -> (r:
        Result<TSRawDataQueryReq, IotDBError>)
        ensures
            match r {
                Ok(req) => {
                    &&& self.spec_is_open()
                    &&& req.session_id == self.session_id
                    &&& req.paths == paths
                    &&& req.fetch_size == self.fetch_size
                    &&& req.start_time == start_time
                    &&& req.end_time == end_time
                    &&& req.statement_id == self.statement_id
                    &&& req.enable_redirect_query == self.enable_redirect_query
                    &&& req.jdbc_query == false
                },
                Err(e) => !self.spec_is_open() && e == IotDBError::InvalidSessionState,
            },
    {
        if self.is_open() {
            Ok(
                TSRawDataQueryReq {
                    session_id: self.session_id,
                    paths,
                    fetch_size: self.fetch_size,
                    start_time,
                    end_time,
                    statement_id: self.statement_id,
                    enable_redirect_query: self.enable_redirect_query,
                    jdbc_query: false,
                },
            )
        } else {
            Err(IotDBError::InvalidSessionState)
        }
    }

    /// The set-time-zone request; refused unless the session is open.
    pub fn set_time_zone(&self, time_zone: &str) -> (r: Result<TSSetTimeZoneReq, IotDBError>)
        ensures
            match r {
                Ok(req) => {
                    &&& self.spec_is_open()
                    &&& req.session_id == self.session_id
                    &&& req.time_zone@ == time_zone@
                },
                Err(e) => !self.spec_is_open() && e == IotDBError::InvalidSessionState,
            },
    {
        if self.is_open() {
            Ok(
                TSSetTimeZoneReq {
                    session_id: self.session_id,
                    time_zone: time_zone.to_owned(),
                },
            )
        } else {
            Err(IotDBError::InvalidSessionState)
        }
    }

    /// The session id to query the time zone with; refused unless the session
    /// is open.
    pub fn get_time_zone(&self) -> (r: Result<i64, IotDBError>)
        ensures
            match r {
                Ok(sid) => self.spec_is_open() && sid == self.session_id,
                Err(e) => !self.spec_is_open() && e == IotDBError::InvalidSessionState,
            },
    {
        if self.is_open() {
            Ok(self.session_id)
        } else {
            Err(IotDBError::InvalidSessionState)
        }
    }

    /// Judge a get-time-zone reply by the status contract every operation is
    /// held to: the server's time zone on success, and on any other status a
    /// descriptive error carrying the server's message (or the placeholder
    /// when it sent none).
    pub fn time_zone_from_resp(resp: &TSGetTimeZoneResp) -> (r: Result<String, IotDBError>)
        ensures
            match r {
                Ok(tz) => resp.status.code == SUCCESS_CODE && tz@ == resp.time_zone@,
                Err(e) => {
                    &&& resp.status.code != SUCCESS_CODE
                    &&& e matches IotDBError::Application(m) && m@ == spec_status_message(
                        resp.status.message,
                    )
                },
            },
    {
        if resp.status.code == SUCCESS_CODE {
            Ok(resp.time_zone.clone())
        } else {
            match &resp.status.message {
                Some(m) => Err(IotDBError::Application(m.clone())),
                None => Err(IotDBError::Application("None".to_owned())),
            }
        }
    }

    /// The cancellation request for an in-flight query's server-side result
    /// set; refused unless the session is open.
    pub fn cancel_operation(&self, query_id: i64) -> (r: Result<TSCancelOperationReq, IotDBError>)
        ensures
            match r {
                Ok(req) => {
                    &&& self.spec_is_open()
                    &&& req.session_id == self.session_id
                    &&& req.query_id == query_id
                },
                Err(e) => !self.spec_is_open() && e == IotDBError::InvalidSessionState,
            },
    {
        if self.is_open() {
            Ok(TSCancelOperationReq { session_id: self.session_id, query_id })
        } else {
            Err(IotDBError::InvalidSessionState)
        }
    }
}

/// Close is idempotent: once a close has succeeded, a second close finds the
/// session closed and sends no request (it is complete at once), so two
/// closes in a row issue at most one RPC and both succeed.
pub proof fn lemma_close_idempotent(s: Session, status: TSStatus)
    requires
        status.code == SUCCESS_CODE,
    ensures
        spec_close_request(spec_close_success_state(s)) is None,
{
}

/// A handshake reply announcing a protocol version other than the requested
/// one yields no session id, even when its status reports success; judging
/// the reply borrows the session immutably, so it stays unopened and later
/// operations still find it so.
pub proof fn lemma_version_mismatch_rejects_open(s: Session, resp: TSOpenSessionResp)
    requires
        resp.server_protocol_version != s.protocol_version.spec_code(),
    ensures
        spec_open_outcome(s, resp) is None,
{
}

} // verus!
