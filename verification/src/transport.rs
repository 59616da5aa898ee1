//! The state of an HTTP transport, the requests that it sends and what it
//! learns from responses.

use http::header::HeaderMap;
use http::Request;
use url::Url;
use vstd::prelude::*;
use vstd::utf8::*;

use crate::config::HttpTransportConfig;
use crate::error::HttpTransportError;
use crate::json;
use crate::rpc;
use crate::rpc::Envelope;
use crate::text;
use crate::urls;
use crate::wire;
use crate::wire::{Fields, RequestHead};

verus! {

/// Session information for MCP over HTTP
#[derive(Debug)]
pub struct SessionInfo {
    pub session_id: Option<String>,
    pub protocol_version: Option<String>,
}

impl Clone for SessionInfo {
    fn clone(&self) -> (r: Self)
        ensures
            r == *self,
    {
        SessionInfo {
            session_id: self.session_id.clone(),
            protocol_version: self.protocol_version.clone(),
        }
    }
}

impl Default for SessionInfo {
    fn default() -> (r: Self)
        ensures
            r.session_id is None,
            r.protocol_version is None,
    {
        SessionInfo { session_id: None, protocol_version: None }
    }
}

/// Transport mode - either standard MCP-over-HTTP or legacy SSE mode
#[derive(Debug)]
pub enum TransportMode {
    /// Standard MCP over HTTP
    Standard,
    /// Legacy SSE mode with discovered endpoint
    LegacySse { endpoint: Url },
}

impl Clone for TransportMode {
    fn clone(&self) -> (r: Self)
        ensures
            r == *self,
    {
        match self {
            TransportMode::Standard => TransportMode::Standard,
            TransportMode::LegacySse { endpoint } => TransportMode::LegacySse {
                endpoint: endpoint.clone(),
            },
        }
    }
}

/// HTTP transport for MCP (Model Context Protocol) servers: where messages go,
/// and with which headers.
///
/// It supports standard MCP-over-HTTP and the legacy Server-Sent Events mode,
/// in which the server announces the address that messages are sent to.
pub struct HttpTransport {
    base_url: Url,
    config: HttpTransportConfig,
    session: SessionInfo,
    mode: TransportMode,
}

/// The model of an `HttpTransport`.
#[verifier::ext_equal]
pub struct TransportState {
    pub base_url: Url,
    pub config: HttpTransportConfig,
    pub session_id: Option<Seq<char>>,
    pub protocol_version: Option<Seq<char>>,
    pub mode: TransportMode,
}

impl View for HttpTransport {
    type V = TransportState;

    closed spec fn view(&self) -> TransportState {
        TransportState {
            base_url: self.base_url,
            config: self.config,
            session_id: text::opt_text(self.session.session_id),
            protocol_version: text::opt_text(self.session.protocol_version),
            mode: self.mode,
        }
    }
}

impl TransportState {
    /// A transport that has not exchanged anything yet.
    pub open spec fn fresh(base_url: Url, config: HttpTransportConfig) -> TransportState {
        TransportState {
            base_url,
            config,
            session_id: None,
            protocol_version: None,
            mode: TransportMode::Standard,
        }
    }

    /// Where messages are sent to.
    pub open spec fn target(self) -> Url {
        match self.mode {
            TransportMode::Standard => self.base_url,
            TransportMode::LegacySse { endpoint } => endpoint,
        }
    }

    /// The state after a response with the given header fields.
    pub open spec fn after_response(self, fields: Fields) -> TransportState {
        TransportState {
            session_id: match wire::field_text(fields, "mcp-session-id"@) {
                Some(id) => Some(id),
                None => self.session_id,
            },
            protocol_version: match wire::field_text(fields, "mcp-protocol-version"@) {
                Some(version) => Some(version),
                None => self.protocol_version,
            },
            ..self
        }
    }

    /// The state after the server announced `endpoint`.
    pub open spec fn with_endpoint(self, endpoint: Url) -> TransportState {
        TransportState { mode: TransportMode::LegacySse { endpoint }, ..self }
    }

    /// The header fields of a message of `length` bytes.
    pub open spec fn message_fields(self, length: nat) -> Fields {
        let basic = map![
            "content-type"@ => seq![encode_utf8("application/json"@)],
            "accept"@ => seq![encode_utf8("application/json, text/event-stream"@)],
            "content-length"@ => seq![encode_utf8(text::decimal(length))],
            "origin"@ => seq![encode_utf8(self.config.origin@)],
        ];
        let with_session = match self.session_id {
            Some(id) => basic.insert("mcp-session-id"@, seq![encode_utf8(id)]),
            None => basic,
        };
        match self.protocol_version {
            Some(version) => with_session.insert(
                "mcp-protocol-version"@,
                seq![encode_utf8(version)],
            ),
            None => with_session,
        }
    }

    /// The origin and the session's texts can be sent as header values.
    pub open spec fn sendable(self) -> bool {
        &&& wire::field_value_ok(encode_utf8(self.config.origin@))
        &&& self.session_id matches Some(id) ==> wire::field_value_ok(encode_utf8(id))
        &&& self.protocol_version matches Some(version) ==> wire::field_value_ok(
            encode_utf8(version),
        )
    }

    /// The head of the request that posts a message of `length` bytes to a
    /// URL, or the message of the error that prevents it.
    pub open spec fn post(self, url: Seq<char>, length: nat) -> Result<RequestHead, Seq<char>> {
        match wire::uri_reading(url) {
            Err(text) => Err(text),
            Ok(uri) => if self.sendable() {
                Ok(RequestHead { method: "POST"@, uri, fields: self.message_fields(length) })
            } else {
                Err("failed to parse header value"@)
            },
        }
    }
}

/// What building a request must return.
pub open spec fn built(
    head: Result<RequestHead, Seq<char>>,
    body: Seq<u8>,
    r: Result<Request<Vec<u8>>, HttpTransportError>,
) -> bool {
    match head {
        Ok(h) => r matches Ok(q) && wire::request_head(q) == h && wire::request_body(q) == body,
        Err(e) => r matches Err(HttpTransportError::HttpClientError(t)) && t@
            == "Failed to build HTTP request: "@ + e,
    }
}

impl HttpTransport {
    /// Creates a new HTTP transport with default configuration.
    pub fn new(base_url: Url) -> (r: Result<Self, HttpTransportError>)
        ensures
            r matches Ok(t) && t@ == TransportState::fresh(base_url, t@.config)
                && t@.config.is_default(),
    {
        HttpTransport::with_config(base_url, HttpTransportConfig::default())
    }

    /// Creates a new HTTP transport with custom configuration. A channel needs
    /// room for a message.
    pub fn with_config(base_url: Url, config: HttpTransportConfig) -> (r: Result<
        Self,
        HttpTransportError,
    >)
        requires
            config.channel_buffer_size > 0,
        ensures
            r matches Ok(t) && t@ == TransportState::fresh(base_url, config),
    {
        Ok(
            HttpTransport {
                base_url,
                config,
                session: SessionInfo::default(),
                mode: TransportMode::Standard,
            },
        )
    }

    /// Gets the current session ID.
    pub fn session_id(&self) -> (r: Option<String>)
        ensures
            text::opt_text(r) == self@.session_id,
    {
        self.session.session_id.clone()
    }

    /// Sets the session ID.
    pub fn set_session_id(&mut self, session_id: Option<String>)
        ensures
            final(self)@ == (TransportState { session_id: text::opt_text(session_id), ..old(self)@ }),
    {
        self.session.session_id = session_id;
    }

    /// Gets the current protocol version.
    pub fn protocol_version(&self) -> (r: Option<String>)
        ensures
            text::opt_text(r) == self@.protocol_version,
    {
        self.session.protocol_version.clone()
    }

    /// Sets the protocol version.
    pub fn set_protocol_version(&mut self, version: Option<String>)
        ensures
            final(self)@ == (TransportState {
                protocol_version: text::opt_text(version),
                ..old(self)@
            }),
    {
        self.session.protocol_version = version;
    }

    /// Validates an outbound JSON-RPC message for basic correctness.
    pub fn validate_jsonrpc_message(payload: &str) -> (r: Result<(), HttpTransportError>)
        ensures
            rpc::checked(payload@, r),
    {
        match json::read_text(payload) {
            Ok(value) => Envelope::of(&value).check(),
            Err(e) => Err(HttpTransportError::from(e)),
        }
    }

    /// Determines if a JSON-RPC message is a request (has both id and method).
    pub fn is_request_message(payload: &[u8]) -> (r: bool)
        ensures
            r == rpc::request_bytes(payload@),
    {
        match json::read_bytes(payload) {
            Ok(value) => Envelope::of(&value).is_request(),
            Err(_) => false,
        }
    }

    /// Determines the target URL based on current transport mode.
    pub fn get_target_url(&self) -> (r: Url)
        ensures
            r == self@.target(),
    {
        match &self.mode {
            TransportMode::Standard => self.base_url.clone(),
            TransportMode::LegacySse { endpoint } => endpoint.clone(),
        }
    }

    /// The address that the transport was made with.
    pub fn base_url(&self) -> (r: Url)
        ensures
            r == self@.base_url,
    {
        self.base_url.clone()
    }

    /// Whether messages go to the address that the transport was made with.
    pub fn is_standard(&self) -> (r: bool)
        ensures
            r == (self@.mode is Standard),
    {
        match &self.mode {
            TransportMode::Standard => true,
            TransportMode::LegacySse { .. } => false,
        }
    }

    /// Sends messages to `endpoint` from now on.
    pub fn adopt_endpoint(&mut self, endpoint: Url)
        ensures
            final(self)@ == old(self)@.with_endpoint(endpoint),
    {
        self.mode = TransportMode::LegacySse { endpoint };
    }

    /// Updates session information from HTTP response headers.
    pub fn update_session_from_response(&mut self, headers: &HeaderMap)
        ensures
            final(self)@ == old(self)@.after_response(wire::map_fields(*headers)),
    {
        proof {
            lower_names();
        }
        match wire::header_text(headers, "Mcp-Session-Id") {
            Some(session_id) => {
                self.session.session_id = Some(session_id);
            },
            None => {},
        }
        match wire::header_text(headers, "MCP-Protocol-Version") {
            Some(version) => {
                self.session.protocol_version = Some(version);
            },
            None => {},
        }
    }

    /// Builds an HTTP request with appropriate headers.
    pub fn build_request(&self, url: &Url, body: Vec<u8>) -> (r: Result<
        Request<Vec<u8>>,
        HttpTransportError,
    >)
        ensures
            built(self@.post(urls::url_text(*url), body@.len()), body@, r),
    {
        proof {
            lower_names();
            distinct_names();
            plain_values(body@.len());
        }
        let length = text::decimal_text(body.len() as u64);
        let mut builder = wire::new_builder();
        builder = wire::set_method(builder, "POST");
        builder = wire::set_uri(builder, url.as_str());
        builder = wire::add_header(builder, "Content-Type", "application/json");
        builder = wire::add_header(builder, "Accept", "application/json, text/event-stream");
        builder = wire::add_header(builder, "Content-Length", length.as_str());
        builder = wire::add_header(builder, "Origin", self.config.origin.as_str());
        match &self.session.session_id {
            Some(session_id) => {
                builder = wire::add_header(builder, "Mcp-Session-Id", session_id.as_str());
            },
            None => {},
        }
        match &self.session.protocol_version {
            Some(version) => {
                builder = wire::add_header(builder, "MCP-Protocol-Version", version.as_str());
            },
            None => {},
        }
        let ghost length = body@.len();
        proof {
            match wire::builder_state(builder) {
                Ok(head) => {
                    assert(head.fields =~= self@.message_fields(length));
                },
                Err(_) => {},
            }
        }
        match wire::set_body(builder, body) {
            Ok(request) => Ok(request),
            Err(e) => {
                let detail = wire::error_text(&e);
                Err(
                    HttpTransportError::HttpClientError(
                        text::joined("Failed to build HTTP request: ", &detail),
                    ),
                )
            },
        }
    }
}

/// The header names in use, as they are written and in lower case.
proof fn lower_names()
    ensures
        wire::plain_name("Content-Type"@),
        wire::lower("Content-Type"@) == "content-type"@,
        wire::plain_name("Accept"@),
        wire::lower("Accept"@) == "accept"@,
        wire::plain_name("Content-Length"@),
        wire::lower("Content-Length"@) == "content-length"@,
        wire::plain_name("Origin"@),
        wire::lower("Origin"@) == "origin"@,
        wire::plain_name("Mcp-Session-Id"@),
        wire::lower("Mcp-Session-Id"@) == "mcp-session-id"@,
        wire::plain_name("MCP-Protocol-Version"@),
        wire::lower("MCP-Protocol-Version"@) == "mcp-protocol-version"@,
{
    reveal_strlit("Content-Type");
    reveal_strlit("content-type");
    assert(wire::lower("Content-Type"@) =~= "content-type"@);
    reveal_strlit("Accept");
    reveal_strlit("accept");
    assert(wire::lower("Accept"@) =~= "accept"@);
    reveal_strlit("Content-Length");
    reveal_strlit("content-length");
    assert(wire::lower("Content-Length"@) =~= "content-length"@);
    reveal_strlit("Origin");
    reveal_strlit("origin");
    assert(wire::lower("Origin"@) =~= "origin"@);
    reveal_strlit("Mcp-Session-Id");
    reveal_strlit("mcp-session-id");
    assert(wire::lower("Mcp-Session-Id"@) =~= "mcp-session-id"@);
    reveal_strlit("MCP-Protocol-Version");
    reveal_strlit("mcp-protocol-version");
    assert(wire::lower("MCP-Protocol-Version"@) =~= "mcp-protocol-version"@);
}

/// The header names of a message are six different names.
pub(crate) proof fn distinct_names()
    ensures
        "content-type"@ != "accept"@,
        "content-type"@ != "content-length"@,
        "content-type"@ != "origin"@,
        "content-type"@ != "mcp-session-id"@,
        "content-type"@ != "mcp-protocol-version"@,
        "accept"@ != "content-length"@,
        "accept"@ != "origin"@,
        "accept"@ != "mcp-session-id"@,
        "accept"@ != "mcp-protocol-version"@,
        "content-length"@ != "origin"@,
        "content-length"@ != "mcp-session-id"@,
        "content-length"@ != "mcp-protocol-version"@,
        "origin"@ != "mcp-session-id"@,
        "origin"@ != "mcp-protocol-version"@,
        "mcp-session-id"@ != "mcp-protocol-version"@,
{
    reveal_strlit("content-type");
    reveal_strlit("accept");
    reveal_strlit("content-length");
    reveal_strlit("origin");
    reveal_strlit("mcp-session-id");
    reveal_strlit("mcp-protocol-version");
    assert("content-type"@.len() == 12);
    assert("accept"@.len() == 6);
    assert("content-length"@.len() == 14);
    assert("origin"@.len() == 6);
    assert("mcp-session-id"@.len() == 14);
    assert("mcp-protocol-version"@.len() == 20);
    assert("accept"@[0] != "origin"@[0]);
    assert("content-length"@[0] != "mcp-session-id"@[0]);
}

/// The fixed values and the length of a message are acceptable header values.
proof fn plain_values(length: nat)
    ensures
        wire::field_value_ok(encode_utf8("application/json"@)),
        wire::field_value_ok(encode_utf8("application/json, text/event-stream"@)),
        wire::field_value_ok(encode_utf8(text::decimal(length))),
{
    reveal_strlit("application/json");
    wire::printable_is_a_field_value("application/json"@);
    reveal_strlit("application/json, text/event-stream");
    wire::printable_is_a_field_value("application/json, text/event-stream"@);
    text::decimal_is_digits(length);
    wire::printable_is_a_field_value(text::decimal(length));
}

/// Every message is a `POST` to the address that was given, whatever the
/// session, the protocol version and the mode.
pub proof fn message_is_posted_to_its_address(t: TransportState, url: Seq<char>, length: nat)
    ensures
        t.post(url, length) matches Ok(head) ==> {
            &&& head.method == "POST"@
            &&& wire::uri_reading(url) is Ok
            &&& wire::uri_reading(url)->Ok_0 == head.uri
            &&& head.fields == t.message_fields(length)
        },
{
}

/// A message can be posted exactly if its address is one for a request, and the
/// origin, the session and the protocol version hold no control byte. Otherwise
/// the error is that of the address or, if that is in order, that of a header
/// value.
pub proof fn message_is_refused_for_its_texts_only(t: TransportState, url: Seq<char>, length: nat)
    ensures
        t.post(url, length) is Ok <==> {
            &&& wire::uri_reading(url) is Ok
            &&& wire::field_value_ok(encode_utf8(t.config.origin@))
            &&& t.session_id is Some ==> wire::field_value_ok(encode_utf8(t.session_id->0))
            &&& t.protocol_version is Some ==> wire::field_value_ok(
                encode_utf8(t.protocol_version->0),
            )
        },
        wire::uri_reading(url) is Err ==> t.post(url, length) is Err && t.post(url, length)->Err_0
            == wire::uri_reading(url)->Err_0,
        wire::uri_reading(url) is Ok && t.post(url, length) is Err ==> t.post(url, length)->Err_0
            == "failed to parse header value"@,
{
}

/// A request that is built has the head and the whole body that it was built
/// from; where there is an error it says which.
pub proof fn request_is_built_whole(
    head: Result<RequestHead, Seq<char>>,
    body: Seq<u8>,
    r: Result<Request<Vec<u8>>, HttpTransportError>,
)
    requires
        built(head, body, r),
    ensures
        r is Ok <==> head is Ok,
        r matches Ok(q) ==> wire::request_head(q) == head->Ok_0 && wire::request_body(q) == body,
        r matches Err(e) ==> (e matches HttpTransportError::HttpClientError(t) && t@
            == "Failed to build HTTP request: "@ + head->Err_0),
{
}

/// A new transport knows of no session, is in standard mode, and sends messages
/// to the address that it was made with.
pub proof fn new_transport_knows_nothing(base_url: Url, config: HttpTransportConfig)
    ensures
        ({
            let t = TransportState::fresh(base_url, config);
            &&& t.base_url == base_url
            &&& t.config == config
            &&& t.session_id is None
            &&& t.protocol_version is None
            &&& t.mode is Standard
            &&& t.target() == base_url
        }),
{
}

} // verus!
