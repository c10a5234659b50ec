//! The agent channel: enrollment answers, client-certificate serials, agent
//! authentication and heartbeat frames.

use vstd::prelude::*;
use crate::api_error::{ApiError, ErrorKind, is_error};
use crate::ids::{uuid_from_text, parse_id};
use crate::json::{Json, get_spec, ostr, as_i64_spec, as_str_spec};
use crate::request::{header_text, header_text_spec};
use crate::text::{parse_i64, parse_i64_spec, str_eq, push_char, lower, trim, all_digits, digits_value, radix_text, trim_str, to_ascii_lowercase, is_all_digits, parse_u128, radix_string, digit_char};

verus! {

/// Request body for agent enrollment.
#[derive(Debug)]
pub struct EnrollRequest {
    /// One-time token minted by an admin.
    pub enrollment_token: String,
    /// PEM-encoded PKCS#10 certificate signing request.
    pub csr_pem: String,
}

/// Successful enrollment: the signed client certificate and trust anchor.
#[derive(Debug)]
pub struct EnrollResponse {
    pub server_id: String,
    pub server_name: String,
    /// Signed client certificate (PEM).
    pub certificate_pem: String,
    /// The portal CA certificate to pin (PEM).
    pub ca_certificate_pem: String,
    pub expires_at: String,
    /// Server-scoped demo-upload token, shown once.
    pub demo_token: String,
    /// Absolute URL MatchZy should upload demos to.
    pub demo_upload_url: String,
}

/// Request body for certificate renewal.
#[derive(Debug)]
pub struct RenewRequest {
    /// Fresh PEM-encoded CSR.
    pub csr_pem: String,
}

/// Renewal response: the re-signed certificate.
#[derive(Debug)]
pub struct RenewResponse {
    pub certificate_pem: String,
    pub expires_at: String,
}

/// The stored form of a forwarded client-certificate serial: the trimmed,
/// lowered text; when that is a decimal number that fits in a `u128`, its
/// hexadecimal digits, padded with one `0` to an even length.
pub open spec fn normalized_serial(raw: Seq<char>) -> Seq<char> {
    let s = lower(trim(raw));
    if s.len() > 0 && all_digits(s) && digits_value(s) <= u128::MAX {
        let h = radix_text(digits_value(s), 16);
        if h.len() % 2 == 1 { seq!['0'] + h } else { h }
    } else {
        s
    }
}

/// Normalize a forwarded client-cert serial to the stored format: the proxy
/// forwards decimal, enrollment stores even-length lowercase hex. An
/// all-digit value that fits in a `u128` is converted; anything else is
/// treated as hex and lowercased.
pub fn normalize_serial(raw: &str) -> (r: String)
    ensures
        r@ == normalized_serial(raw@),
{
    let t = trim_str(raw);
    let s = to_ascii_lowercase(t.as_str());
    let n = s.as_str().unicode_len();
    if n > 0 && is_all_digits(s.as_str()) {
        proof {
            let v = s@;
            assert(v.len() > 0 && v[0] != '-' && v[0] != '+');
        }
        match parse_u128(s.as_str()) {
            Some(v) => {
                let hex = radix_string(v, 16);
                let len = hex.as_str().unicode_len();
                if len % 2 == 1 {
                    let mut out = String::new();
                    push_char(&mut out, '0');
                    out.append(hex.as_str());
                    return out;
                }
                return hex;
            }
            None => {}
        }
    }
    s
}

/// A lowercase hexadecimal digit.
pub open spec fn is_hex_digit(c: char) -> bool {
    ('0' <= c && c <= '9') || ('a' <= c && c <= 'f')
}

proof fn lemma_hex_digits(n: nat)
    ensures
        forall|i: int| 0 <= i < radix_text(n, 16).len() ==> is_hex_digit(#[trigger] radix_text(n, 16)[i]),
    decreases n,
{
    if n >= 16 {
        lemma_hex_digits(n / 16);
        let init = radix_text(n / 16, 16);
        let d = (n % 16) as nat;
        assert(radix_text(n, 16) == init.push(digit_char(d)));
        assert(is_hex_digit(digit_char(d)));
        assert forall|i: int| 0 <= i < radix_text(n, 16).len() implies is_hex_digit(#[trigger] radix_text(n, 16)[i]) by {
            if i < init.len() {
                assert(radix_text(n, 16)[i] == init[i]);
            }
        }
    } else {
        assert(is_hex_digit(digit_char(n)));
    }
}

/// A serial forwarded in decimal is stored as lowercase hexadecimal of
/// even length, as enrollment stores it.
pub proof fn decimal_serial_is_even_hex(raw: Seq<char>)
    requires
        lower(trim(raw)).len() > 0,
        all_digits(lower(trim(raw))),
        digits_value(lower(trim(raw))) <= u128::MAX,
    ensures
        normalized_serial(raw).len() % 2 == 0,
        forall|i: int| 0 <= i < normalized_serial(raw).len() ==> is_hex_digit(#[trigger] normalized_serial(raw)[i]),
{
    let h = radix_text(digits_value(lower(trim(raw))), 16);
    lemma_hex_digits(digits_value(lower(trim(raw))));
    if h.len() % 2 == 1 {
        let r = seq!['0'] + h;
        assert forall|i: int| 0 <= i < r.len() implies is_hex_digit(#[trigger] r[i]) by {
            if i > 0 {
                assert(r[i] == h[i - 1]);
            }
        }
    }
}

/// `s` without trailing `/` characters (`trim_end_matches('/')`).
pub open spec fn trim_slashes(s: Seq<char>) -> Seq<char>
    decreases s.len(),
{
    if s.len() > 0 && s.last() == '/' {
        trim_slashes(s.drop_last())
    } else {
        s
    }
}

/// The absolute URL MatchZy uploads demos to, below the public base URL.
pub fn demo_upload_url(public_base_url: &str) -> (r: String)
    ensures
        r@ == trim_slashes(public_base_url@) + "/v1/gameserver/demos"@,
{
    let n = public_base_url.unicode_len();
    let mut j: usize = n;
    assert(public_base_url@.subrange(0, n as int) =~= public_base_url@);
    while j > 0 && public_base_url.get_char(j - 1) == '/'
        invariant
            n == public_base_url@.len(),
            0 <= j <= n,
            trim_slashes(public_base_url@) == trim_slashes(public_base_url@.subrange(0, j as int)),
        decreases j,
    {
        assert(public_base_url@.subrange(0, j as int).drop_last() =~= public_base_url@.subrange(0, j - 1));
        j -= 1;
    }
    let mut out = String::from_str(public_base_url.substring_char(0, j));
    out.append("/v1/gameserver/demos");
    out
}

/// Who an agent connection claims to be.
#[derive(Debug)]
pub enum AgentIdentity {
    /// The proxy-verified client-certificate serial, normalized.
    Serial(String),
    /// The dev-mode server id header.
    DevServer(u128),
}

/// How an agent is identified: the client-certificate serial when the
/// agents vhost marker (`1`) accompanies it; otherwise, in insecure dev mode,
/// the dev server-id header; otherwise the caller is unauthorized.
pub open spec fn identity_spec(
    vhost: Option<Seq<u8>>,
    serial: Option<Seq<u8>>,
    insecure_dev_auth: bool,
    dev_id: Option<Seq<u8>>,
) -> Result<Seq<char>, Result<u128, (ErrorKind, Seq<char>)>> {
    let via_vhost = vhost matches Some(v) && header_text_spec(v) == Some("1"@);
    let serial_text = match serial { Some(v) => header_text_spec(v), None => None };
    let dev_text = match dev_id { Some(v) => header_text_spec(v), None => None };
    if via_vhost && serial_text is Some {
        Ok(normalized_serial(serial_text->0))
    } else if insecure_dev_auth && dev_text is Some {
        match uuid_from_text(dev_text->0) {
            Some(id) => Err(Ok(id)),
            None => Err(Err((ErrorKind::BadRequest, "invalid dev server id"@))),
        }
    } else {
        Err(Err((ErrorKind::Unauthorized, "agent authentication requires a verified client certificate"@)))
    }
}

fn opt_bytes(h: Option<&[u8]>) -> (r: Option<String>)
    ensures
        match h {
            Some(v) => match header_text_spec(v@) {
                Some(t) => r matches Some(s) && s@ == t,
                None => r is None,
            },
            None => r is None,
        },
{
    match h {
        Some(v) => header_text(v),
        None => None,
    }
}

/// Resolve the calling agent's identity from the proxy's headers
/// (`x-portal-agent-vhost`, `x-client-cert-serial`) or, in insecure dev
/// mode, from `x-dev-server-id`.
pub fn agent_identity(
    vhost: Option<&[u8]>,
    serial: Option<&[u8]>,
    insecure_dev_auth: bool,
    dev_id: Option<&[u8]>,
) -> (r: Result<AgentIdentity, ApiError>)
    ensures
        match identity_spec(
            match vhost { Some(v) => Some(v@), None => None },
            match serial { Some(v) => Some(v@), None => None },
            insecure_dev_auth,
            match dev_id { Some(v) => Some(v@), None => None },
        ) {
            Ok(s) => r matches Ok(AgentIdentity::Serial(x)) && x@ == s,
            Err(Ok(id)) => r matches Ok(AgentIdentity::DevServer(x)) && x == id,
            Err(Err((k, m))) => r matches Err(e) && is_error(e, k, m),
        },
{
    let v = opt_bytes(vhost);
    let via_vhost = match &v {
        Some(t) => str_eq(t.as_str(), "1"),
        None => false,
    };
    if via_vhost {
        match opt_bytes(serial) {
            Some(s) => return Ok(AgentIdentity::Serial(normalize_serial(s.as_str()))),
            None => {}
        }
    }
    if insecure_dev_auth {
        match opt_bytes(dev_id) {
            Some(raw) => {
                return match parse_id(raw.as_str(), "invalid dev server id") {
                    Ok(id) => Ok(AgentIdentity::DevServer(id)),
                    Err(e) => Err(e),
                };
            }
            None => {}
        }
    }
    Err(ApiError::from_str(ErrorKind::Unauthorized, "agent authentication requires a verified client certificate"))
}

/// A MatchZy match id as JSON carries it: an integer, or a string holding one.
pub open spec fn match_id_of(v: Option<Json>) -> Option<i64> {
    match v {
        Some(m) => match as_i64_spec(m) {
            Some(i) => Some(i),
            None => match as_str_spec(m) {
                Some(t) => parse_i64_spec(t),
                None => None,
            },
        },
        None => None,
    }
}

/// The match id a JSON value carries (`as_i64`, else a numeric string).
pub fn json_match_id(v: Option<&Json>) -> (r: Option<i64>)
    ensures
        r == match_id_of(match v { Some(x) => Some(*x), None => None }),
{
    match v {
        Some(m) => match m.as_i64() {
            Some(i) => Some(i),
            None => match m.as_str() {
                Some(t) => parse_i64(t),
                None => None,
            },
        },
        None => None,
    }
}

/// The heartbeat frame an agent sends.
#[derive(Debug)]
pub struct HeartbeatFrame {
    pub frame_type: String,
    pub agent_version: Option<String>,
    pub rcon_ok: Option<bool>,
    /// MatchZy's `get5_status` object.
    pub get5_status: Option<Json>,
    /// CS2's `status` output (agent 0.2.0+).
    pub status_output: Option<String>,
}

/// What a heartbeat reports, before the CS2 `status` text is parsed.
#[derive(Debug)]
pub struct HeartbeatReading {
    /// The `gamestate` text of `get5_status`.
    pub gamestate: Option<String>,
    /// The `matchid` of `get5_status`.
    pub reported_matchzy_id: Option<i64>,
}

/// Only frames of type `heartbeat` are processed; others are ignored.
pub fn is_heartbeat(frame: &HeartbeatFrame) -> (r: bool)
    ensures
        r == (frame.frame_type@ == "heartbeat"@),
{
    str_eq(frame.frame_type.as_str(), "heartbeat")
}

/// The gamestate and match id a heartbeat's `get5_status` carries.
pub fn read_heartbeat(frame: &HeartbeatFrame) -> (r: HeartbeatReading)
    ensures
        match frame.get5_status {
            Some(g) => (match ostr(get_spec(g, "gamestate"@)) {
                    Some(t) => r.gamestate matches Some(s) && s@ == t,
                    None => r.gamestate is None,
                })
                && r.reported_matchzy_id == match_id_of(get_spec(g, "matchid"@)),
            None => r.gamestate is None && r.reported_matchzy_id is None,
        },
{
    match &frame.get5_status {
        Some(g) => {
            let gamestate = match g.get("gamestate") {
                Some(v) => match v.as_str() {
                    Some(t) => Some(String::from_str(t)),
                    None => None,
                },
                None => None,
            };
            let id = json_match_id(g.get("matchid"));
            HeartbeatReading { gamestate, reported_matchzy_id: id }
        }
        None => HeartbeatReading { gamestate: None, reported_matchzy_id: None },
    }
}

/// The stored player count: the parsed count, saturated at `i32::MAX`.
pub fn stored_player_count(count: usize) -> (r: i32)
    ensures
        r == (if count <= i32::MAX { count as i32 } else { i32::MAX }),
{
    if count <= 2147483647usize { count as i32 } else { i32::MAX }
}

/// The live-reservation lookup as the heartbeat sees it.
#[derive(Debug, Clone, Copy)]
pub enum LiveReservationLookup {
    /// A live reservation with this MatchZy id.
    Found(i64),
    NotFound,
    /// The lookup failed.
    Failed,
}

/// A loaded match is ours when a live reservation exists and the reported
/// match id equals its id or is unreported; a failed lookup is assumed ours.
pub fn heartbeat_is_ours(lookup: LiveReservationLookup, reported: Option<i64>) -> (r: bool)
    ensures
        r == match lookup {
            LiveReservationLookup::Found(id) => reported is None || reported == Some(id),
            LiveReservationLookup::NotFound => false,
            LiveReservationLookup::Failed => true,
        },
{
    match lookup {
        LiveReservationLookup::Found(id) => match reported {
            None => true,
            Some(x) => x == id,
        },
        LiveReservationLookup::NotFound => false,
        LiveReservationLookup::Failed => true,
    }
}

/// An event on an agent's socket.
#[derive(Debug, Clone)]
pub enum AgentSocketEvent {
    /// A frame the portal queued for the agent; `None` when the connection
    /// was replaced or dropped (a reconnect or a revocation).
    Outbound(Option<String>),
    /// A text frame from the agent: a heartbeat or a command result.
    IncomingText(String),
    /// A ping, pong or binary frame.
    IncomingControl,
    /// A close frame, a receive error, or the end of the stream.
    IncomingEnd,
}

/// What the agent socket does.
#[derive(Debug, Clone, PartialEq, Eq)]
pub enum AgentSocketAction {
    /// Send this frame to the agent.
    Send(String),
    /// Hand the agent's frame to the message handler.
    Handle(String),
    Ignore,
    Close,
}

/// The action for an agent socket event: queued frames go out, the agent's
/// text frames are handled, control frames ignored; the socket closes when
/// the connection was superseded or the agent went away.
pub fn on_agent_socket_event(ev: AgentSocketEvent) -> (r: AgentSocketAction)
    ensures
        r == match ev {
            AgentSocketEvent::Outbound(Some(t)) => AgentSocketAction::Send(t),
            AgentSocketEvent::Outbound(None) => AgentSocketAction::Close,
            AgentSocketEvent::IncomingText(t) => AgentSocketAction::Handle(t),
            AgentSocketEvent::IncomingControl => AgentSocketAction::Ignore,
            AgentSocketEvent::IncomingEnd => AgentSocketAction::Close,
        },
{
    match ev {
        AgentSocketEvent::Outbound(Some(t)) => AgentSocketAction::Send(t),
        AgentSocketEvent::Outbound(None) => AgentSocketAction::Close,
        AgentSocketEvent::IncomingText(t) => AgentSocketAction::Handle(t),
        AgentSocketEvent::IncomingControl => AgentSocketAction::Ignore,
        AgentSocketEvent::IncomingEnd => AgentSocketAction::Close,
    }
}

/// Whether a closed socket marks its server offline: only when no newer
/// connection of the same server took over, so a reconnecting agent is not
/// marked offline by its old socket.
pub fn mark_offline_on_close(still_connected: bool) -> (r: bool)
    ensures
        r == !still_connected,
{
    !still_connected
}

} // verus!
