//! The PUG lobby socket: the in-band authentication handshake and what the
//! connection does with each event once it is live. The server only pushes
//! doorbells; mutations stay on the REST endpoints.

use vstd::prelude::*;
use crate::ids::uuid_from_text;
use crate::text::str_eq;

verus! {

/// Seconds the first (auth) frame may take.
pub const AUTH_TIMEOUT_SECS: u64 = 10;

/// Seconds between keep-alive pings.
pub const PING_INTERVAL_SECS: u64 = 30;

/// A frame the server sends over the lobby socket.
#[derive(Debug, Clone)]
pub enum LobbyFrame {
    /// `{"type":"auth_error","error":..}`: the handshake failed.
    AuthError(String),
    /// `{"type":"auth_success","pug_id":..}` with the id as the client sent it.
    AuthSuccess(String),
    /// `{"type":"pug_changed","reason":"resync"}` after missed broadcasts.
    Resync,
    /// `{"type":"pong"}`.
    Pong,
    /// A broadcast lobby event, already serialized.
    Event(String),
}

/// `f` is an auth error with the text `m`.
pub open spec fn is_auth_error(f: LobbyFrame, m: Seq<char>) -> bool {
    f matches LobbyFrame::AuthError(t) && t@ == m
}

/// The lobby id of the socket path; an auth error `invalid pug id` (after
/// which the socket closes) when it is no UUID.
pub fn socket_pug_id(raw: &str) -> (r: Result<u128, LobbyFrame>)
    ensures
        match uuid_from_text(raw@) {
            Some(id) => r == Ok::<u128, LobbyFrame>(id),
            None => r matches Err(f) && is_auth_error(f, "invalid pug id"@),
        },
{
    match crate::ids::parse_pug_id(raw) {
        Ok(id) => Ok(id),
        Err(_) => Err(LobbyFrame::AuthError(String::from_str("invalid pug id"))),
    }
}

/// The first client frame, as it parsed.
#[derive(Debug, Clone)]
pub struct AuthFrame {
    /// The `type` member.
    pub kind: String,
    pub token: String,
    /// Invite code of a share-link viewer who has not joined.
    pub code: Option<String>,
}

/// What arrived first on the socket.
#[derive(Debug, Clone)]
pub enum FirstFrame {
    /// Nothing in time, a close, an error or a non-text frame.
    NoText,
    /// A text frame, with its auth frame when it parsed as one.
    Text(Option<AuthFrame>),
}

/// Checks the first frame: it must be a text frame, in time, that parses as
/// an auth frame of type `auth`.
pub fn check_first_frame(first: FirstFrame) -> (r: Result<AuthFrame, LobbyFrame>)
    ensures
        match first {
            FirstFrame::NoText => r matches Err(f) && is_auth_error(f, "authentication timeout"@),
            FirstFrame::Text(None) => r matches Err(f) && is_auth_error(f, "first message must be auth"@),
            FirstFrame::Text(Some(a)) => if a.kind@ == "auth"@ {
                r matches Ok(b) && b == a
            } else {
                r matches Err(f) && is_auth_error(f, "first message must be auth"@)
            },
        },
{
    match first {
        FirstFrame::NoText => Err(LobbyFrame::AuthError(String::from_str("authentication timeout"))),
        FirstFrame::Text(None) => Err(LobbyFrame::AuthError(String::from_str("first message must be auth"))),
        FirstFrame::Text(Some(a)) => {
            if str_eq(a.kind.as_str(), "auth") {
                Ok(a)
            } else {
                Err(LobbyFrame::AuthError(String::from_str("first message must be auth")))
            }
        }
    }
}

/// The refusal reason for a token that did not validate.
pub fn invalid_token_reason(error: &str) -> (r: String)
    ensures
        r@ == "invalid token: "@ + error@,
{
    let mut m = String::from_str("invalid token: ");
    m.append(error);
    m
}

/// The answer to the handshake once the viewer's authorization was
/// checked: the refusal reason, or success naming the lobby as the client
/// wrote its id. Only a success keeps the socket open.
pub fn handshake_answer(authorized: Result<(), String>, raw_pug_id: &str) -> (r: (LobbyFrame, bool))
    ensures
        match authorized {
            Ok(_) => r.0 matches LobbyFrame::AuthSuccess(id) && id@ == raw_pug_id@ && r.1,
            Err(reason) => is_auth_error(r.0, reason@) && !r.1,
        },
{
    match authorized {
        Ok(_) => (LobbyFrame::AuthSuccess(String::from_str(raw_pug_id)), true),
        Err(reason) => (LobbyFrame::AuthError(reason), false),
    }
}

/// An event on a live lobby socket.
#[derive(Debug, Clone)]
pub enum LiveEvent {
    /// A lobby broadcast; its JSON text, `None` when it did not serialize.
    Broadcast(Option<String>),
    /// The subscription lagged and frames were lost.
    Lagged,
    /// The broadcast channel closed.
    BroadcastClosed,
    /// A text frame from the client.
    IncomingText(String),
    /// A close frame, or the end of the stream.
    IncomingClose,
    /// A receive error.
    IncomingError,
    /// Some other client frame (binary, ping, pong).
    IncomingOther,
    /// The keep-alive interval elapsed.
    PingTick,
}

/// What the live socket does.
#[derive(Debug, Clone)]
pub enum LiveAction {
    Send(LobbyFrame),
    /// Send a protocol ping.
    SendPing,
    Ignore,
    Close,
}

/// `p` occurs in `s` at `i`.
pub open spec fn occurs_at(s: Seq<char>, p: Seq<char>, i: int) -> bool {
    0 <= i && i + p.len() <= s.len() && s.subrange(i, i + p.len()) == p
}

/// `p` occurs somewhere in `s`.
pub open spec fn contains_text(s: Seq<char>, p: Seq<char>) -> bool {
    exists|i: int| occurs_at(s, p, i)
}

/// Whether `p` occurs in `s` (`str::contains`).
pub fn text_contains(s: &str, p: &str) -> (r: bool)
    ensures
        r == contains_text(s@, p@),
{
    let n = s.unicode_len();
    let m = p.unicode_len();
    if m > n {
        assert forall|i: int| !occurs_at(s@, p@, i) by {}
        return false;
    }
    let mut i: usize = 0;
    while i <= n - m
        invariant
            n == s@.len(),
            m == p@.len(),
            m <= n,
            0 <= i <= n - m + 1,
            forall|k: int| 0 <= k < i ==> !occurs_at(s@, p@, k),
        decreases n - m + 1 - i,
    {
        let mut j: usize = 0;
        while j < m && s.get_char(i + j) == p.get_char(j)
            invariant
                n == s@.len(),
                m == p@.len(),
                i + m <= n,
                0 <= j <= m,
                forall|t: int| 0 <= t < j ==> s@[i + t] == p@[t],
            decreases m - j,
        {
            j += 1;
        }
        if j == m {
            assert(s@.subrange(i as int, i + m) =~= p@);
            assert(occurs_at(s@, p@, i as int));
            return true;
        }
        assert(s@.subrange(i as int, i + m)[j as int] != p@[j as int]);
        i += 1;
    }
    assert forall|k: int| !occurs_at(s@, p@, k) by {
        if 0 <= k && k + m <= n {
            assert(k < i);
        }
    }
    false
}

/// The action for an event, when sending never fails: broadcasts go out
/// (one that did not serialize is skipped), a lag is answered by one resync
/// doorbell, a client text mentioning `"ping"` by a pong and any other by
/// nothing, the tick by a ping; the socket closes when the broadcasts end
/// or the client goes away.
pub open spec fn live_action_spec(ev: LiveEvent) -> LiveAction {
    match ev {
        LiveEvent::Broadcast(Some(t)) => LiveAction::Send(LobbyFrame::Event(t)),
        LiveEvent::Broadcast(None) => LiveAction::Ignore,
        LiveEvent::Lagged => LiveAction::Send(LobbyFrame::Resync),
        LiveEvent::BroadcastClosed => LiveAction::Close,
        LiveEvent::IncomingText(t) => if contains_text(t@, "\"ping\""@) {
            LiveAction::Send(LobbyFrame::Pong)
        } else {
            LiveAction::Ignore
        },
        LiveEvent::IncomingClose => LiveAction::Close,
        LiveEvent::IncomingError => LiveAction::Close,
        LiveEvent::IncomingOther => LiveAction::Ignore,
        LiveEvent::PingTick => LiveAction::SendPing,
    }
}

/// Decides what the live socket does with an event.
pub fn on_live_event(ev: LiveEvent) -> (r: LiveAction)
    ensures
        r == live_action_spec(ev),
{
    match ev {
        LiveEvent::Broadcast(Some(t)) => LiveAction::Send(LobbyFrame::Event(t)),
        LiveEvent::Broadcast(None) => LiveAction::Ignore,
        LiveEvent::Lagged => LiveAction::Send(LobbyFrame::Resync),
        LiveEvent::BroadcastClosed => LiveAction::Close,
        LiveEvent::IncomingText(t) => {
            if text_contains(t.as_str(), "\"ping\"") {
                LiveAction::Send(LobbyFrame::Pong)
            } else {
                LiveAction::Ignore
            }
        }
        LiveEvent::IncomingClose => LiveAction::Close,
        LiveEvent::IncomingError => LiveAction::Close,
        LiveEvent::IncomingOther => LiveAction::Ignore,
        LiveEvent::PingTick => LiveAction::SendPing,
    }
}

/// Whether the socket stays open after a send: a failed send closes it.
pub fn open_after_send(sent: bool) -> (r: bool)
    ensures
        r == sent,
{
    sent
}

/// The client never changes the lobby through the socket: its frames are
/// answered with at most a pong, and only its close or an error ends the
/// connection from its side.
pub proof fn client_frames_only_ping(ev: LiveEvent)
    requires
        ev is IncomingText || ev is IncomingClose || ev is IncomingError || ev is IncomingOther,
    ensures
        live_action_spec(ev) is Send ==> live_action_spec(ev) == LiveAction::Send(LobbyFrame::Pong),
        live_action_spec(ev) is Close <==> (ev is IncomingClose || ev is IncomingError),
        !(live_action_spec(ev) is SendPing),
{
}

} // verus!
