//! The CS2 server console: the action table, map changes, live `status`
//! fetches, command transcripts and the holds the console places.

use vstd::prelude::*;
use crate::api_error::{ApiError, ErrorKind, is_error};
use crate::clock::{Instant, before, plus, is_before, add_seconds};
use crate::ids::{uuid_text, uuid_string};
use crate::text::{trim, trim_str, starts_with, str_starts_with, second_word, second_word_of,
    decimal_text, decimal_string};

verus! {

/// Hours a practice hold lasts when no end is given.
pub const PRACTICE_DEFAULT_HOURS: i64 = 2;
/// Longest practice hold, in hours.
pub const PRACTICE_MAX_HOURS: i64 = 12;
/// Minutes a stock-map change holds the server off the allocator.
pub const MAP_HOLD_MINUTES: i64 = 5;
/// Minutes a workshop-map change holds the server off the allocator.
pub const WORKSHOP_HOLD_MINUTES: i64 = 10;
/// Longest broadcast message, in characters.
pub const BROADCAST_MAX_CHARS: usize = 200;

/// The console's action table.
#[derive(Debug, Clone, Copy, PartialEq, Eq, Structural)]
pub enum ConsoleAction {
    Pause,
    Unpause,
    ForceStart,
    /// Confirm-gated. Cancels the live reservation when there is one.
    EndMatch,
    RestartWarmup,
    KickBots,
    /// `say` a message; needs `args.message`.
    Broadcast,
    /// Confirm-gated; needs `args.userid`, takes `args.reason`.
    KickPlayer,
    /// Places a hard hold until `args.until` (default two hours).
    PracticeStart,
    /// Removes the practice hold.
    PracticeStop,
}

/// The wire name of an action.
pub open spec fn action_name(a: ConsoleAction) -> Seq<char> {
    match a {
        ConsoleAction::Pause => "pause"@,
        ConsoleAction::Unpause => "unpause"@,
        ConsoleAction::ForceStart => "force_start"@,
        ConsoleAction::EndMatch => "end_match"@,
        ConsoleAction::RestartWarmup => "restart_warmup"@,
        ConsoleAction::KickBots => "kick_bots"@,
        ConsoleAction::Broadcast => "broadcast"@,
        ConsoleAction::KickPlayer => "kick_player"@,
        ConsoleAction::PracticeStart => "practice_start"@,
        ConsoleAction::PracticeStop => "practice_stop"@,
    }
}

impl ConsoleAction {
    /// The wire name of the action.
    pub fn name(self) -> (r: &'static str)
        ensures
            r@ == action_name(self),
    {
        match self {
            ConsoleAction::Pause => "pause",
            ConsoleAction::Unpause => "unpause",
            ConsoleAction::ForceStart => "force_start",
            ConsoleAction::EndMatch => "end_match",
            ConsoleAction::RestartWarmup => "restart_warmup",
            ConsoleAction::KickBots => "kick_bots",
            ConsoleAction::Broadcast => "broadcast",
            ConsoleAction::KickPlayer => "kick_player",
            ConsoleAction::PracticeStart => "practice_start",
            ConsoleAction::PracticeStop => "practice_stop",
        }
    }

    /// Whether the action is refused without `confirm: true`.
    pub fn needs_confirm(self) -> (r: bool)
        ensures
            r == (self == ConsoleAction::EndMatch || self == ConsoleAction::KickPlayer),
    {
        match self {
            ConsoleAction::EndMatch | ConsoleAction::KickPlayer => true,
            _ => false,
        }
    }
}

/// Arguments for the actions that take any.
#[derive(Debug)]
pub struct ConsoleActionArgs {
    pub message: Option<String>,
    pub userid: Option<u32>,
    pub reason: Option<String>,
    /// End of a practice hold.
    pub until: Option<Instant>,
}

/// The console lines an action will send and the hold it will place.
#[derive(Debug)]
pub struct ActionPlan {
    pub commands: Vec<String>,
    pub hold_until: Option<Instant>,
}

/// The texts of a list of strings.
pub open spec fn texts(v: Seq<String>) -> Seq<Seq<char>> {
    v.map_values(|s: String| s@)
}

/// The trimmed text of an optional argument, when it is not blank.
pub open spec fn nonblank(arg: Option<String>) -> Option<Seq<char>> {
    match arg {
        Some(m) => if trim(m@).len() > 0 { Some(trim(m@)) } else { None },
        None => None,
    }
}

/// The text an action hands to console quoting, when it needs one: the
/// broadcast message or the kick reason (default `Kicked by an admin`).
pub open spec fn quote_input(action: ConsoleAction, args: ConsoleActionArgs) -> Option<Seq<char>> {
    match action {
        ConsoleAction::Broadcast => nonblank(args.message),
        ConsoleAction::KickPlayer => match nonblank(args.reason) {
            Some(r) => Some(r),
            None => Some("Kicked by an admin"@),
        },
        _ => None,
    }
}

/// The argument checks that come before any quoting, in the handler's
/// order: confirmation, then the action's own argument rules.
pub open spec fn argument_error(action: ConsoleAction, confirm: bool, args: ConsoleActionArgs) -> Option<(ErrorKind, Seq<char>)> {
    if (action == ConsoleAction::EndMatch || action == ConsoleAction::KickPlayer) && !confirm {
        Some((ErrorKind::BadRequest, action_name(action) + " needs confirm: true"@))
    } else if action == ConsoleAction::Broadcast && nonblank(args.message) is None {
        Some((ErrorKind::BadRequest, "broadcast needs args.message"@))
    } else if action == ConsoleAction::Broadcast && nonblank(args.message)->0.len() > 200 {
        Some((ErrorKind::BadRequest, "message must be at most 200 characters"@))
    } else if action == ConsoleAction::KickPlayer && args.userid is None {
        Some((ErrorKind::BadRequest, "kick_player needs args.userid"@))
    } else {
        None
    }
}

/// The text to quote for an action, after its argument checks.
pub fn action_quote_input(action: ConsoleAction, confirm: bool, args: &ConsoleActionArgs) -> (r: Result<Option<String>, ApiError>)
    ensures
        match argument_error(action, confirm, *args) {
            Some((k, m)) => r matches Err(e) && is_error(e, k, m),
            None => match quote_input(action, *args) {
                Some(t) => r matches Ok(Some(s)) && s@ == t,
                None => r matches Ok(None),
            },
        },
{
    if action.needs_confirm() && !confirm {
        let mut m = String::from_str(action.name());
        m.append(" needs confirm: true");
        return Err(ApiError::new(ErrorKind::BadRequest, m));
    }
    match action {
        ConsoleAction::Broadcast => {
            let t = match &args.message {
                Some(m) => trim_str(m.as_str()),
                None => String::new(),
            };
            if t.as_str().unicode_len() == 0 {
                return Err(ApiError::from_str(ErrorKind::BadRequest, "broadcast needs args.message"));
            }
            if t.as_str().unicode_len() > BROADCAST_MAX_CHARS {
                return Err(ApiError::from_str(ErrorKind::BadRequest, "message must be at most 200 characters"));
            }
            Ok(Some(t))
        }
        ConsoleAction::KickPlayer => {
            if args.userid.is_none() {
                return Err(ApiError::from_str(ErrorKind::BadRequest, "kick_player needs args.userid"));
            }
            let t = match &args.reason {
                Some(m) => trim_str(m.as_str()),
                None => String::new(),
            };
            if t.as_str().unicode_len() == 0 {
                Ok(Some(String::from_str("Kicked by an admin")))
            } else {
                Ok(Some(t))
            }
        }
        _ => Ok(None),
    }
}

/// The commands and hold of an action whose arguments passed their checks.
/// `quoted` is what console quoting made of `quote_input` (present exactly
/// when the action needs it); `gamestate_idle` is whether the last reported
/// MatchZy gamestate is idle (absent when none was reported).
pub open spec fn plan_spec(
    action: ConsoleAction,
    args: ConsoleActionArgs,
    gamestate_idle: Option<bool>,
    quoted: Option<Result<String, String>>,
    now: Instant,
) -> Result<(Seq<Seq<char>>, Option<Instant>), (ErrorKind, Seq<char>)> {
    match action {
        ConsoleAction::Pause => Ok((seq!["css_forcepause"@], None)),
        ConsoleAction::Unpause => Ok((seq!["css_forceunpause"@], None)),
        ConsoleAction::ForceStart => Ok((seq!["css_start"@], None)),
        ConsoleAction::KickBots => Ok((seq!["bot_kick"@], None)),
        ConsoleAction::EndMatch => Ok((seq![], None)),
        ConsoleAction::RestartWarmup => if gamestate_idle == Some(false) {
            Ok((seq!["css_restart"@], None))
        } else {
            Ok((seq!["mp_warmup_start"@, "mp_restartgame 1"@], None))
        },
        ConsoleAction::Broadcast => match quoted {
            Some(Ok(q)) => Ok((seq!["say "@ + q@], None)),
            Some(Err(e)) => Err((ErrorKind::BadRequest, e@)),
            None => Err((ErrorKind::Internal, seq![])),
        },
        ConsoleAction::KickPlayer => match quoted {
            Some(Ok(q)) => Ok((seq!["kickid "@ + decimal_text(args.userid->0 as int) + " "@ + q@], None)),
            Some(Err(e)) => Err((ErrorKind::BadRequest, e@)),
            None => Err((ErrorKind::Internal, seq![])),
        },
        ConsoleAction::PracticeStart => {
            let until = match args.until {
                Some(u) => u,
                None => plus(now, 7200int),
            };
            if !before(now, until) {
                Err((ErrorKind::BadRequest, "args.until must be in the future"@))
            } else if before(plus(now, 43200int), until) {
                Err((ErrorKind::BadRequest, "a practice hold can last at most 12 hours"@))
            } else {
                Ok((seq!["matchzy_kick_when_no_match_loaded false"@, "css_prac"@], Some(until)))
            }
        },
        ConsoleAction::PracticeStop => Ok((seq!["css_exitprac"@, "matchzy_kick_when_no_match_loaded true"@], None)),
    }
}

fn one(a: &str) -> (r: Vec<String>)
    ensures
        texts(r@) == seq![a@],
{
    let mut v: Vec<String> = Vec::new();
    v.push(String::from_str(a));
    assert(texts(v@) =~= seq![a@]);
    v
}

fn two(a: &str, b: &str) -> (r: Vec<String>)
    ensures
        texts(r@) == seq![a@, b@],
{
    let mut v: Vec<String> = Vec::new();
    v.push(String::from_str(a));
    v.push(String::from_str(b));
    assert(texts(v@) =~= seq![a@, b@]);
    v
}

/// Build the plan of an action before anything is touched, so a bad
/// argument costs nothing.
pub fn plan_console_action(
    action: ConsoleAction,
    args: &ConsoleActionArgs,
    gamestate_idle: Option<bool>,
    quoted: Option<Result<String, String>>,
    now: Instant,
) -> (r: Result<ActionPlan, ApiError>)
    requires
        quote_input(action, *args) is Some ==> quoted is Some,
        action == ConsoleAction::KickPlayer ==> args.userid is Some,
        now.secs <= i64::MAX - 12 * 3600,
    ensures
        match plan_spec(action, *args, gamestate_idle, quoted, now) {
            Ok((cmds, hold)) => r matches Ok(p) && texts(p.commands@) == cmds && p.hold_until == hold,
            Err((k, m)) => r matches Err(e) && is_error(e, k, m),
        },
{
    match action {
        ConsoleAction::Pause => Ok(ActionPlan { commands: one("css_forcepause"), hold_until: None }),
        ConsoleAction::Unpause => Ok(ActionPlan { commands: one("css_forceunpause"), hold_until: None }),
        ConsoleAction::ForceStart => Ok(ActionPlan { commands: one("css_start"), hold_until: None }),
        ConsoleAction::KickBots => Ok(ActionPlan { commands: one("bot_kick"), hold_until: None }),
        ConsoleAction::EndMatch => {
            let v: Vec<String> = Vec::new();
            assert(texts(v@) =~= Seq::<Seq<char>>::empty());
            Ok(ActionPlan { commands: v, hold_until: None })
        }
        ConsoleAction::RestartWarmup => {
            let loaded = match gamestate_idle {
                Some(idle) => !idle,
                None => false,
            };
            if loaded {
                Ok(ActionPlan { commands: one("css_restart"), hold_until: None })
            } else {
                Ok(ActionPlan { commands: two("mp_warmup_start", "mp_restartgame 1"), hold_until: None })
            }
        }
        ConsoleAction::Broadcast => match quoted {
            Some(Ok(q)) => {
                let mut c = String::from_str("say ");
                c.append(q.as_str());
                let mut v: Vec<String> = Vec::new();
                v.push(c);
                assert(texts(v@) =~= seq![c@]);
                Ok(ActionPlan { commands: v, hold_until: None })
            }
            Some(Err(e)) => Err(ApiError::new(ErrorKind::BadRequest, e)),
            None => Err(ApiError::new(ErrorKind::Internal, String::new())),
        },
        ConsoleAction::KickPlayer => match quoted {
            Some(Ok(q)) => {
                let userid = match args.userid {
                    Some(u) => u,
                    None => 0,
                };
                let mut c = String::from_str("kickid ");
                let d = decimal_string(userid as i128);
                c.append(d.as_str());
                c.append(" ");
                c.append(q.as_str());
                let mut v: Vec<String> = Vec::new();
                v.push(c);
                assert(texts(v@) =~= seq![c@]);
                Ok(ActionPlan { commands: v, hold_until: None })
            }
            Some(Err(e)) => Err(ApiError::new(ErrorKind::BadRequest, e)),
            None => Err(ApiError::new(ErrorKind::Internal, String::new())),
        },
        ConsoleAction::PracticeStart => {
            let until = match args.until {
                Some(u) => u,
                None => add_seconds(now, PRACTICE_DEFAULT_HOURS * 3600),
            };
            if !is_before(now, until) {
                return Err(ApiError::from_str(ErrorKind::BadRequest, "args.until must be in the future"));
            }
            if is_before(add_seconds(now, PRACTICE_MAX_HOURS * 3600), until) {
                return Err(ApiError::from_str(ErrorKind::BadRequest, "a practice hold can last at most 12 hours"));
            }
            Ok(ActionPlan {
                commands: two("matchzy_kick_when_no_match_loaded false", "css_prac"),
                hold_until: Some(until),
            })
        }
        ConsoleAction::PracticeStop => Ok(ActionPlan {
            commands: two("css_exitprac", "matchzy_kick_when_no_match_loaded true"),
            hold_until: None,
        }),
    }
}

/// What an action does besides its console lines, decided once the live
/// reservation is known.
#[derive(Debug)]
pub enum ActionEffect {
    /// Nothing beyond the console lines.
    Nothing,
    /// Cancel the assignment of this match first (end_match).
    CancelMatch(u128),
    /// Place a practice hold until this instant.
    PlaceHold(Instant),
}

/// Side effects that must land before the console lines: `end_match` cancels
/// a live reservation (or, with none, sends `css_endmatch`); a practice start
/// is refused under a live reservation and otherwise places its hold.
pub fn action_effect(
    action: ConsoleAction,
    reservation_match: Option<u128>,
    hold_until: Option<Instant>,
    commands: &mut Vec<String>,
) -> (r: Result<ActionEffect, ApiError>)
    ensures
        action == ConsoleAction::EndMatch ==> match reservation_match {
            Some(m) => r matches Ok(ActionEffect::CancelMatch(x)) && x == m && final(commands)@ == old(commands)@,
            None => r matches Ok(ActionEffect::Nothing)
                && texts(final(commands)@) == texts(old(commands)@).push("css_endmatch"@),
        },
        action == ConsoleAction::PracticeStart ==> match reservation_match {
            Some(m) => r matches Err(e) && is_error(e, ErrorKind::Conflict,
                "server has a live reservation for match "@ + uuid_text(m) + "; end it first"@),
            None => match hold_until {
                Some(u) => r matches Ok(ActionEffect::PlaceHold(x)) && x == u,
                None => r matches Ok(ActionEffect::Nothing),
            },
        } && final(commands)@ == old(commands)@,
        action != ConsoleAction::EndMatch && action != ConsoleAction::PracticeStart ==>
            (r matches Ok(ActionEffect::Nothing) && final(commands)@ == old(commands)@),
{
    match action {
        ConsoleAction::EndMatch => match reservation_match {
            Some(m) => Ok(ActionEffect::CancelMatch(m)),
            None => {
                let ghost before = texts(commands@);
                commands.push(String::from_str("css_endmatch"));
                assert(texts(commands@) =~= before.push("css_endmatch"@));
                Ok(ActionEffect::Nothing)
            }
        },
        ConsoleAction::PracticeStart => match reservation_match {
            Some(m) => {
                let mut msg = String::from_str("server has a live reservation for match ");
                let id = uuid_string(m);
                msg.append(id.as_str());
                msg.append("; end it first");
                Err(ApiError::new(ErrorKind::Conflict, msg))
            }
            None => match hold_until {
                Some(u) => Ok(ActionEffect::PlaceHold(u)),
                None => Ok(ActionEffect::Nothing),
            },
        },
        _ => Ok(ActionEffect::Nothing),
    }
}

/// The transcript of running `commands` in order until one fails, given the
/// `(ok, output)` of each line that ran: with more than one command each
/// output is introduced by `> <command>` on its own line.
pub open spec fn transcript(commands: Seq<Seq<char>>, results: Seq<(bool, Seq<char>)>) -> Seq<char>
    decreases results.len(),
{
    if results.len() == 0 {
        seq![]
    } else {
        let i = results.len() - 1;
        let head = if commands.len() > 1 {
            (if i > 0 { "\n"@ } else { seq![] }) + "> "@ + commands[i] + "\n"@
        } else {
            seq![]
        };
        transcript(commands, results.drop_last()) + head + results.last().1
    }
}

/// Every line that ran succeeded.
pub open spec fn all_ok(results: Seq<(bool, Seq<char>)>) -> bool {
    forall|i: int| 0 <= i < results.len() ==> (#[trigger] results[i]).0
}

/// The lines' results as texts.
pub open spec fn result_texts(results: Seq<(bool, String)>) -> Seq<(bool, Seq<char>)> {
    results.map_values(|p: (bool, String)| (p.0, p.1@))
}

/// Whether another line is sent, `sent` of `total` having run and the last
/// of them having succeeded (`last_ok`, unused before the first line): the
/// lines run in order and stop at the first failure.
pub open spec fn next_line_spec(sent: nat, last_ok: bool, total: nat) -> bool {
    sent < total && (sent == 0 || last_ok)
}

/// Decides whether the next line is sent.
pub fn next_line(sent: usize, last_ok: bool, total: usize) -> (r: bool)
    ensures
        r == next_line_spec(sent as nat, last_ok, total as nat),
{
    sent < total && (sent == 0 || last_ok)
}

/// Line `i` was allowed to run, given the lines before it.
pub open spec fn line_allowed(results: Seq<(bool, String)>, i: int, total: nat) -> bool {
    next_line_spec(i as nat, i == 0 || results[i - 1].0, total)
}

/// `results` were gathered by sending a line while `next_line` said so.
pub open spec fn gathered_by_next_line(results: Seq<(bool, String)>, total: nat) -> bool {
    forall|i: int| 0 <= i < results.len() ==> #[trigger] line_allowed(results, i, total)
}

/// Results gathered under `next_line` are what combining them expects:
/// no more than the lines, and every line but the last one succeeded.
pub proof fn next_line_stops_at_first_failure(results: Seq<(bool, String)>, total: nat)
    requires
        gathered_by_next_line(results, total),
    ensures
        results.len() <= total,
        forall|i: int| 0 <= i < results.len() - 1 ==> (#[trigger] results[i]).0,
{
    if results.len() > 0 {
        assert(line_allowed(results, results.len() - 1, total));
    }
    assert forall|i: int| 0 <= i < results.len() - 1 implies (#[trigger] results[i]).0 by {
        assert(line_allowed(results, i + 1, total));
    }
}

/// Combine the results of running `commands` one by one, stopping at the
/// first failure: overall success, and the transcript of what ran.
pub fn exec_all_outcome(commands: &Vec<String>, results: &Vec<(bool, String)>) -> (r: (bool, String))
    requires
        results@.len() <= commands@.len(),
        forall|i: int| 0 <= i < results@.len() - 1 ==> (#[trigger] results@[i]).0,
    ensures
        r.0 == (results@.len() == commands@.len() && all_ok(result_texts(results@))),
        r.1@ == transcript(texts(commands@), result_texts(results@)),
{
    let n = results.len();
    let total = commands.len();
    let mut out = String::new();
    let mut i: usize = 0;
    assert(result_texts(results@).subrange(0, 0) =~= Seq::<(bool, Seq<char>)>::empty());
    while i < n
        invariant
            n == results@.len(),
            total == commands@.len(),
            n <= total,
            0 <= i <= n,
            out@ == transcript(texts(commands@), result_texts(results@).subrange(0, i as int)),
        decreases n - i,
    {
        let ghost prefix = result_texts(results@).subrange(0, i + 1);
        assert(prefix.drop_last() =~= result_texts(results@).subrange(0, i as int));
        if total > 1 {
            if i > 0 {
                out.append("\n");
            }
            out.append("> ");
            out.append(commands[i].as_str());
            out.append("\n");
        }
        out.append(results[i].1.as_str());
        i += 1;
    }
    assert(result_texts(results@).subrange(0, n as int) =~= result_texts(results@));
    let ok = n == total && (n == 0 || results[n - 1].0);
    proof {
        if n == total && (n == 0 || results@[n - 1].0) {
            assert forall|i: int| 0 <= i < n implies (#[trigger] result_texts(results@)[i]).0 by {
                assert(result_texts(results@)[i].0 == results@[i].0);
            }
        }
        if n > 0 && all_ok(result_texts(results@)) {
            assert(result_texts(results@)[n - 1].0 == results@[n - 1].0);
        }
    }
    (ok, out)
}

/// The output of an action: with no console lines (a cancelled match) the
/// fixed confirmation; otherwise the transcript of the lines.
pub fn action_output(commands: &Vec<String>, results: &Vec<(bool, String)>) -> (r: (bool, String))
    requires
        results@.len() <= commands@.len(),
        forall|i: int| 0 <= i < results@.len() - 1 ==> (#[trigger] results@[i]).0,
    ensures
        commands@.len() == 0 ==> r.0 && r.1@ == "reservation cancelled; match ended"@,
        commands@.len() > 0 ==> r.0 == (results@.len() == commands@.len() && all_ok(result_texts(results@)))
            && r.1@ == transcript(texts(commands@), result_texts(results@)),
{
    if commands.len() == 0 {
        (true, String::from_str("reservation cancelled; match ended"))
    } else {
        exec_all_outcome(commands, results)
    }
}

/// The lines joined with `\n`.
pub open spec fn joined(lines: Seq<Seq<char>>) -> Seq<char>
    decreases lines.len(),
{
    if lines.len() == 0 {
        seq![]
    } else if lines.len() == 1 {
        lines[0]
    } else {
        joined(lines.drop_last()) + "\n"@ + lines.last()
    }
}

/// What the audit row records as the command of an action: the lines sent,
/// joined by newlines, or `cancel_assignment` when none were.
pub fn audited_command(commands: &Vec<String>) -> (r: String)
    ensures
        commands@.len() == 0 ==> r@ == "cancel_assignment"@,
        commands@.len() > 0 ==> r@ == joined(texts(commands@)),
{
    let n = commands.len();
    if n == 0 {
        return String::from_str("cancel_assignment");
    }
    let mut out = String::new();
    let mut i: usize = 0;
    assert(texts(commands@).subrange(0, 0) =~= Seq::<Seq<char>>::empty());
    while i < n
        invariant
            n == commands@.len(),
            0 <= i <= n,
            out@ == joined(texts(commands@).subrange(0, i as int)),
        decreases n - i,
    {
        let ghost pre = texts(commands@).subrange(0, i + 1);
        assert(pre.drop_last() =~= texts(commands@).subrange(0, i as int));
        if i > 0 {
            out.append("\n");
        } else {
            assert(pre.len() == 1);
        }
        out.append(commands[i].as_str());
        i += 1;
    }
    assert(texts(commands@).subrange(0, n as int) =~= texts(commands@));
    out
}

/// The audit kind of an action: `action:<name>`.
pub fn action_audit_kind(action: ConsoleAction) -> (r: String)
    ensures
        r@ == "action:"@ + action_name(action),
{
    let mut k = String::from_str("action:");
    k.append(action.name());
    k
}

/// Booking reasons the console writes, so `practice_stop` can find its hold.
pub open spec fn practice_prefix() -> Seq<char> {
    "Practice (console)"@
}

/// The reason recorded on a practice hold placed by `username`.
pub fn practice_hold_reason(username: &str) -> (r: String)
    ensures
        r@ == practice_prefix() + " by "@ + username@,
{
    let mut s = String::from_str("Practice (console)");
    s.append(" by ");
    s.append(username);
    s
}

/// Whether a hold covering now is the console's practice hold, which
/// `practice_stop` releases.
pub fn is_practice_hold(reason: &Option<String>) -> (r: bool)
    ensures
        r == (reason matches Some(t) && starts_with(t@, practice_prefix())),
{
    match reason {
        Some(t) => str_starts_with(t.as_str(), "Practice (console)"),
        None => false,
    }
}

/// Rows of console history to return: 50 by default, within `1..=200`.
pub fn history_limit(limit: Option<i64>) -> (r: i64)
    ensures
        r == (match limit {
            Some(l) => if l < 1 { 1 } else if l > 200 { 200 } else { l },
            None => 50,
        }),
{
    let l = match limit {
        Some(l) => l,
        None => 50,
    };
    if l < 1 { 1 } else if l > 200 { 200 } else { l }
}

/// A map of a game's catalogue, as far as a map change reads it.
#[derive(Debug)]
pub struct CatalogueMap {
    pub id: String,
    pub display_name: String,
    /// Workshop id, when the map loads from the workshop.
    pub external_id: Option<String>,
}

/// What the map change resolved to.
#[derive(Debug)]
pub struct MapTarget {
    pub map_id: Option<String>,
    pub display_name: Option<String>,
    /// What the server was told to load: an engine name or a workshop id.
    pub engine_name: String,
    pub workshop: bool,
}

/// Where a map change takes its target from.
#[derive(Debug)]
pub enum MapChangeSource {
    /// A map of the catalogue, by id.
    Catalogue(String),
    /// A free-form name, workshop id or workshop link.
    Custom(String),
}

/// The catalogue id wins over a free-form target; with neither the request
/// is refused.
pub fn map_change_source(map_id: &Option<String>, custom: &Option<String>) -> (r: Result<MapChangeSource, ApiError>)
    ensures
        match (map_id, custom) {
            (Some(m), _) => r matches Ok(MapChangeSource::Catalogue(x)) && x@ == m@,
            (None, Some(c)) => r matches Ok(MapChangeSource::Custom(x)) && x@ == c@,
            (None, None) => r matches Err(e) && is_error(e, ErrorKind::BadRequest, "map_id or custom is required"@),
        },
{
    match (map_id, custom) {
        (Some(m), _) => Ok(MapChangeSource::Catalogue(m.clone())),
        (None, Some(c)) => Ok(MapChangeSource::Custom(c.clone())),
        (None, None) => Err(ApiError::from_str(ErrorKind::BadRequest, "map_id or custom is required")),
    }
}

/// The first map of the catalogue with id `map_id`, or a bad request
/// `no map '<id>' in the catalogue`.
pub fn find_catalogue_map(catalogue: &Vec<CatalogueMap>, map_id: &str) -> (r: Result<usize, ApiError>)
    ensures
        match r {
            Ok(i) => i < catalogue@.len() && catalogue@[i as int].id@ == map_id@
                && forall|j: int| 0 <= j < i ==> (#[trigger] catalogue@[j]).id@ != map_id@,
            Err(e) => is_error(e, ErrorKind::BadRequest, "no map '"@ + map_id@ + "' in the catalogue"@)
                && forall|j: int| 0 <= j < catalogue@.len() ==> (#[trigger] catalogue@[j]).id@ != map_id@,
        },
{
    let n = catalogue.len();
    let mut i: usize = 0;
    while i < n
        invariant
            n == catalogue@.len(),
            0 <= i <= n,
            forall|j: int| 0 <= j < i ==> (#[trigger] catalogue@[j]).id@ != map_id@,
        decreases n - i,
    {
        if crate::text::str_eq(catalogue[i].id.as_str(), map_id) {
            return Ok(i);
        }
        i += 1;
    }
    let mut m = String::from_str("no map '");
    m.append(map_id);
    m.append("' in the catalogue");
    Err(ApiError::new(ErrorKind::BadRequest, m))
}

/// The target of a catalogue map: a workshop map (one with an external id)
/// is named by the id its load command carries, any other by its engine
/// name. `command` is the load command built for the map and
/// `engine_name` the map's engine name.
pub fn catalogue_target(map: &CatalogueMap, command: &str, engine_name: &str) -> (r: MapTarget)
    ensures
        r.map_id matches Some(x) && x@ == map.id@,
        r.display_name matches Some(x) && x@ == map.display_name@,
        r.workshop == map.external_id is Some,
        r.engine_name@ == (if map.external_id is Some { second_word(command@) } else { engine_name@ }),
{
    let workshop = map.external_id.is_some();
    let engine = if workshop { second_word_of(command) } else { String::from_str(engine_name) };
    MapTarget {
        map_id: Some(map.id.clone()),
        display_name: Some(map.display_name.clone()),
        engine_name: engine,
        workshop,
    }
}

/// The target of a free-form map change, from the command built for it: a
/// workshop load when the command is `host_workshop_map`, named by the
/// command's argument.
pub fn custom_target(command: &str) -> (r: MapTarget)
    ensures
        r.map_id is None,
        r.display_name is None,
        r.workshop == starts_with(command@, "host_workshop_map"@),
        r.engine_name@ == second_word(command@),
{
    MapTarget {
        map_id: None,
        display_name: None,
        engine_name: second_word_of(command),
        workshop: str_starts_with(command, "host_workshop_map"),
    }
}

/// A map change under a live reservation needs `force`, which cancels that
/// match's assignment; the result is the match to cancel, if any.
pub fn map_change_reservation(reservation_match: Option<u128>, force: bool) -> (r: Result<Option<u128>, ApiError>)
    ensures
        match reservation_match {
            Some(m) => if force {
                r == Ok::<Option<u128>, ApiError>(Some(m))
            } else {
                r matches Err(e) && is_error(e, ErrorKind::Conflict,
                    "server has a live reservation for match "@ + uuid_text(m) + "; pass force to cancel it"@)
            },
            None => r == Ok::<Option<u128>, ApiError>(None),
        },
{
    match reservation_match {
        Some(m) => {
            if force {
                Ok(Some(m))
            } else {
                let mut msg = String::from_str("server has a live reservation for match ");
                let id = uuid_string(m);
                msg.append(id.as_str());
                msg.append("; pass force to cancel it");
                Err(ApiError::new(ErrorKind::Conflict, msg))
            }
        }
        None => Ok(None),
    }
}

/// Minutes the allocator keeps off the server after a map change.
pub fn map_hold_minutes(workshop: bool) -> (r: i64)
    ensures
        r == (if workshop { 10i64 } else { 5i64 }),
{
    if workshop { WORKSHOP_HOLD_MINUTES } else { MAP_HOLD_MINUTES }
}

/// The reason recorded on a map-change hold.
pub fn map_hold_reason(engine_name: &str, username: &str) -> (r: String)
    ensures
        r@ == "Map change (console)"@ + " to "@ + engine_name@ + " by "@ + username@,
{
    let mut s = String::from_str("Map change (console)");
    s.append(" to ");
    s.append(engine_name);
    s.append(" by ");
    s.append(username);
    s
}

/// Where the console snapshot takes CS2's `status` from.
#[derive(Debug)]
pub struct StatusSource {
    /// The `status` text shown, addresses redacted.
    pub raw: Option<String>,
    pub status_at: Option<Instant>,
    /// Fetched just now rather than read from the store.
    pub live: bool,
    /// Why a requested live fetch fell back to stored data.
    pub live_error: Option<String>,
}

/// Whether the snapshot runs `status` on the server now.
pub fn wants_live_fetch(live_requested: bool, connected: bool) -> (r: bool)
    ensures
        r == (live_requested && connected),
{
    live_requested && connected
}

/// The stored `status` first; a live fetch replaces it only when it
/// succeeds. `fetched` is the live result: the redacted text when `status`
/// ran, or the failure output.
pub fn status_source(
    stored_raw: Option<String>,
    stored_at: Option<Instant>,
    live_requested: bool,
    connected: bool,
    fetched: Option<Result<String, String>>,
    now: Instant,
) -> (r: StatusSource)
    requires
        (live_requested && connected) == fetched is Some,
    ensures
        !live_requested ==> r.raw == stored_raw && r.status_at == stored_at && !r.live && r.live_error is None,
        live_requested && !connected ==> r.raw == stored_raw && r.status_at == stored_at && !r.live
            && (r.live_error matches Some(m) && m@ == "no agent connected for this server"@),
        live_requested && connected ==> match fetched {
            Some(Ok(t)) => r.raw == Some(t) && r.status_at == Some(now) && r.live && r.live_error is None,
            Some(Err(o)) => r.raw == stored_raw && r.status_at == stored_at && !r.live && r.live_error == Some(o),
            None => false,
        },
{
    if !live_requested {
        return StatusSource { raw: stored_raw, status_at: stored_at, live: false, live_error: None };
    }
    if !connected {
        return StatusSource {
            raw: stored_raw,
            status_at: stored_at,
            live: false,
            live_error: Some(String::from_str("no agent connected for this server")),
        };
    }
    match fetched {
        Some(Ok(t)) => StatusSource { raw: Some(t), status_at: Some(now), live: true, live_error: None },
        Some(Err(o)) => StatusSource { raw: stored_raw, status_at: stored_at, live: false, live_error: Some(o) },
        None => StatusSource { raw: stored_raw, status_at: stored_at, live: false, live_error: None },
    }
}

/// The agent's side of the connection.
#[derive(Debug)]
pub struct ConsoleAgentInfo {
    pub connected: bool,
    pub version: Option<String>,
    pub heartbeat_at: Option<String>,
    /// Whether the agent could reach RCON at its last heartbeat; absent
    /// before the first heartbeat.
    pub rcon_ok: Option<bool>,
    /// Whether this agent reports CS2's `status`.
    pub reports_status: bool,
}

/// The agent block of the snapshot: RCON counts as reachable unless the
/// server is in the error state, and is unknown before any heartbeat.
pub fn agent_info(
    connected: bool,
    agent_version: Option<String>,
    heartbeat_at: Option<String>,
    server_in_error: bool,
    has_status: bool,
) -> (r: ConsoleAgentInfo)
    ensures
        r.connected == connected,
        r.version == agent_version,
        r.heartbeat_at == heartbeat_at,
        r.rcon_ok == (if heartbeat_at is Some { Some(!server_in_error) } else { None::<bool> }),
        r.reports_status == has_status,
{
    let rcon_ok = if heartbeat_at.is_some() { Some(!server_in_error) } else { None };
    ConsoleAgentInfo { connected, version: agent_version, heartbeat_at, rcon_ok, reports_status: has_status }
}

/// Query for the console snapshot.
#[derive(Debug)]
pub struct ConsoleQuery {
    /// Run `status` on the server now instead of reading the last heartbeat.
    pub live: bool,
}

/// A portal player matched to a connected Steam account.
#[derive(Debug, Clone)]
pub struct ConsolePlayerLink {
    pub id: String,
    pub display_name: String,
}

/// One row of CS2's `status`.
#[derive(Debug)]
pub struct ConsolePlayer {
    pub userid: u32,
    pub name: String,
    /// Steam ID64 as a string (JSON numbers lose precision above 2^53).
    pub steam_id64: Option<String>,
    pub bot: bool,
    pub connected_secs: Option<u32>,
    pub ping: Option<u32>,
    pub loss: Option<u32>,
    pub state: Option<String>,
    /// The portal account behind the Steam id, when one exists.
    pub player: Option<ConsolePlayerLink>,
}

/// One row of `status` as the agent parsed it.
#[derive(Debug)]
pub struct StatusPlayer {
    pub userid: u32,
    pub name: String,
    pub steam_id64: Option<u64>,
    pub bot: bool,
    pub connected_secs: Option<u32>,
    pub ping: Option<u32>,
    pub loss: Option<u32>,
    pub state: Option<String>,
}

/// The key a Steam ID64 is looked up by in the player store, whose column
/// is signed: none above `i64::MAX`, where no player can be found.
pub fn steam_lookup_key(id: u64) -> (r: Option<i64>)
    ensures
        id <= i64::MAX ==> r == Some(id as i64),
        id > i64::MAX ==> r is None,
{
    if id <= 9_223_372_036_854_775_807u64 {
        Some(id as i64)
    } else {
        None
    }
}

/// The lookup key of a row, when it has one.
pub open spec fn row_key(p: StatusPlayer) -> Option<i64> {
    match p.steam_id64 {
        Some(id) => if id <= i64::MAX { Some(id as i64) } else { None },
        None => None,
    }
}

/// Row `p` is looked up by `key`.
pub open spec fn keyed(p: StatusPlayer, key: i64) -> bool {
    row_key(p) == Some(key)
}

/// Some row of `rows` is looked up by `key`.
pub open spec fn has_key(rows: Seq<StatusPlayer>, key: i64) -> bool {
    exists|k: int| 0 <= k < rows.len() && keyed(#[trigger] rows[k], key)
}

/// The player-store lookups a snapshot needs: each key of a row once, so
/// that a Steam id seen twice is looked up once.
pub fn lookup_keys(rows: &Vec<StatusPlayer>) -> (r: Vec<i64>)
    ensures
        forall|k: int| 0 <= k < rows@.len() ==> (row_key(#[trigger] rows@[k]) matches Some(key) ==> r@.contains(key)),
        forall|i: int| 0 <= i < r@.len() ==> #[trigger] has_key(rows@, r@[i]),
        forall|i: int, j: int| 0 <= i < j < r@.len() ==> r@[i] != r@[j],
{
    let mut out: Vec<i64> = Vec::new();
    let mut i: usize = 0;
    while i < rows.len()
        invariant
            0 <= i <= rows@.len(),
            forall|k: int| 0 <= k < i ==> (row_key(#[trigger] rows@[k]) matches Some(key) ==> out@.contains(key)),
            forall|a: int| #![trigger out@[a]] 0 <= a < out@.len() ==> exists|k: int| 0 <= k < i && keyed(#[trigger] rows@[k], out@[a]),
            forall|a: int, b: int| 0 <= a < b < out@.len() ==> out@[a] != out@[b],
        decreases rows@.len() - i,
    {
        let key = match rows[i].steam_id64 {
            Some(id) => steam_lookup_key(id),
            None => None,
        };
        assert(key == row_key(rows@[i as int]));
        if let Some(kv) = key {
            let mut seen = false;
            let mut j: usize = 0;
            while j < out.len()
                invariant
                    0 <= j <= out@.len(),
                    seen <==> exists|x: int| 0 <= x < j && out@[x] == kv,
                decreases out@.len() - j,
            {
                if out[j] == kv {
                    seen = true;
                }
                j += 1;
            }
            if !seen {
                let ghost before = out@;
                out.push(kv);
                assert forall|a: int| #![trigger out@[a]] 0 <= a < out@.len() implies exists|k: int| 0 <= k < i + 1 && keyed(#[trigger] rows@[k], out@[a]) by {
                    if a == before.len() {
                        assert(keyed(rows@[i as int], out@[a]));
                    } else {
                        assert(out@[a] == before[a]);
                    }
                }
                assert forall|k: int| 0 <= k < i + 1 implies (row_key(#[trigger] rows@[k]) matches Some(key) ==> out@.contains(key)) by {
                    if k < i {
                        if let Some(key) = row_key(rows@[k]) {
                            let x = choose|x: int| 0 <= x < before.len() && before[x] == key;
                            assert(out@[x] == key);
                        }
                    } else {
                        assert(out@[before.len() as int] == kv);
                    }
                }
            }
        }
        i += 1;
    }
    assert forall|a: int| 0 <= a < out@.len() implies #[trigger] has_key(rows@, out@[a]) by {
        let k = choose|k: int| 0 <= k < i && keyed(#[trigger] rows@[k], out@[a]);
        assert(keyed(rows@[k], out@[a]));
    }
    out
}

/// A `status` row as the console shows it: the Steam ID64 as decimal
/// text, with the portal player found for it.
pub fn console_player(row: StatusPlayer, link: Option<ConsolePlayerLink>) -> (r: ConsolePlayer)
    ensures
        r.userid == row.userid,
        r.name == row.name,
        r.steam_id64 matches Some(t) ==> row.steam_id64 matches Some(id) && t@ == decimal_text(id as int),
        r.steam_id64 is None <==> row.steam_id64 is None,
        r.bot == row.bot,
        r.connected_secs == row.connected_secs,
        r.ping == row.ping,
        r.loss == row.loss,
        r.state == row.state,
        r.player == link,
{
    let steam = match row.steam_id64 {
        Some(id) => Some(decimal_string(id as i128)),
        None => None,
    };
    ConsolePlayer {
        userid: row.userid,
        name: row.name,
        steam_id64: steam,
        bot: row.bot,
        connected_secs: row.connected_secs,
        ping: row.ping,
        loss: row.loss,
        state: row.state,
        player: link,
    }
}

/// What `status` said about the server.
#[derive(Debug)]
pub struct ConsoleStatus {
    pub hostname: Option<String>,
    /// Engine map name, e.g. `de_mirage`.
    pub map: Option<String>,
    pub humans: Option<u32>,
    pub bots: Option<u32>,
    pub max_players: Option<u32>,
    pub players: Vec<ConsolePlayer>,
}

/// A booking covering right now (a practice night, a map-change hold).
#[derive(Debug)]
pub struct ConsoleHold {
    pub id: String,
    pub reason: Option<String>,
    pub tournament_id: Option<String>,
    pub starts_at: String,
    pub ends_at: String,
}

/// One audited console command.
#[derive(Debug)]
pub struct AdminServerCommandResponse {
    pub id: String,
    pub server_id: String,
    pub reservation_id: Option<String>,
    pub admin_user_id: String,
    pub admin_username: Option<String>,
    /// `raw`, `map_change`, or `action:<name>`.
    pub kind: String,
    pub command: String,
    pub output: Option<String>,
    pub ok: bool,
    pub force: bool,
    pub created_at: String,
}

/// Query for the console history.
#[derive(Debug)]
pub struct HistoryQuery {
    /// Rows to return, newest first (default 50, at most 200).
    pub limit: Option<i64>,
}

/// A map change: a catalogue entry or a free-form target.
#[derive(Debug)]
pub struct MapChangeRequest {
    /// Id of a map in the game's catalogue.
    pub map_id: Option<String>,
    /// A map name, a workshop id, or a workshop link.
    pub custom: Option<String>,
    /// Cancel a live reservation first (participants are notified).
    pub force: bool,
}

/// Result of a map change.
#[derive(Debug)]
pub struct MapChangeResponse {
    pub command: String,
    pub ok: bool,
    pub output: String,
    pub target: MapTarget,
    /// Match whose reservation `force` cancelled.
    pub cancelled_match_id: Option<String>,
    /// Until when the allocator keeps off the server.
    pub hold_until: Option<String>,
}

/// Result of an action.
#[derive(Debug)]
pub struct ConsoleActionResponse {
    pub action: ConsoleAction,
    /// Console lines sent, in order.
    pub commands: Vec<String>,
    pub ok: bool,
    pub output: String,
    pub cancelled_match_id: Option<String>,
    pub hold_until: Option<String>,
}

/// Request to run a raw console command.
#[derive(Debug)]
pub struct SendCommandRequest {
    /// One console line, e.g. `css_pause`.
    pub command: String,
}

/// Output of a console command.
#[derive(Debug)]
pub struct SendCommandResponse {
    /// Whether the agent reported success.
    pub ok: bool,
    /// The server's reply (or the agent's error).
    pub output: String,
}

/// The raw command as sent: the request line trimmed.
pub fn raw_command(body: &SendCommandRequest) -> (r: String)
    ensures
        r@ == trim(body.command@),
{
    trim_str(body.command.as_str())
}

/// The verdict on a raw command: refused with the given reason, or run.
pub fn raw_command_verdict(refusal: Option<String>) -> (r: Result<(), ApiError>)
    ensures
        match refusal {
            Some(m) => r matches Err(e) && is_error(e, ErrorKind::BadRequest, m@),
            None => r is Ok,
        },
{
    match refusal {
        Some(m) => Err(ApiError::new(ErrorKind::BadRequest, m)),
        None => Ok(()),
    }
}

/// An agent must be connected before anything is sent.
pub fn require_connected(connected: bool) -> (r: Result<(), ApiError>)
    ensures
        connected ==> r is Ok,
        !connected ==> (r matches Err(e) && is_error(e, ErrorKind::Conflict, "no agent connected for this server"@)),
{
    if connected {
        Ok(())
    } else {
        Err(ApiError::from_str(ErrorKind::Conflict, "no agent connected for this server"))
    }
}

/// Ending a match and kicking a player never go ahead unconfirmed: without
/// `confirm` they are refused before anything else is looked at.
pub proof fn destructive_actions_need_confirm(action: ConsoleAction, args: ConsoleActionArgs)
    requires
        action == ConsoleAction::EndMatch || action == ConsoleAction::KickPlayer,
    ensures
        argument_error(action, false, args) == Some((ErrorKind::BadRequest, action_name(action) + " needs confirm: true"@)),
{
}

/// A practice hold that is placed lies in the future and lasts at most
/// twelve hours; no other action places a hold.
pub proof fn practice_hold_is_bounded(
    action: ConsoleAction,
    args: ConsoleActionArgs,
    gamestate_idle: Option<bool>,
    quoted: Option<Result<String, String>>,
    now: Instant,
)
    ensures
        plan_spec(action, args, gamestate_idle, quoted, now) matches Ok((_, Some(until)))
            ==> action == ConsoleAction::PracticeStart && before(now, until) && !before(plus(now, 43200int), until),
{
}

/// Restarting warmup restarts the loaded match only when there is one: the
/// plan is the MatchZy restart `css_restart` exactly when the server last
/// reported a gamestate and it was not idle; with an idle server or no
/// report the engine restarts warmup (`mp_warmup_start`, then
/// `mp_restartgame 1`). No hold is placed and nothing is refused.
pub proof fn restart_warmup_restarts_only_a_loaded_match(
    args: ConsoleActionArgs,
    gamestate_idle: Option<bool>,
    quoted: Option<Result<String, String>>,
    now: Instant,
)
    ensures
        ({
            let loaded = gamestate_idle is Some && !gamestate_idle->0;
            plan_spec(ConsoleAction::RestartWarmup, args, gamestate_idle, quoted, now) matches Ok((cmds, hold)) && {
                &&& hold is None
                &&& loaded ==> cmds == seq!["css_restart"@]
                &&& !loaded ==> cmds == seq!["mp_warmup_start"@, "mp_restartgame 1"@]
            }
        }),
{
}

} // verus!
