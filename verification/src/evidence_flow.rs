//! The evidence endpoints around validation: storage key prefixes, which
//! route a link request takes, merging discovered evidence, the inputs a
//! validation needs, Steam id lists, and the checks on a local upload path.

use vstd::prelude::*;
use crate::api_error::{ApiError, ErrorKind, is_error};
use crate::ids::{uuid_from_text, parse_id};
use crate::json::{Json, get_spec, ostr};
use crate::text::{decimal_text, decimal_string, str_eq, str_strip_prefix, starts_with, trim, trim_str,
    push_char, lower, to_ascii_lowercase};

verus! {

/// The kind of a piece of evidence, as far as storage goes.
#[derive(Debug, Clone, Copy, PartialEq, Eq, Structural)]
pub enum EvidenceKind {
    Demo,
    Screenshot,
    Video,
    ServerLog,
    Link,
}

/// The storage directory of an evidence kind.
pub open spec fn kind_dir(k: EvidenceKind) -> Seq<char> {
    match k {
        EvidenceKind::Demo => "demos"@,
        EvidenceKind::Screenshot => "screenshots"@,
        EvidenceKind::Video => "videos"@,
        EvidenceKind::ServerLog => "logs"@,
        EvidenceKind::Link => "links"@,
    }
}

/// The key prefix of a match's evidence:
/// `[league/]tournament/evidence/<dir>/R<round>M<match>`.
pub open spec fn key_prefix_spec(league: Option<Seq<char>>, tournament: Seq<char>, k: EvidenceKind, round: i32, number: i32) -> Seq<char> {
    let tail = tournament + "/evidence/"@ + kind_dir(k) + "/R"@ + decimal_text(round as int) + "M"@
        + decimal_text(number as int);
    match league {
        Some(l) => l + "/"@ + tail,
        None => tail,
    }
}

/// Builds the readable storage key prefix of a match's evidence.
pub fn evidence_key_prefix(league_slug: Option<&str>, tournament_slug: &str, kind: EvidenceKind, round: i32, match_number: i32) -> (r: String)
    ensures
        r@ == key_prefix_spec(
            match league_slug { Some(l) => Some(l@), None => None },
            tournament_slug@,
            kind,
            round,
            match_number,
        ),
{
    let mut out = String::new();
    match league_slug {
        Some(l) => {
            out.append(l);
            out.append("/");
        }
        None => {}
    }
    out.append(tournament_slug);
    out.append("/evidence/");
    let dir = match kind {
        EvidenceKind::Demo => "demos",
        EvidenceKind::Screenshot => "screenshots",
        EvidenceKind::Video => "videos",
        EvidenceKind::ServerLog => "logs",
        EvidenceKind::Link => "links",
    };
    out.append(dir);
    out.append("/R");
    let r = decimal_string(round as i128);
    out.append(r.as_str());
    out.append("M");
    let m = decimal_string(match_number as i128);
    out.append(m.as_str());
    proof {
        let tail = tournament_slug@ + "/evidence/"@ + kind_dir(kind) + "/R"@ + decimal_text(round as int)
            + "M"@ + decimal_text(match_number as int);
        match league_slug {
            Some(l) => assert(out@ =~= l@ + "/"@ + tail),
            None => assert(out@ =~= tail),
        }
    }
    out
}

/// Which route a request to link discovered evidence takes.
#[derive(Debug, Clone, Copy, PartialEq, Eq, Structural)]
pub enum LinkRoute {
    /// A demo of the catalogue, by its id (`catalog:<id>`).
    Catalog(u128),
    /// Something the game plugin discovers.
    Plugin,
}

/// The route of an external id: `catalog:` followed by a demo id goes to
/// the catalogue (a bad id is refused); anything else to the plugin.
pub fn link_route(external_id: &str) -> (r: Result<LinkRoute, ApiError>)
    ensures
        starts_with(external_id@, "catalog:"@) ==> match uuid_from_text(external_id@.subrange(8, external_id@.len() as int)) {
            Some(id) => r == Ok::<LinkRoute, ApiError>(LinkRoute::Catalog(id)),
            None => r matches Err(e) && is_error(e, ErrorKind::BadRequest, "Invalid catalog demo ID"@),
        },
        !starts_with(external_id@, "catalog:"@) ==> r == Ok::<LinkRoute, ApiError>(LinkRoute::Plugin),
{
    proof {
        reveal_strlit("catalog:");
    }
    match str_strip_prefix(external_id, "catalog:") {
        Some(rest) => match parse_id(rest.as_str(), "Invalid catalog demo ID") {
            Ok(id) => Ok(LinkRoute::Catalog(id)),
            Err(e) => Err(e),
        },
        None => Ok(LinkRoute::Plugin),
    }
}

/// The first discovered item with the external id asked for; not found
/// when the plugin discovered none.
pub fn find_discovered(discovered_ids: &Vec<String>, wanted: &str) -> (r: Result<usize, ApiError>)
    ensures
        match r {
            Ok(k) => k < discovered_ids@.len() && discovered_ids@[k as int]@ == wanted@
                && forall|j: int| 0 <= j < k ==> (#[trigger] discovered_ids@[j])@ != wanted@,
            Err(e) => is_error(e, ErrorKind::NotFound, "No discovered evidence with external_id '"@ + wanted@ + "'"@)
                && forall|j: int| 0 <= j < discovered_ids@.len() ==> (#[trigger] discovered_ids@[j])@ != wanted@,
        },
{
    let n = discovered_ids.len();
    let mut i: usize = 0;
    while i < n
        invariant
            n == discovered_ids@.len(),
            0 <= i <= n,
            forall|j: int| 0 <= j < i ==> (#[trigger] discovered_ids@[j])@ != wanted@,
        decreases n - i,
    {
        if str_eq(discovered_ids[i].as_str(), wanted) {
            return Ok(i);
        }
        i += 1;
    }
    let mut m = String::from_str("No discovered evidence with external_id '");
    m.append(wanted);
    m.append("'");
    Err(ApiError::new(ErrorKind::NotFound, m))
}

/// The refusal when a game's plugin cannot handle evidence.
pub fn no_evidence_support() -> (e: ApiError)
    ensures
        is_error(e, ErrorKind::BadRequest, "Game plugin does not support evidence"@),
{
    ApiError::from_str(ErrorKind::BadRequest, "Game plugin does not support evidence")
}

/// The refusal when no plugin is registered for a game.
pub fn no_plugin_for_game(display_name: &str, plugin_id: &str) -> (e: ApiError)
    ensures
        is_error(e, ErrorKind::BadRequest, "No plugin registered for game '"@ + display_name@ + "' (plugin_id: '"@
            + plugin_id@ + "')"@),
{
    let mut m = String::from_str("No plugin registered for game '");
    m.append(display_name);
    m.append("' (plugin_id: '");
    m.append(plugin_id);
    m.append("')");
    ApiError::new(ErrorKind::BadRequest, m)
}

/// `id` is among `ids`.
pub open spec fn listed(ids: Seq<String>, id: Seq<char>) -> bool {
    exists|j: int| 0 <= j < ids.len() && (#[trigger] ids[j])@ == id
}

/// The positions of the catalogue finds whose external id the plugin did
/// not already report, in order.
pub open spec fn fresh_positions(plugin_ids: Seq<String>, catalog_ids: Seq<String>) -> Seq<int>
    decreases catalog_ids.len(),
{
    if catalog_ids.len() == 0 {
        seq![]
    } else {
        let rest = fresh_positions(plugin_ids, catalog_ids.drop_last());
        if listed(plugin_ids, catalog_ids.last()@) {
            rest
        } else {
            rest.push(catalog_ids.len() - 1)
        }
    }
}

fn is_listed(ids: &Vec<String>, id: &str) -> (r: bool)
    ensures
        r == listed(ids@, id@),
{
    let n = ids.len();
    let mut i: usize = 0;
    while i < n
        invariant
            n == ids@.len(),
            0 <= i <= n,
            forall|j: int| 0 <= j < i ==> (#[trigger] ids@[j])@ != id@,
        decreases n - i,
    {
        if str_eq(ids[i].as_str(), id) {
            assert(ids@[i as int]@ == id@);
            return true;
        }
        i += 1;
    }
    false
}

/// Which catalogue finds join the plugin's: those whose external id the
/// plugin did not report (catalogue finds are not deduplicated among
/// themselves).
pub fn merge_discovered(plugin_ids: &Vec<String>, catalog_ids: &Vec<String>) -> (r: Vec<usize>)
    ensures
        r@.len() == fresh_positions(plugin_ids@, catalog_ids@).len(),
        forall|k: int| 0 <= k < r@.len() ==> r@[k] as int == #[trigger] fresh_positions(plugin_ids@, catalog_ids@)[k],
{
    let n = catalog_ids.len();
    let mut out: Vec<usize> = Vec::new();
    let mut i: usize = 0;
    while i < n
        invariant
            n == catalog_ids@.len(),
            0 <= i <= n,
            out@.len() == fresh_positions(plugin_ids@, catalog_ids@.subrange(0, i as int)).len(),
            forall|k: int| 0 <= k < out@.len()
                ==> out@[k] as int == #[trigger] fresh_positions(plugin_ids@, catalog_ids@.subrange(0, i as int))[k],
        decreases n - i,
    {
        let ghost pre = catalog_ids@.subrange(0, i + 1);
        let ghost before = out@;
        assert(pre.drop_last() =~= catalog_ids@.subrange(0, i as int));
        assert(pre.last() == catalog_ids@[i as int]);
        if !is_listed(plugin_ids, catalog_ids[i].as_str()) {
            out.push(i);
            assert forall|k: int| 0 <= k < out@.len()
                implies out@[k] as int == #[trigger] fresh_positions(plugin_ids@, pre)[k] by {
                if k < before.len() {
                    assert(out@[k] == before[k]);
                }
            }
        }
        i += 1;
    }
    assert(catalog_ids@.subrange(0, n as int) =~= catalog_ids@);
    out
}

/// How many discovered items are kept: all without a limit, else the limit
/// with a negative one read as 0 (as a platform-width count).
pub fn discovery_cap(limit: Option<i64>) -> (r: Option<usize>)
    ensures
        r == match limit {
            Some(l) => Some((if l < 0 { 0 } else { l }) as usize),
            None => None::<usize>,
        },
{
    match limit {
        Some(l) => {
            let c: i64 = if l < 0 { 0 } else { l };
            Some(c as usize)
        }
        None => None,
    }
}

/// The evidence item a validation looks at: the first id of the request.
pub fn first_evidence_id(ids: &Vec<u128>) -> (r: Result<u128, ApiError>)
    ensures
        ids@.len() > 0 ==> r == Ok::<u128, ApiError>(ids@[0]),
        ids@.len() == 0 ==> (r matches Err(e) && is_error(e, ErrorKind::BadRequest, "At least one evidence ID is required"@)),
{
    if ids.len() == 0 {
        return Err(ApiError::from_str(ErrorKind::BadRequest, "At least one evidence ID is required"));
    }
    Ok(ids[0])
}

/// Evidence of another match is treated as absent.
pub fn evidence_on_match(evidence_match: u128, match_id: u128) -> (r: Result<(), ApiError>)
    ensures
        evidence_match == match_id ==> r is Ok,
        evidence_match != match_id ==> (r matches Err(e) && is_error(e, ErrorKind::NotFound, "Evidence not found on this match"@)),
{
    if evidence_match != match_id {
        return Err(ApiError::from_str(ErrorKind::NotFound, "Evidence not found on this match"));
    }
    Ok(())
}

/// The claimed game score a validation compares against; both sides are
/// required (a defaulted 0-0 would fail every honest demo).
pub fn claimed_scores(p1: Option<i32>, p2: Option<i32>) -> (r: Result<(i32, i32), ApiError>)
    ensures
        match (p1, p2) {
            (Some(a), Some(b)) => r == Ok::<(i32, i32), ApiError>((a, b)),
            _ => r matches Err(e) && is_error(e, ErrorKind::BadRequest,
                "expected_participant1_score and expected_participant2_score are required to validate evidence against a result"@),
        },
{
    match (p1, p2) {
        (Some(a), Some(b)) => Ok((a, b)),
        _ => Err(ApiError::from_str(
            ErrorKind::BadRequest,
            "expected_participant1_score and expected_participant2_score are required to validate evidence against a result",
        )),
    }
}

/// The catalogue demo behind a piece of evidence: `catalog_demo_id` of its
/// plugin metadata, when it is a UUID text.
pub open spec fn catalog_demo_spec(metadata: Json) -> Option<u128> {
    match ostr(get_spec(metadata, "catalog_demo_id"@)) {
        Some(t) => uuid_from_text(t),
        None => None,
    }
}

/// Reads the catalogue demo behind a piece of evidence.
pub fn catalog_demo_ref(metadata: &Json) -> (r: Option<u128>)
    ensures
        r == catalog_demo_spec(*metadata),
{
    match metadata.get("catalog_demo_id") {
        Some(v) => match v.as_str() {
            Some(t) => match parse_id(t, "") {
                Ok(id) => Some(id),
                Err(_) => None,
            },
            None => None,
        },
        None => None,
    }
}

/// The external id of a linked demo: `demo:` and its file name.
pub fn demo_external_id(file_name: &str) -> (r: String)
    ensures
        r@ == "demo:"@ + file_name@,
{
    let mut s = String::from_str("demo:");
    s.append(file_name);
    s
}

/// The title of a demo known only to the stats service.
pub fn stats_demo_title(map: &str) -> (r: String)
    ensures
        r@ == "CS2 Demo: "@ + map@,
{
    let mut s = String::from_str("CS2 Demo: ");
    s.append(map);
    s
}

/// The not-found answer for a demo the stats service does not know.
pub fn demo_not_found(name: &str) -> (e: ApiError)
    ensures
        is_error(e, ErrorKind::NotFound, "Demo not found: "@ + name@),
{
    let mut m = String::from_str("Demo not found: ");
    m.append(name);
    ApiError::new(ErrorKind::NotFound, m)
}

/// The catalogue demo a link request names, if it names one; a bad id is
/// refused.
pub fn link_demo_id(demo_id: Option<&str>) -> (r: Result<Option<u128>, ApiError>)
    ensures
        match demo_id {
            None => r == Ok::<Option<u128>, ApiError>(None),
            Some(t) => match uuid_from_text(t@) {
                Some(id) => r == Ok::<Option<u128>, ApiError>(Some(id)),
                None => r matches Err(e) && is_error(e, ErrorKind::BadRequest, "Invalid demo_id format"@),
            },
        },
{
    match demo_id {
        None => Ok(None),
        Some(t) => match parse_id(t, "Invalid demo_id format") {
            Ok(id) => Ok(Some(id)),
            Err(e) => Err(e),
        },
    }
}

/// The two team names a stats answer shows: the first two of the demo, or
/// `Team 1` and `Team 2` when it names fewer.
pub fn team_name_pair(names: &Vec<String>) -> (r: (String, String))
    ensures
        names@.len() >= 2 ==> r.0@ == names@[0]@ && r.1@ == names@[1]@,
        names@.len() < 2 ==> r.0@ == "Team 1"@ && r.1@ == "Team 2"@,
{
    if names.len() >= 2 {
        (names[0].clone(), names[1].clone())
    } else {
        (String::from_str("Team 1"), String::from_str("Team 2"))
    }
}

/// The comma-separated pieces of `s`, in order (`str::split(',')`).
pub open spec fn comma_pieces(s: Seq<char>) -> Seq<Seq<char>>
    decreases s.len(),
{
    if s.len() == 0 {
        seq![seq![]]
    } else {
        let init = comma_pieces(s.drop_last());
        if s.last() == ',' {
            init.push(seq![])
        } else {
            init.update(init.len() - 1, init.last().push(s.last()))
        }
    }
}

proof fn lemma_comma_pieces_nonempty(s: Seq<char>)
    ensures
        comma_pieces(s).len() >= 1,
    decreases s.len(),
{
    if s.len() > 0 {
        lemma_comma_pieces_nonempty(s.drop_last());
    }
}

/// The Steam ids of a comma-separated list, each trimmed; none without a list.
pub open spec fn steam_ids_spec(raw: Option<Seq<char>>) -> Seq<Seq<char>> {
    match raw {
        Some(s) => comma_pieces(s).map_values(|p: Seq<char>| trim(p)),
        None => seq![],
    }
}

/// Splits a comma-separated list of Steam ids, trimming each.
pub fn steam_id_list(raw: Option<&str>) -> (r: Vec<String>)
    ensures
        r@.len() == steam_ids_spec(match raw { Some(s) => Some(s@), None => None }).len(),
        forall|k: int| 0 <= k < r@.len()
            ==> (#[trigger] r@[k])@ == steam_ids_spec(match raw { Some(s) => Some(s@), None => None })[k],
{
    let s = match raw {
        Some(s) => s,
        None => return Vec::new(),
    };
    let n = s.unicode_len();
    let mut done: Vec<String> = Vec::new();
    let mut cur = String::new();
    let mut i: usize = 0;
    proof {
        lemma_comma_pieces_nonempty(s@.subrange(0, 0));
        assert(s@.subrange(0, 0) =~= Seq::<char>::empty());
    }
    while i < n
        invariant
            n == s@.len(),
            0 <= i <= n,
            comma_pieces(s@.subrange(0, i as int)).len() == done@.len() + 1,
            forall|k: int| 0 <= k < done@.len()
                ==> (#[trigger] done@[k])@ == comma_pieces(s@.subrange(0, i as int))[k],
            cur@ == comma_pieces(s@.subrange(0, i as int)).last(),
        decreases n - i,
    {
        let ghost pre = s@.subrange(0, i + 1);
        assert(pre.drop_last() =~= s@.subrange(0, i as int));
        let c = s.get_char(i);
        if c == ',' {
            let piece = cur;
            done.push(piece);
            cur = String::new();
            assert(cur@ =~= Seq::<char>::empty());
        } else {
            push_char(&mut cur, c);
        }
        i += 1;
    }
    assert(s@.subrange(0, n as int) =~= s@);
    done.push(cur);
    let mut out: Vec<String> = Vec::new();
    let m = done.len();
    let mut j: usize = 0;
    while j < m
        invariant
            m == done@.len(),
            m == comma_pieces(s@).len(),
            forall|k: int| 0 <= k < m ==> (#[trigger] done@[k])@ == comma_pieces(s@)[k],
            0 <= j <= m,
            out@.len() == j,
            forall|k: int| 0 <= k < j ==> (#[trigger] out@[k])@ == trim(comma_pieces(s@)[k]),
        decreases m - j,
    {
        let t = trim_str(done[j].as_str());
        out.push(t);
        j += 1;
    }
    out
}

/// The game number of a claimed demo result, 1 when not given.
pub fn claimed_game_number(game_number: Option<i32>) -> (r: i32)
    ensures
        r == match game_number {
            Some(g) => g,
            None => 1,
        },
{
    match game_number {
        Some(g) => g,
        None => 1,
    }
}

/// A participant of a match as evidence validation sees it.
#[derive(Debug, Clone)]
pub struct ParticipantContext {
    pub registration_id: u128,
    pub name: String,
    pub player_ids: Vec<u128>,
    pub steam_ids: Vec<String>,
}

/// The participant of a registration: its solo player, and that player's
/// Steam id when the player has one.
pub fn participant_context(registration_id: u128, name: String, player_id: Option<u128>, steam_id: Option<String>) -> (r: ParticipantContext)
    ensures
        r.registration_id == registration_id,
        r.name@ == name@,
        r.player_ids@ == match player_id {
            Some(p) => seq![p],
            None => Seq::<u128>::empty(),
        },
        player_id is None ==> r.steam_ids@.len() == 0,
        player_id is Some ==> match steam_id {
            Some(s) => r.steam_ids@.len() == 1 && r.steam_ids@[0]@ == s@,
            None => r.steam_ids@.len() == 0,
        },
{
    let mut player_ids: Vec<u128> = Vec::new();
    let mut steam_ids: Vec<String> = Vec::new();
    match player_id {
        Some(p) => {
            player_ids.push(p);
            match steam_id {
                Some(s) => steam_ids.push(s),
                None => {}
            }
        }
        None => {}
    }
    ParticipantContext { registration_id, name, player_ids, steam_ids }
}

/// The first step of the participant-or-admin gate on evidence endpoints
/// that change match state: a tournament admin override admits at once
/// (`Ok(None)`); otherwise the match is loaded, and its present
/// registrations, first then second participant, are the ones whose
/// registrant may pass (`Ok(Some(..))`). A failed load is an internal
/// error, a missing match is not found.
pub fn participant_gate_start(
    has_override: bool,
    loaded: Result<Option<(Option<u128>, Option<u128>)>, String>,
) -> (r: Result<Option<Vec<u128>>, ApiError>)
    ensures
        has_override ==> r == Ok::<Option<Vec<u128>>, ApiError>(None),
        !has_override ==> match loaded {
            Err(m) => r matches Err(e) && is_error(e, ErrorKind::Internal, "Failed to load match: "@ + m@),
            Ok(None) => r matches Err(e) && is_error(e, ErrorKind::NotFound, "Match not found"@),
            Ok(Some((p1, p2))) => r matches Ok(Some(v)) && v@ == match (p1, p2) {
                (Some(a), Some(b)) => seq![a, b],
                (Some(a), None) => seq![a],
                (None, Some(b)) => seq![b],
                (None, None) => Seq::<u128>::empty(),
            },
        },
{
    if has_override {
        return Ok(None);
    }
    match loaded {
        Err(m) => {
            let mut msg = String::from_str("Failed to load match: ");
            msg.append(m.as_str());
            Err(ApiError::new(ErrorKind::Internal, msg))
        },
        Ok(None) => Err(ApiError::from_str(ErrorKind::NotFound, "Match not found")),
        Ok(Some((p1, p2))) => Ok(Some(present_registrations(p1, p2))),
    }
}

/// The participant-or-admin gate's answer: the caller passes with the
/// tournament admin override, or when it registered one of the match's
/// participant registrations. `registrants` holds, for each present
/// registration, who registered it (`None` where the registration could not
/// be read). Anyone else is refused, so no logged-in user can stamp results
/// onto a match they do not play in.
pub fn match_participant_or_admin(has_override: bool, registrants: &Vec<Option<u128>>, user: u128) -> (r: Result<(), ApiError>)
    ensures
        r is Ok <==> (has_override || exists|k: int| 0 <= k < registrants@.len() && #[trigger] registrants@[k] == Some(user)),
        r is Err ==> (r matches Err(e) && is_error(e, ErrorKind::Forbidden, "User is not a participant in this match"@)),
{
    if has_override {
        return Ok(());
    }
    let mut i: usize = 0;
    while i < registrants.len()
        invariant
            0 <= i <= registrants@.len(),
            forall|k: int| 0 <= k < i ==> #[trigger] registrants@[k] != Some(user),
        decreases registrants@.len() - i,
    {
        if registrants[i] == Some(user) {
            return Ok(());
        }
        i += 1;
    }
    Err(ApiError::from_str(ErrorKind::Forbidden, "User is not a participant in this match"))
}

/// The registrations a match's context is built from: the first and then
/// the second participant, where present.
pub fn present_registrations(p1: Option<u128>, p2: Option<u128>) -> (r: Vec<u128>)
    ensures
        r@ == match (p1, p2) {
            (Some(a), Some(b)) => seq![a, b],
            (Some(a), None) => seq![a],
            (None, Some(b)) => seq![b],
            (None, None) => Seq::<u128>::empty(),
        },
{
    let mut v: Vec<u128> = Vec::new();
    match p1 {
        Some(a) => v.push(a),
        None => {}
    }
    match p2 {
        Some(b) => v.push(b),
        None => {}
    }
    v
}

/// The most bytes a local upload may carry (64 MiB).
pub const LOCAL_EVIDENCE_MAX_BYTES: usize = 67108864;

/// Whether evidence storage is configured as S3 (`EVIDENCE_STORAGE`,
/// compared ignoring ASCII case).
pub fn is_s3_storage(setting: Option<&str>) -> (r: bool)
    ensures
        r == (setting matches Some(v) && lower(v@) == "s3"@),
{
    match setting {
        Some(v) => {
            let l = to_ascii_lowercase(v);
            str_eq(l.as_str(), "s3")
        }
        None => false,
    }
}

/// `p` has a `..` component at `i` (Unix paths: `/` separates components).
pub open spec fn parent_at(p: Seq<char>, i: int) -> bool {
    &&& 0 <= i && i + 2 <= p.len()
    &&& (i == 0 || p[i - 1] == '/')
    &&& p[i] == '.' && p[i + 1] == '.'
    &&& (i + 2 == p.len() || p[i + 2] == '/')
}

/// `p` has a `..` component.
pub open spec fn has_parent_component(p: Seq<char>) -> bool {
    exists|i: int| parent_at(p, i)
}

/// The first refusal of a local upload, in the order the endpoint checks:
/// disabled in S3 mode, too large, an absolute path, a `..` component, an
/// empty path.
pub open spec fn upload_refusal(s3: bool, len: nat, path: Seq<char>) -> Option<(ErrorKind, Seq<char>)> {
    if s3 {
        Some((ErrorKind::NotFound, "Local upload endpoint disabled in S3 mode"@))
    } else if len > 67108864 {
        Some((ErrorKind::BadRequest, "Upload too large ("@ + decimal_text(len as int) + " bytes; max 67108864)"@))
    } else if path.len() > 0 && path[0] == '/' {
        Some((ErrorKind::BadRequest, "Absolute paths not allowed"@))
    } else if has_parent_component(path) {
        Some((ErrorKind::BadRequest, "Parent directory components not allowed"@))
    } else if path.len() == 0 {
        Some((ErrorKind::BadRequest, "Empty path"@))
    } else {
        None
    }
}

fn has_parent(p: &str) -> (r: bool)
    ensures
        r == has_parent_component(p@),
{
    let n = p.unicode_len();
    let mut i: usize = 0;
    while n >= 2 && i <= n - 2
        invariant
            n == p@.len(),
            0 <= i <= n,
            forall|k: int| 0 <= k < i ==> !parent_at(p@, k),
        decreases n - i,
    {
        let start = i == 0 || p.get_char(i - 1) == '/';
        let end = i + 2 == n || p.get_char(i + 2) == '/';
        if start && end && p.get_char(i) == '.' && p.get_char(i + 1) == '.' {
            assert(parent_at(p@, i as int));
            return true;
        }
        i += 1;
    }
    assert forall|k: int| !parent_at(p@, k) by {
        if 0 <= k && k + 2 <= n {
            assert(k < i);
        }
    }
    false
}

/// Checks a local upload before anything is written; the containment of
/// the resolved path in the uploads directory is checked after it is
/// resolved on disk.
pub fn check_local_upload(s3: bool, body_len: usize, path: &str) -> (r: Result<(), ApiError>)
    ensures
        match upload_refusal(s3, body_len as nat, path@) {
            None => r is Ok,
            Some((k, m)) => r matches Err(e) && is_error(e, k, m),
        },
{
    if s3 {
        return Err(ApiError::from_str(ErrorKind::NotFound, "Local upload endpoint disabled in S3 mode"));
    }
    if body_len > LOCAL_EVIDENCE_MAX_BYTES {
        let mut m = String::from_str("Upload too large (");
        let d = decimal_string(body_len as i128);
        m.append(d.as_str());
        m.append(" bytes; max 67108864)");
        return Err(ApiError::new(ErrorKind::BadRequest, m));
    }
    let n = path.unicode_len();
    if n > 0 && path.get_char(0) == '/' {
        return Err(ApiError::from_str(ErrorKind::BadRequest, "Absolute paths not allowed"));
    }
    if has_parent(path) {
        return Err(ApiError::from_str(ErrorKind::BadRequest, "Parent directory components not allowed"));
    }
    if n == 0 {
        return Err(ApiError::from_str(ErrorKind::BadRequest, "Empty path"));
    }
    Ok(())
}

/// An accepted upload path stays relative and never climbs out of the
/// uploads directory through a `..` component.
pub proof fn accepted_paths_stay_inside(s3: bool, len: nat, path: Seq<char>)
    requires
        upload_refusal(s3, len, path) is None,
    ensures
        !s3,
        len <= 67108864,
        path.len() > 0,
        path[0] != '/',
        forall|i: int| !parent_at(path, i),
{
}

} // verus!
