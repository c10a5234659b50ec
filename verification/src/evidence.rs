//! Evidence: validating a claimed game score against a catalogued demo,
//! with the demo's teams tied to the match participants by Steam id.

use vstd::prelude::*;
use crate::text::{decimal_string, decimal_text};

verus! {

/// The parsed result a catalogued demo carries.
#[derive(Debug)]
pub struct DemoResultMeta {
    pub map_name: String,
    pub team1_name: String,
    pub team2_name: String,
    pub team1_score: i32,
    pub team2_score: i32,
    pub duration_seconds: Option<i32>,
}

/// One player row of a catalogued demo.
#[derive(Debug)]
pub struct DemoPlayerRow {
    pub steam_id: String,
    pub team_name: Option<String>,
}

/// The Steam ids known for one match participant.
#[derive(Debug)]
pub struct ParticipantSteamIds {
    pub steam_ids: Vec<String>,
}

/// How far a verdict can be trusted: an exact match against the catalog
/// (0.9), a match only with sides swapped (0.5), or a contradiction (0.0).
#[derive(Debug, Clone, Copy, PartialEq, Eq, Structural)]
pub enum Confidence {
    CatalogExact,
    SidesSwapped,
    Contradicted,
}

/// The demo's result oriented to the match participants.
#[derive(Debug)]
pub struct ExtractedResult {
    pub map_id: String,
    pub participant1_score: i32,
    pub participant2_score: i32,
    pub duration_seconds: i32,
}

/// The verdict on a claimed score.
#[derive(Debug)]
pub struct CatalogValidation {
    pub is_valid: bool,
    pub confidence: Confidence,
    pub extracted_result: ExtractedResult,
    pub warnings: Vec<String>,
    pub errors: Vec<String>,
}

/// The texts of a list of strings.
pub open spec fn texts(v: Seq<String>) -> Seq<Seq<char>> {
    v.map_values(|s: String| s@)
}

/// Some id of `ids` has the text `id`.
pub open spec fn has_id(ids: Seq<String>, id: Seq<char>) -> bool {
    exists|k: int| 0 <= k < ids.len() && (#[trigger] ids[k])@ == id
}

/// A demo player who is one of the participant's Steam ids and sits on
/// team `team`.
pub open spec fn on_team(p: DemoPlayerRow, ids: Seq<String>, team: Seq<char>) -> bool {
    has_id(ids, p.steam_id@) && (p.team_name matches Some(t) && t@ == team)
}

/// How many of the participant's players sit on team `team`.
pub open spec fn team_count(players: Seq<DemoPlayerRow>, ids: Seq<String>, team: Seq<char>) -> nat
    decreases players.len(),
{
    if players.len() == 0 {
        0
    } else {
        team_count(players.drop_last(), ids, team) + (if on_team(players.last(), ids, team) { 1nat } else { 0nat })
    }
}

/// `team` holds strictly more of the participant's players than any other
/// team, and at least one.
pub open spec fn decisive_team(players: Seq<DemoPlayerRow>, ids: Seq<String>, team: Seq<char>) -> bool {
    team_count(players, ids, team) > 0
        && forall|u: Seq<char>| u != team ==> #[trigger] team_count(players, ids, u) < team_count(players, ids, team)
}

proof fn lemma_team_count_positive(players: Seq<DemoPlayerRow>, ids: Seq<String>, team: Seq<char>)
    requires
        team_count(players, ids, team) > 0,
    ensures
        exists|i: int| 0 <= i < players.len() && on_team(#[trigger] players[i], ids, team),
    decreases players.len(),
{
    if on_team(players.last(), ids, team) {
        assert(on_team(players[players.len() - 1], ids, team));
    } else {
        lemma_team_count_positive(players.drop_last(), ids, team);
        let i = choose|i: int| 0 <= i < players.drop_last().len() && on_team(#[trigger] players.drop_last()[i], ids, team);
        assert(players[i] == players.drop_last()[i]);
    }
}

fn contains_id(ids: &Vec<String>, id: &String) -> (r: bool)
    ensures
        r == has_id(ids@, id@),
{
    let n = ids.len();
    let mut k: usize = 0;
    while k < n
        invariant
            n == ids@.len(),
            0 <= k <= n,
            forall|j: int| 0 <= j < k ==> (#[trigger] ids@[j])@ != id@,
        decreases n - k,
    {
        if ids[k] == *id {
            return true;
        }
        k += 1;
    }
    false
}

fn count_on_team(players: &Vec<DemoPlayerRow>, ids: &Vec<String>, team: &String) -> (r: usize)
    ensures
        r == team_count(players@, ids@, team@),
{
    let n = players.len();
    let mut c: usize = 0;
    let mut i: usize = 0;
    assert(players@.subrange(0, 0) =~= Seq::<DemoPlayerRow>::empty());
    while i < n
        invariant
            n == players@.len(),
            0 <= i <= n,
            c <= i,
            c == team_count(players@.subrange(0, i as int), ids@, team@),
        decreases n - i,
    {
        let p = &players[i];
        let hit = match &p.team_name {
            Some(t) => *t == *team && contains_id(ids, &p.steam_id),
            None => false,
        };
        assert(players@.subrange(0, i + 1).drop_last() =~= players@.subrange(0, i as int));
        if hit {
            c += 1;
        }
        i += 1;
    }
    assert(players@.subrange(0, n as int) =~= players@);
    c
}

/// Which demo team a participant's Steam ids sit on, when one team holds
/// strictly more of them than any other.
pub fn team_of(participant: &ParticipantSteamIds, players: &Vec<DemoPlayerRow>) -> (r: Option<String>)
    ensures
        match r {
            Some(t) => decisive_team(players@, participant.steam_ids@, t@),
            None => forall|t: Seq<char>| !decisive_team(players@, participant.steam_ids@, t),
        },
{
    let ids = &participant.steam_ids;
    let n = players.len();
    let mut best: Option<String> = None;
    let mut best_count: usize = 0;
    let mut tie = false;
    let mut i: usize = 0;
    while i < n
        invariant
            n == players@.len(),
            0 <= i <= n,
            best is None ==> best_count == 0 && !tie,
            best is Some ==> best_count == team_count(players@, ids@, best->0@) && best_count > 0,
            // Every team seen so far counts at most `best_count`.
            forall|j: int| 0 <= j < i && (#[trigger] players@[j]).team_name is Some
                && has_id(ids@, players@[j].steam_id@)
                ==> team_count(players@, ids@, players@[j].team_name->0@) <= best_count,
            // `tie` says some other team seen so far reaches `best_count`.
            tie ==> best is Some && exists|u: Seq<char>| u != best->0@
                && #[trigger] team_count(players@, ids@, u) == best_count,
            !tie && best is Some ==> forall|j: int| 0 <= j < i
                && (#[trigger] players@[j]).team_name is Some && has_id(ids@, players@[j].steam_id@)
                && players@[j].team_name->0@ != best->0@
                ==> team_count(players@, ids@, players@[j].team_name->0@) < best_count,
        decreases n - i,
    {
        let p = &players[i];
        match &p.team_name {
            Some(t) => {
                if contains_id(ids, &p.steam_id) {
                    let c = count_on_team(players, ids, t);
                    proof {
                        assert(on_team(players@[i as int], ids@, t@));
                        assert(team_count(players@, ids@, t@) > 0) by {
                            lemma_on_team_counts(players@, ids@, t@, i as int);
                        }
                    }
                    let same = match &best {
                        Some(b) => *b == *t,
                        None => false,
                    };
                    if c > best_count {
                        best = Some(t.clone());
                        best_count = c;
                        tie = false;
                    } else if c == best_count && !same {
                        tie = true;
                    }
                }
            }
            None => {}
        }
        i += 1;
    }
    proof {
        assert forall|u: Seq<char>| u != (best->0)@ && best is Some && !tie implies
            #[trigger] team_count(players@, ids@, u) < best_count by {
            if team_count(players@, ids@, u) > 0 {
                lemma_team_count_positive(players@, ids@, u);
                let j = choose|j: int| 0 <= j < players@.len() && on_team(#[trigger] players@[j], ids@, u);
                assert(players@[j].team_name->0@ == u);
            }
        }
        if best is None {
            assert forall|t: Seq<char>| !decisive_team(players@, ids@, t) by {
                if team_count(players@, ids@, t) > 0 {
                    lemma_team_count_positive(players@, ids@, t);
                    let j = choose|j: int| 0 <= j < players@.len() && on_team(#[trigger] players@[j], ids@, t);
                    assert(players@[j].team_name->0@ == t);
                }
            }
        }
        if tie {
            let b = best->0;
            let u = choose|u: Seq<char>| u != b@ && #[trigger] team_count(players@, ids@, u) == best_count;
            assert forall|t: Seq<char>| !decisive_team(players@, ids@, t) by {
                if decisive_team(players@, ids@, t) {
                    if t != b@ {
                        assert(team_count(players@, ids@, b@) < team_count(players@, ids@, t));
                        if team_count(players@, ids@, t) > 0 {
                            lemma_team_count_positive(players@, ids@, t);
                            let j = choose|j: int| 0 <= j < players@.len() && on_team(#[trigger] players@[j], ids@, t);
                            assert(players@[j].team_name->0@ == t);
                        }
                    } else {
                        assert(team_count(players@, ids@, u) < team_count(players@, ids@, t));
                    }
                }
            }
        }
    }
    if tie {
        None
    } else {
        best
    }
}

proof fn lemma_on_team_counts(players: Seq<DemoPlayerRow>, ids: Seq<String>, team: Seq<char>, i: int)
    requires
        0 <= i < players.len(),
        on_team(players[i], ids, team),
    ensures
        team_count(players, ids, team) > 0,
    decreases players.len(),
{
    if i == players.len() - 1 {
    } else {
        assert(players.drop_last()[i] == players[i]);
        lemma_on_team_counts(players.drop_last(), ids, team, i);
    }
}

/// The demo score of `team`, when it is one of the demo's two team names.
pub open spec fn score_of(meta: DemoResultMeta, team: Seq<char>) -> Option<i32> {
    if team == meta.team1_name@ {
        Some(meta.team1_score)
    } else if team == meta.team2_name@ {
        Some(meta.team2_score)
    } else {
        None
    }
}

/// The demo's scores oriented to participant 1 / participant 2: when both
/// participants have a decisive demo team, the two teams differ, and both
/// are the demo's named teams.
pub open spec fn oriented_scores(
    meta: DemoResultMeta,
    players: Seq<DemoPlayerRow>,
    participants: Seq<ParticipantSteamIds>,
) -> Option<(i32, i32)> {
    if participants.len() >= 2 && exists|t1: Seq<char>, t2: Seq<char>|
        decisive_team(players, participants[0].steam_ids@, t1)
        && decisive_team(players, participants[1].steam_ids@, t2) && t1 != t2
        && score_of(meta, t1) is Some && score_of(meta, t2) is Some
    {
        let (t1, t2) = choose|t1: Seq<char>, t2: Seq<char>|
            decisive_team(players, participants[0].steam_ids@, t1)
            && decisive_team(players, participants[1].steam_ids@, t2) && t1 != t2
            && score_of(meta, t1) is Some && score_of(meta, t2) is Some;
        Some((score_of(meta, t1)->0, score_of(meta, t2)->0))
    } else {
        None
    }
}

proof fn lemma_decisive_unique(players: Seq<DemoPlayerRow>, ids: Seq<String>, a: Seq<char>, b: Seq<char>)
    requires
        decisive_team(players, ids, a),
        decisive_team(players, ids, b),
    ensures
        a == b,
{
    if a != b {
        assert(team_count(players, ids, b) < team_count(players, ids, a));
        assert(team_count(players, ids, a) < team_count(players, ids, b));
    }
}

/// The warning given when the demo's teams cannot be tied to participants.
pub open spec fn unmapped_warning() -> Seq<char> {
    "Could not map demo teams to match participants by Steam ID; scores compared without side assignment"@
}

/// The warning given when only swapped sides match the claim.
pub open spec fn swapped_warning(d1: i32, d2: i32, c1: i32, c2: i32) -> Seq<char> {
    "Demo scores "@ + decimal_text(d1 as int) + "-"@ + decimal_text(d2 as int) + " match the claim "@
        + decimal_text(c1 as int) + "-"@ + decimal_text(c2 as int) + " only with sides swapped"@
}

/// The error given when the demo contradicts the claim.
pub open spec fn contradiction_error(map: Seq<char>, d1: i32, d2: i32, c1: i32, c2: i32) -> Seq<char> {
    "Demo on "@ + map + " records "@ + decimal_text(d1 as int) + " - "@ + decimal_text(d2 as int)
        + ", but the claimed result is "@ + decimal_text(c1 as int) + " - "@ + decimal_text(c2 as int)
}

/// Whether a catalogued demo supports a claimed scoreline: the scores
/// (oriented when the sides map to participants, else in demo order) equal
/// the claim, or equal it with sides swapped when they could not be mapped.
pub open spec fn catalog_valid(
    meta: DemoResultMeta,
    players: Seq<DemoPlayerRow>,
    participants: Seq<ParticipantSteamIds>,
    c1: i32,
    c2: i32,
) -> bool {
    let oriented = oriented_scores(meta, players, participants);
    let d1 = match oriented { Some(p) => p.0, None => meta.team1_score };
    let d2 = match oriented { Some(p) => p.1, None => meta.team2_score };
    (d1 == c1 && d2 == c2) || (oriented is None && d1 == c2 && d2 == c1)
}

/// When the demo's sides map to the participants, only the exact
/// scoreline is accepted: a claim with the sides swapped is refused. When
/// they do not map, the comparison cannot tell the sides apart, so a claim
/// and its swap are judged alike.
pub proof fn mapped_sides_are_strict(
    meta: DemoResultMeta,
    players: Seq<DemoPlayerRow>,
    participants: Seq<ParticipantSteamIds>,
    c1: i32,
    c2: i32,
)
    ensures
        oriented_scores(meta, players, participants) matches Some(p) ==> (catalog_valid(meta, players, participants, c1, c2)
            <==> (p.0 == c1 && p.1 == c2)),
        oriented_scores(meta, players, participants) is None ==> (catalog_valid(meta, players, participants, c1, c2)
            <==> catalog_valid(meta, players, participants, c2, c1)),
{
}

fn score_for(meta: &DemoResultMeta, team: &String) -> (r: Option<i32>)
    ensures
        r == score_of(*meta, team@),
{
    if *team == meta.team1_name {
        Some(meta.team1_score)
    } else if *team == meta.team2_name {
        Some(meta.team2_score)
    } else {
        None
    }
}

fn append_int(s: &mut String, v: i32)
    ensures
        final(s)@ == old(s)@ + decimal_text(v as int),
{
    let d = decimal_string(v as i128);
    s.append(d.as_str());
}

/// Compare a catalogued demo's parsed result against a claimed scoreline.
///
/// The demo's players are joined to the participants by Steam id; when that
/// join is decisive for both sides the demo scores are oriented, otherwise
/// they are compared in demo order and a warning says so. An exact match is
/// valid; a match only with sides swapped is valid when the sides could not
/// be oriented; anything else contradicts the claim.
pub fn validate_against_catalog(
    meta: &DemoResultMeta,
    players: &Vec<DemoPlayerRow>,
    participants: &Vec<ParticipantSteamIds>,
    claimed_p1: i32,
    claimed_p2: i32,
) -> (r: CatalogValidation)
    ensures
        ({
            let oriented = oriented_scores(*meta, players@, participants@);
            let d1 = match oriented { Some(p) => p.0, None => meta.team1_score };
            let d2 = match oriented { Some(p) => p.1, None => meta.team2_score };
            let base: Seq<Seq<char>> = if oriented is None { seq![unmapped_warning()] } else { seq![] };
            let exact = d1 == claimed_p1 && d2 == claimed_p2;
            let swapped = d1 == claimed_p2 && d2 == claimed_p1;
            &&& r.is_valid == catalog_valid(*meta, players@, participants@, claimed_p1, claimed_p2)
            &&& r.extracted_result.map_id@ == meta.map_name@
            &&& r.extracted_result.participant1_score == d1
            &&& r.extracted_result.participant2_score == d2
            &&& r.extracted_result.duration_seconds == (match meta.duration_seconds {
                Some(s) => s,
                None => 0,
            })
            &&& if exact {
                &&& r.is_valid
                &&& r.confidence == Confidence::CatalogExact
                &&& texts(r.warnings@) == base
                &&& r.errors@.len() == 0
            } else if swapped && oriented is None {
                &&& r.is_valid
                &&& r.confidence == Confidence::SidesSwapped
                &&& texts(r.warnings@) == base.push(swapped_warning(d1, d2, claimed_p1, claimed_p2))
                &&& r.errors@.len() == 0
            } else {
                &&& !r.is_valid
                &&& r.confidence == Confidence::Contradicted
                &&& texts(r.warnings@) == base
                &&& texts(r.errors@) == seq![contradiction_error(meta.map_name@, d1, d2, claimed_p1, claimed_p2)]
            }
        }),
{
    let oriented = orient(meta, players, participants);
    let mut warnings: Vec<String> = Vec::new();
    let (d1, d2) = match oriented {
        Some(p) => p,
        None => {
            warnings.push(String::from_str("Could not map demo teams to match participants by Steam ID; scores compared without side assignment"));
            (meta.team1_score, meta.team2_score)
        }
    };
    proof {
        reveal_strlit("Could not map demo teams to match participants by Steam ID; scores compared without side assignment");
        assert(texts(warnings@) =~= (if oriented is None { seq![unmapped_warning()] } else { Seq::<Seq<char>>::empty() }));
    }
    let extracted = ExtractedResult {
        map_id: meta.map_name.clone(),
        participant1_score: d1,
        participant2_score: d2,
        duration_seconds: match meta.duration_seconds {
            Some(s) => s,
            None => 0,
        },
    };
    let exact = d1 == claimed_p1 && d2 == claimed_p2;
    let swapped = d1 == claimed_p2 && d2 == claimed_p1;
    if exact {
        return CatalogValidation {
            is_valid: true,
            confidence: Confidence::CatalogExact,
            extracted_result: extracted,
            warnings,
            errors: Vec::new(),
        };
    }
    if swapped && oriented.is_none() {
        let mut w = String::from_str("Demo scores ");
        append_int(&mut w, d1);
        w.append("-");
        append_int(&mut w, d2);
        w.append(" match the claim ");
        append_int(&mut w, claimed_p1);
        w.append("-");
        append_int(&mut w, claimed_p2);
        w.append(" only with sides swapped");
        let ghost before = texts(warnings@);
        warnings.push(w);
        assert(texts(warnings@) =~= before.push(w@));
        return CatalogValidation {
            is_valid: true,
            confidence: Confidence::SidesSwapped,
            extracted_result: extracted,
            warnings,
            errors: Vec::new(),
        };
    }
    let mut e = String::from_str("Demo on ");
    e.append(meta.map_name.as_str());
    e.append(" records ");
    append_int(&mut e, d1);
    e.append(" - ");
    append_int(&mut e, d2);
    e.append(", but the claimed result is ");
    append_int(&mut e, claimed_p1);
    e.append(" - ");
    append_int(&mut e, claimed_p2);
    let mut errors: Vec<String> = Vec::new();
    errors.push(e);
    assert(texts(errors@) =~= seq![e@]);
    CatalogValidation {
        is_valid: false,
        confidence: Confidence::Contradicted,
        extracted_result: extracted,
        warnings,
        errors,
    }
}

/// The demo scores oriented to the participants, when the Steam-id join is
/// decisive for both and puts them on the two named demo teams.
fn orient(
    meta: &DemoResultMeta,
    players: &Vec<DemoPlayerRow>,
    participants: &Vec<ParticipantSteamIds>,
) -> (r: Option<(i32, i32)>)
    ensures
        r == oriented_scores(*meta, players@, participants@),
{
    if participants.len() < 2 {
        return None;
    }
    let t1 = team_of(&participants[0], players);
    let t2 = team_of(&participants[1], players);
    let mut oriented: Option<(i32, i32)> = None;
    match (&t1, &t2) {
        (Some(a), Some(b)) => {
            if !(*a == *b) {
                match (score_for(meta, a), score_for(meta, b)) {
                    (Some(x), Some(y)) => {
                        oriented = Some((x, y));
                    }
                    _ => {}
                }
            }
        }
        _ => {}
    }
    proof {
        let ps = participants@;
        let i0 = ps[0].steam_ids@;
        let i1 = ps[1].steam_ids@;
        if exists|u1: Seq<char>, u2: Seq<char>|
            decisive_team(players@, i0, u1)
            && decisive_team(players@, i1, u2) && u1 != u2
            && score_of(*meta, u1) is Some && score_of(*meta, u2) is Some
        {
            let (u1, u2) = choose|u1: Seq<char>, u2: Seq<char>|
                decisive_team(players@, i0, u1)
                && decisive_team(players@, i1, u2) && u1 != u2
                && score_of(*meta, u1) is Some && score_of(*meta, u2) is Some;
            assert(t1 is Some);
            assert(t2 is Some);
            lemma_decisive_unique(players@, i0, u1, t1->0@);
            lemma_decisive_unique(players@, i1, u2, t2->0@);
        } else {
            if t1 is Some && t2 is Some && t1->0@ != t2->0@
                && score_of(*meta, t1->0@) is Some && score_of(*meta, t2->0@) is Some {
                assert(decisive_team(players@, i0, t1->0@));
                assert(decisive_team(players@, i1, t2->0@));
            }
        }
    }
    oriented
}

} // verus!
