//! Game administration: the map catalogue and map pool, rank tiers, team
//! sizes, and where a game's maps and tiers come from.

use vstd::prelude::*;
use crate::api_error::{ApiError, ErrorKind, is_error};
use crate::text::{decimal_text, decimal_string, str_eq};
use crate::json::Json;

verus! {

/// A map of a game's catalogue.
#[derive(Debug)]
pub struct MapInfo {
    pub id: String,
    pub display_name: String,
    pub image_url: Option<String>,
    pub game_modes: Vec<String>,
    pub external_id: Option<String>,
    pub external_url: Option<String>,
}

/// The two maps hold the same text in every field.
pub open spec fn same_map(a: MapInfo, b: MapInfo) -> bool {
    &&& a.id@ == b.id@
    &&& a.display_name@ == b.display_name@
    &&& a.image_url == b.image_url
    &&& a.game_modes@ == b.game_modes@
    &&& a.external_id == b.external_id
    &&& a.external_url == b.external_url
}

/// A copy of a map.
pub fn copy_map(m: &MapInfo) -> (r: MapInfo)
    ensures
        same_map(r, *m),
{
    let modes = m.game_modes.clone();
    assert(modes@ =~= m.game_modes@);
    MapInfo {
        id: m.id.clone(),
        display_name: m.display_name.clone(),
        image_url: m.image_url.clone(),
        game_modes: modes,
        external_id: m.external_id.clone(),
        external_url: m.external_url.clone(),
    }
}

/// Some map of `s` has the id `id`.
pub open spec fn has_map(s: Seq<MapInfo>, id: Seq<char>) -> bool {
    exists|k: int| 0 <= k < s.len() && (#[trigger] s[k]).id@ == id
}

/// `k` is the first map of `s` with the id `id`.
pub open spec fn first_with_id(s: Seq<MapInfo>, id: Seq<char>, k: int) -> bool {
    &&& 0 <= k < s.len()
    &&& s[k].id@ == id
    &&& forall|j: int| 0 <= j < k ==> (#[trigger] s[j]).id@ != id
}

/// The index of the first map of `maps` with the id `id`, if any.
pub fn find_map(maps: &Vec<MapInfo>, id: &str) -> (r: Option<usize>)
    ensures
        match r {
            Some(k) => first_with_id(maps@, id@, k as int),
            None => !has_map(maps@, id@),
        },
{
    let n = maps.len();
    let mut i: usize = 0;
    while i < n
        invariant
            n == maps@.len(),
            0 <= i <= n,
            forall|j: int| 0 <= j < i ==> (#[trigger] maps@[j]).id@ != id@,
        decreases n - i,
    {
        if str_eq(maps[i].id.as_str(), id) {
            return Some(i);
        }
        i += 1;
    }
    None
}

/// The conflict answer for a map id already in the catalogue.
pub open spec fn duplicate_map_message(id: Seq<char>) -> Seq<char> {
    "Map with ID '"@ + id + "' already exists"@
}

/// The not-found answer for a map id missing from the catalogue.
pub open spec fn missing_map_message(id: Seq<char>) -> Seq<char> {
    "Map not found: "@ + id
}

/// Appends a map to the catalogue; a conflict, with the catalogue
/// unchanged, when its id is already there.
pub fn add_map(maps: &mut Vec<MapInfo>, map: MapInfo) -> (r: Result<(), ApiError>)
    ensures
        has_map(old(maps)@, map.id@) ==> (r matches Err(e) && is_error(e, ErrorKind::Conflict, duplicate_map_message(map.id@))
            && final(maps)@ == old(maps)@),
        !has_map(old(maps)@, map.id@) ==> (r is Ok && final(maps)@ == old(maps)@.push(map)),
{
    match find_map(maps, map.id.as_str()) {
        Some(_) => {
            let mut m = String::from_str("Map with ID '");
            m.append(map.id.as_str());
            m.append("' already exists");
            Err(ApiError::new(ErrorKind::Conflict, m))
        }
        None => {
            maps.push(map);
            Ok(())
        }
    }
}

/// The fields of a map update; each one given replaces the stored one.
#[derive(Debug)]
pub struct MapPatch {
    pub display_name: Option<String>,
    pub image_url: Option<String>,
    pub game_modes: Option<Vec<String>>,
    pub external_id: Option<String>,
    pub external_url: Option<String>,
}

/// `new` is `old` with the fields that `patch` gives replaced.
pub open spec fn patched(old: MapInfo, patch: MapPatch, new: MapInfo) -> bool {
    &&& new.id@ == old.id@
    &&& new.display_name@ == (match patch.display_name { Some(d) => d@, None => old.display_name@ })
    &&& new.image_url == (match patch.image_url { Some(u) => Some(u), None => old.image_url })
    &&& new.game_modes@ == (match patch.game_modes { Some(g) => g@, None => old.game_modes@ })
    &&& new.external_id == (match patch.external_id { Some(x) => Some(x), None => old.external_id })
    &&& new.external_url == (match patch.external_url { Some(u) => Some(u), None => old.external_url })
}

/// Applies an update to the first map with the id `map_id` and answers the
/// updated map; not found, with the catalogue unchanged, when there is none.
pub fn update_map(maps: &mut Vec<MapInfo>, map_id: &str, patch: MapPatch) -> (r: Result<MapInfo, ApiError>)
    ensures
        !has_map(old(maps)@, map_id@) ==> (r matches Err(e) && is_error(e, ErrorKind::NotFound, missing_map_message(map_id@))
            && final(maps)@ == old(maps)@),
        has_map(old(maps)@, map_id@) ==> exists|k: int| {
            &&& first_with_id(old(maps)@, map_id@, k)
            &&& final(maps)@.len() == old(maps)@.len()
            &&& forall|j: int| 0 <= j < old(maps)@.len() && j != k ==> final(maps)@[j] == old(maps)@[j]
            &&& patched(old(maps)@[k], patch, final(maps)@[k])
            &&& r matches Ok(m) && same_map(m, final(maps)@[k])
        },
{
    let k = match find_map(maps, map_id) {
        Some(k) => k,
        None => {
            let mut m = String::from_str("Map not found: ");
            m.append(map_id);
            return Err(ApiError::new(ErrorKind::NotFound, m));
        }
    };
    let old_map = copy_map(&maps[k]);
    let game_modes = match patch.game_modes {
        Some(g) => g,
        None => {
            let g = old_map.game_modes.clone();
            assert(g@ =~= old_map.game_modes@);
            g
        }
    };
    let new_map = MapInfo {
        id: old_map.id,
        display_name: match patch.display_name {
            Some(d) => d,
            None => old_map.display_name,
        },
        image_url: match patch.image_url {
            Some(u) => Some(u),
            None => old_map.image_url,
        },
        game_modes,
        external_id: match patch.external_id {
            Some(x) => Some(x),
            None => old_map.external_id,
        },
        external_url: match patch.external_url {
            Some(u) => Some(u),
            None => old_map.external_url,
        },
    };
    let answer = copy_map(&new_map);
    maps.set(k, new_map);
    assert(first_with_id(old(maps)@, map_id@, k as int));
    Ok(answer)
}

/// The catalogue without the maps whose id is `id`.
pub open spec fn without_map(s: Seq<MapInfo>, id: Seq<char>) -> Seq<MapInfo>
    decreases s.len(),
{
    if s.len() == 0 {
        s
    } else if s[0].id@ == id {
        without_map(s.drop_first(), id)
    } else {
        seq![s[0]] + without_map(s.drop_first(), id)
    }
}

proof fn lemma_without_absent(s: Seq<MapInfo>, id: Seq<char>)
    requires
        !has_map(s, id),
    ensures
        without_map(s, id) == s,
    decreases s.len(),
{
    if s.len() > 0 {
        assert(s[0] == s[0]);
        assert(!has_map(s.drop_first(), id)) by {
            if has_map(s.drop_first(), id) {
                let k = choose|k: int| 0 <= k < s.drop_first().len() && (#[trigger] s.drop_first()[k]).id@ == id;
                assert(s[k + 1] == s.drop_first()[k]);
            }
        }
        lemma_without_absent(s.drop_first(), id);
        assert(seq![s[0]] + s.drop_first() =~= s);
    }
}

/// Removes every map with the id `map_id`; not found, with the catalogue
/// unchanged, when there is none.
pub fn remove_map(maps: &mut Vec<MapInfo>, map_id: &str) -> (r: Result<(), ApiError>)
    ensures
        final(maps)@ == without_map(old(maps)@, map_id@),
        has_map(old(maps)@, map_id@) ==> r is Ok,
        !has_map(old(maps)@, map_id@) ==> (r matches Err(e) && is_error(e, ErrorKind::NotFound, missing_map_message(map_id@))
            && final(maps)@ == old(maps)@),
{
    let ghost orig = maps@;
    let n = maps.len();
    let mut i: usize = n;
    let mut removed = false;
    assert(orig.subrange(n as int, n as int) =~= Seq::<MapInfo>::empty());
    assert(orig.subrange(0, n as int) =~= orig);
    while i > 0
        invariant
            n == orig.len(),
            0 <= i <= n,
            maps@ == orig.subrange(0, i as int) + without_map(orig.subrange(i as int, n as int), map_id@),
            removed <==> exists|k: int| i <= k < n && (#[trigger] orig[k]).id@ == map_id@,
        decreases i,
    {
        let j = i - 1;
        let ghost tail = orig.subrange(j as int, n as int);
        assert(tail.drop_first() =~= orig.subrange(i as int, n as int));
        assert(tail[0] == orig[j as int]);
        assert(maps@[j as int] == orig[j as int]);
        if str_eq(maps[j].id.as_str(), map_id) {
            maps.remove(j);
            removed = true;
            assert(maps@ =~= orig.subrange(0, j as int) + without_map(tail, map_id@));
        } else {
            assert(maps@ =~= orig.subrange(0, j as int) + without_map(tail, map_id@));
        }
        i = j;
    }
    assert(orig.subrange(0, 0) + without_map(orig, map_id@) =~= without_map(orig, map_id@));
    if !removed {
        proof {
            assert(!has_map(orig, map_id@));
            lemma_without_absent(orig, map_id@);
        }
        let mut m = String::from_str("Map not found: ");
        m.append(map_id);
        return Err(ApiError::new(ErrorKind::NotFound, m));
    }
    assert(has_map(orig, map_id@));
    Ok(())
}

/// Removing a map leaves no map with its id, and keeps every map with
/// another id.
pub proof fn removed_map_is_gone(s: Seq<MapInfo>, id: Seq<char>)
    ensures
        !has_map(without_map(s, id), id),
        forall|k: int| 0 <= k < s.len() && (#[trigger] s[k]).id@ != id ==> without_map(s, id).contains(s[k]),
    decreases s.len(),
{
    if s.len() > 0 {
        let rest = s.drop_first();
        removed_map_is_gone(rest, id);
        let w = without_map(s, id);
        assert forall|k: int| 0 <= k < s.len() && (#[trigger] s[k]).id@ != id implies w.contains(s[k]) by {
            if k == 0 {
                assert(w[0] == s[0]);
            } else {
                assert(s[k] == rest[k - 1]);
                let i = choose|i: int| 0 <= i < without_map(rest, id).len() && without_map(rest, id)[i] == rest[k - 1];
                if s[0].id@ == id {
                    assert(w[i] == s[k]);
                } else {
                    assert(w[i + 1] == s[k]);
                }
            }
        }
        if has_map(w, id) {
            let k = choose|k: int| 0 <= k < w.len() && (#[trigger] w[k]).id@ == id;
            if s[0].id@ != id {
                assert(w[k] == without_map(rest, id)[k - 1]);
            }
        }
    }
}

/// Adding a map puts it at the end of the catalogue and keeps every map
/// that was there.
pub proof fn added_map_is_listed(s: Seq<MapInfo>, m: MapInfo)
    ensures
        has_map(s.push(m), m.id@),
        forall|k: int| 0 <= k < s.len() ==> s.push(m)[k] == s[k],
{
    assert(s.push(m)[s.len() as int] == m);
}

/// The maps of the catalogue that the pool names, in catalogue order.
pub open spec fn pool_of(catalog: Seq<MapInfo>, ids: Seq<String>) -> Seq<MapInfo>
    decreases catalog.len(),
{
    if catalog.len() == 0 {
        catalog
    } else if exists|j: int| 0 <= j < ids.len() && (#[trigger] ids[j])@ == catalog.last().id@ {
        pool_of(catalog.drop_last(), ids).push(catalog.last())
    } else {
        pool_of(catalog.drop_last(), ids)
    }
}

/// `k` is the first requested id that the catalogue lacks.
pub open spec fn first_unknown(catalog: Seq<MapInfo>, ids: Seq<String>, k: int) -> bool {
    &&& 0 <= k < ids.len()
    &&& !has_map(catalog, ids[k]@)
    &&& forall|j: int| 0 <= j < k ==> has_map(catalog, (#[trigger] ids[j])@)
}

fn lists_id(ids: &Vec<String>, id: &str) -> (r: bool)
    ensures
        r == exists|j: int| 0 <= j < ids@.len() && (#[trigger] ids@[j])@ == id@,
{
    let n = ids.len();
    let mut i: usize = 0;
    while i < n
        invariant
            n == ids@.len(),
            0 <= i <= n,
            forall|j: int| 0 <= j < i ==> (#[trigger] ids@[j])@ != id@,
        decreases n - i,
    {
        if str_eq(ids[i].as_str(), id) {
            return true;
        }
        i += 1;
    }
    false
}

/// The new map pool of a game: refused when the game's plugin does not
/// allow custom pools (`custom_pools` is `None` without a plugin), or with
/// the first requested id the catalogue lacks; else the catalogue maps the
/// pool names, in catalogue order.
pub fn set_map_pool(catalog: &Vec<MapInfo>, map_ids: &Vec<String>, custom_pools: Option<bool>) -> (r: Result<Vec<MapInfo>, ApiError>)
    ensures
        custom_pools == Some(false) ==> (r matches Err(e)
            && is_error(e, ErrorKind::BadRequest, "This game does not support custom map pools"@)),
        custom_pools != Some(false) ==> match r {
            Ok(pool) => (forall|j: int| 0 <= j < map_ids@.len() ==> has_map(catalog@, (#[trigger] map_ids@[j])@))
                && pool@.len() == pool_of(catalog@, map_ids@).len()
                && forall|k: int| 0 <= k < pool@.len() ==> same_map(#[trigger] pool@[k], pool_of(catalog@, map_ids@)[k]),
            Err(e) => exists|k: int| first_unknown(catalog@, map_ids@, k)
                && is_error(e, ErrorKind::BadRequest, "Unknown map: "@ + map_ids@[k]@),
        },
{
    if custom_pools == Some(false) {
        return Err(ApiError::from_str(ErrorKind::BadRequest, "This game does not support custom map pools"));
    }
    let n = map_ids.len();
    let mut i: usize = 0;
    while i < n
        invariant
            n == map_ids@.len(),
            0 <= i <= n,
            custom_pools != Some(false),
            forall|j: int| 0 <= j < i ==> has_map(catalog@, (#[trigger] map_ids@[j])@),
        decreases n - i,
    {
        if find_map(catalog, map_ids[i].as_str()).is_none() {
            let mut m = String::from_str("Unknown map: ");
            m.append(map_ids[i].as_str());
            assert(first_unknown(catalog@, map_ids@, i as int));
            return Err(ApiError::new(ErrorKind::BadRequest, m));
        }
        i += 1;
    }
    let c = catalog.len();
    let mut pool: Vec<MapInfo> = Vec::new();
    let mut t: usize = 0;
    while t < c
        invariant
            c == catalog@.len(),
            0 <= t <= c,
            pool@.len() == pool_of(catalog@.subrange(0, t as int), map_ids@).len(),
            forall|k: int| 0 <= k < pool@.len()
                ==> same_map(#[trigger] pool@[k], pool_of(catalog@.subrange(0, t as int), map_ids@)[k]),
        decreases c - t,
    {
        let ghost pre = catalog@.subrange(0, t + 1);
        let ghost before = pool@;
        assert(pre.drop_last() =~= catalog@.subrange(0, t as int));
        assert(pre.last() == catalog@[t as int]);
        if lists_id(map_ids, catalog[t].id.as_str()) {
            let m = copy_map(&catalog[t]);
            pool.push(m);
            assert forall|k: int| 0 <= k < pool@.len() implies same_map(#[trigger] pool@[k], pool_of(pre, map_ids@)[k]) by {
                if k < before.len() {
                    assert(pool@[k] == before[k]);
                }
            }
        }
        t += 1;
    }
    assert(catalog@.subrange(0, c as int) =~= catalog@);
    Ok(pool)
}

/// A rank tier of a game.
#[derive(Debug)]
pub struct RankTier {
    pub id: String,
    pub display_name: String,
    pub min_rating: i32,
    pub max_rating: Option<i32>,
    pub color: Option<String>,
    pub icon_url: Option<String>,
    pub order: i32,
}

/// What is wrong with one tier of a list.
#[derive(Debug, Clone, Copy, PartialEq, Eq, Structural)]
pub enum TierFault {
    /// It starts at or below the previous tier's maximum.
    Overlap(i32),
    /// Its maximum lies below its minimum.
    Inverted(i32),
}

/// The maximum of the tier before index `k`, which the tier at `k` must
/// start above; none for the first tier or after an open-ended one.
pub open spec fn previous_max(s: Seq<RankTier>, k: int) -> Option<i32> {
    if k == 0 {
        None
    } else {
        s[k - 1].max_rating
    }
}

/// The fault of a tier whose predecessor ends at `prev`.
pub open spec fn tier_fault(t: RankTier, prev: Option<i32>) -> Option<TierFault> {
    match prev {
        Some(pm) => if t.min_rating <= pm {
            Some(TierFault::Overlap(pm))
        } else {
            match t.max_rating {
                Some(mx) => if mx < t.min_rating { Some(TierFault::Inverted(mx)) } else { None },
                None => None,
            }
        },
        None => match t.max_rating {
            Some(mx) => if mx < t.min_rating { Some(TierFault::Inverted(mx)) } else { None },
            None => None,
        },
    }
}

/// The message of a tier fault.
pub open spec fn tier_fault_message(t: RankTier, f: TierFault) -> Seq<char> {
    match f {
        TierFault::Overlap(pm) => "Tier '"@ + t.id@ + "' min_rating ("@ + decimal_text(t.min_rating as int)
            + ") overlaps with previous tier max_rating ("@ + decimal_text(pm as int) + ")"@,
        TierFault::Inverted(mx) => "Tier '"@ + t.id@ + "' max_rating ("@ + decimal_text(mx as int)
            + ") must be >= min_rating ("@ + decimal_text(t.min_rating as int) + ")"@,
    }
}

fn fault_message(t: &RankTier, f: TierFault) -> (m: String)
    ensures
        m@ == tier_fault_message(*t, f),
{
    let mut m = String::from_str("Tier '");
    m.append(t.id.as_str());
    match f {
        TierFault::Overlap(pm) => {
            m.append("' min_rating (");
            let a = decimal_string(t.min_rating as i128);
            m.append(a.as_str());
            m.append(") overlaps with previous tier max_rating (");
            let b = decimal_string(pm as i128);
            m.append(b.as_str());
            m.append(")");
        }
        TierFault::Inverted(mx) => {
            m.append("' max_rating (");
            let a = decimal_string(mx as i128);
            m.append(a.as_str());
            m.append(") must be >= min_rating (");
            let b = decimal_string(t.min_rating as i128);
            m.append(b.as_str());
            m.append(")");
        }
    }
    m
}

/// Checks a list of rank tiers in order: each must start above the maximum
/// of the tier before it (when that one has a maximum), and its own maximum
/// must not lie below its minimum. The first fault is answered.
pub fn validate_rank_tiers(tiers: &Vec<RankTier>) -> (r: Result<(), ApiError>)
    ensures
        r is Ok <==> forall|k: int| 0 <= k < tiers@.len() ==> tier_fault(#[trigger] tiers@[k], previous_max(tiers@, k)) is None,
        r matches Err(e) ==> exists|k: int| {
            &&& 0 <= k < tiers@.len()
            &&& forall|j: int| 0 <= j < k ==> tier_fault(#[trigger] tiers@[j], previous_max(tiers@, j)) is None
            &&& tier_fault(#[trigger] tiers@[k], previous_max(tiers@, k)) matches Some(f)
                && is_error(e, ErrorKind::BadRequest, tier_fault_message(tiers@[k], f))
        },
{
    let n = tiers.len();
    let mut prev_max: Option<i32> = None;
    let mut i: usize = 0;
    while i < n
        invariant
            n == tiers@.len(),
            0 <= i <= n,
            prev_max == previous_max(tiers@, i as int),
            forall|j: int| 0 <= j < i ==> tier_fault(#[trigger] tiers@[j], previous_max(tiers@, j)) is None,
        decreases n - i,
    {
        let t = &tiers[i];
        let fault: Option<TierFault> = match prev_max {
            Some(pm) => if t.min_rating <= pm {
                Some(TierFault::Overlap(pm))
            } else {
                match t.max_rating {
                    Some(mx) => if mx < t.min_rating { Some(TierFault::Inverted(mx)) } else { None },
                    None => None,
                }
            },
            None => match t.max_rating {
                Some(mx) => if mx < t.min_rating { Some(TierFault::Inverted(mx)) } else { None },
                None => None,
            },
        };
        assert(fault == tier_fault(tiers@[i as int], previous_max(tiers@, i as int)));
        match fault {
            Some(f) => {
                let m = fault_message(t, f);
                return Err(ApiError::new(ErrorKind::BadRequest, m));
            }
            None => {}
        }
        prev_max = t.max_rating;
        i += 1;
    }
    Ok(())
}

/// Accepted tiers are ordered: each starts above the maximum of the one
/// before it, and none ends below its start.
pub proof fn accepted_tiers_are_ordered(s: Seq<RankTier>, k: int)
    requires
        forall|j: int| 0 <= j < s.len() ==> tier_fault(#[trigger] s[j], previous_max(s, j)) is None,
        0 <= k < s.len(),
    ensures
        s[k].max_rating matches Some(mx) ==> s[k].min_rating <= mx,
        k > 0 ==> (s[k - 1].max_rating matches Some(pm) ==> s[k].min_rating > pm),
{
    assert(tier_fault(s[k], previous_max(s, k)) is None);
}

/// A game's team sizes.
#[derive(Debug, Clone, Copy, PartialEq, Eq, Structural)]
pub struct TeamSizeConfig {
    pub min: i32,
    pub max: i32,
    pub default: i32,
}

/// The team sizes after an update: each given value replaces the current
/// one; refused unless min <= default <= max.
pub fn update_team_size(current: TeamSizeConfig, min: Option<i32>, max: Option<i32>, default: Option<i32>) -> (r: Result<TeamSizeConfig, ApiError>)
    ensures
        ({
            let nmin = match min { Some(v) => v, None => current.min };
            let nmax = match max { Some(v) => v, None => current.max };
            let ndef = match default { Some(v) => v, None => current.default };
            &&& nmin > ndef ==> (r matches Err(e) && is_error(e, ErrorKind::BadRequest,
                "min ("@ + decimal_text(nmin as int) + ") must be <= default ("@ + decimal_text(ndef as int) + ")"@))
            &&& nmin <= ndef && ndef > nmax ==> (r matches Err(e) && is_error(e, ErrorKind::BadRequest,
                "default ("@ + decimal_text(ndef as int) + ") must be <= max ("@ + decimal_text(nmax as int) + ")"@))
            &&& nmin <= ndef <= nmax ==> r == Ok::<TeamSizeConfig, ApiError>(TeamSizeConfig { min: nmin, max: nmax, default: ndef })
        }),
{
    let nmin = match min { Some(v) => v, None => current.min };
    let nmax = match max { Some(v) => v, None => current.max };
    let ndef = match default { Some(v) => v, None => current.default };
    if nmin > ndef {
        let mut m = String::from_str("min (");
        let a = decimal_string(nmin as i128);
        m.append(a.as_str());
        m.append(") must be <= default (");
        let b = decimal_string(ndef as i128);
        m.append(b.as_str());
        m.append(")");
        return Err(ApiError::new(ErrorKind::BadRequest, m));
    }
    if ndef > nmax {
        let mut m = String::from_str("default (");
        let a = decimal_string(ndef as i128);
        m.append(a.as_str());
        m.append(") must be <= max (");
        let b = decimal_string(nmax as i128);
        m.append(b.as_str());
        m.append(")");
        return Err(ApiError::new(ErrorKind::BadRequest, m));
    }
    Ok(TeamSizeConfig { min: nmin, max: nmax, default: ndef })
}

/// Where a game's maps (or rank tiers) are read from.
#[derive(Debug, Clone, Copy, PartialEq, Eq, Structural)]
pub enum CatalogSource {
    /// The list stored with the game.
    Stored,
    /// The defaults of the game's plugin.
    PluginDefaults,
    /// Nothing: no stored list and no plugin.
    Empty,
}

/// The stored list wins when it is a non-empty array (`stored_len` is its
/// length, `None` when it is no array); else the plugin's defaults.
pub fn catalog_source(stored_len: Option<usize>, has_plugin: bool) -> (r: CatalogSource)
    ensures
        r == (if stored_len matches Some(n) && n > 0 {
            CatalogSource::Stored
        } else if has_plugin {
            CatalogSource::PluginDefaults
        } else {
            CatalogSource::Empty
        }),
{
    match stored_len {
        Some(n) => if n > 0 {
            return CatalogSource::Stored;
        },
        None => {}
    }
    if has_plugin { CatalogSource::PluginDefaults } else { CatalogSource::Empty }
}

/// The match formats of a game without a plugin: `bo1`, `bo3` and `bo5`,
/// `bo1` by default.
pub fn fallback_match_formats() -> (r: (Vec<String>, String))
    ensures
        r.0@.len() == 3,
        r.0@[0]@ == "bo1"@,
        r.0@[1]@ == "bo3"@,
        r.0@[2]@ == "bo5"@,
        r.1@ == "bo1"@,
{
    let mut v: Vec<String> = Vec::new();
    v.push(String::from_str("bo1"));
    v.push(String::from_str("bo3"));
    v.push(String::from_str("bo5"));
    (v, String::from_str("bo1"))
}

/// A game-administration action, for the message of its refusal.
#[derive(Debug, Clone, Copy, PartialEq, Eq, Structural)]
pub enum GamesAdminAction {
    UpdateGame,
    UpdateMapPool,
    EnableGame,
    DisableGame,
    ManageGames,
}

/// The refusal text of an action.
pub open spec fn admin_refusal(a: GamesAdminAction) -> Seq<char> {
    match a {
        GamesAdminAction::UpdateGame => "Admin permission required to update games"@,
        GamesAdminAction::UpdateMapPool => "Admin permission required to update map pool"@,
        GamesAdminAction::EnableGame => "Admin permission required to enable games"@,
        GamesAdminAction::DisableGame => "Admin permission required to disable games"@,
        GamesAdminAction::ManageGames => "Admin permission required to manage games"@,
    }
}

/// Admits the caller when the `admin.games.manage` check said yes; a
/// failed check counts as no.
pub fn require_games_admin(allowed: Option<bool>, action: GamesAdminAction) -> (r: Result<(), ApiError>)
    ensures
        allowed == Some(true) ==> r is Ok,
        allowed != Some(true) ==> (r matches Err(e) && is_error(e, ErrorKind::Forbidden, admin_refusal(action))),
{
    if allowed == Some(true) {
        return Ok(());
    }
    let m = match action {
        GamesAdminAction::UpdateGame => "Admin permission required to update games",
        GamesAdminAction::UpdateMapPool => "Admin permission required to update map pool",
        GamesAdminAction::EnableGame => "Admin permission required to enable games",
        GamesAdminAction::DisableGame => "Admin permission required to disable games",
        GamesAdminAction::ManageGames => "Admin permission required to manage games",
    };
    Err(ApiError::from_str(ErrorKind::Forbidden, m))
}

/// A request to edit a game's presentation: each given field replaces the
/// stored one.
#[derive(Debug)]
pub struct UpdateGameRequest {
    pub display_name: Option<String>,
    pub short_name: Option<String>,
    pub description: Option<String>,
    pub icon_url: Option<String>,
    pub is_featured: Option<bool>,
    pub sort_order: Option<i32>,
}

/// A change to a game's stored row; a field left `None` is kept as it is.
#[derive(Debug)]
pub struct GameChange {
    pub display_name: Option<String>,
    pub short_name: Option<String>,
    pub description: Option<String>,
    pub icon_url: Option<String>,
    pub is_featured: Option<bool>,
    pub sort_order: Option<i32>,
    pub available_maps: Option<Json>,
    pub default_map_pool: Option<Json>,
    pub rank_tiers: Option<Json>,
    pub team_size_min: Option<i32>,
    pub team_size_max: Option<i32>,
    pub team_size_default: Option<i32>,
}

/// The change an edit of a game makes: exactly its six presentation fields
/// as given; the map catalogue, map pool, rank tiers and team sizes are
/// never touched by it.
pub fn game_update_change(req: UpdateGameRequest) -> (r: GameChange)
    ensures
        r.display_name == req.display_name,
        r.short_name == req.short_name,
        r.description == req.description,
        r.icon_url == req.icon_url,
        r.is_featured == req.is_featured,
        r.sort_order == req.sort_order,
        r.available_maps is None,
        r.default_map_pool is None,
        r.rank_tiers is None,
        r.team_size_min is None,
        r.team_size_max is None,
        r.team_size_default is None,
{
    GameChange {
        display_name: req.display_name,
        short_name: req.short_name,
        description: req.description,
        icon_url: req.icon_url,
        is_featured: req.is_featured,
        sort_order: req.sort_order,
        available_maps: None,
        default_map_pool: None,
        rank_tiers: None,
        team_size_min: None,
        team_size_max: None,
        team_size_default: None,
    }
}

} // verus!
