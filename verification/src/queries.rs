//! Variable blocks for the backend's query interface.
//!
//! Each fetch a worker performs posts one of these variable blocks; the
//! structs mirror the backend's expected shapes field for field, and the
//! builders pin down every constant the protocol fixes (the season, the
//! ranked queue id, the suggestion region).  The transport itself — query
//! text, serialisation, HTTP — lives outside the core.

use vstd::prelude::*;
use vstd::string::StringExecFns;

verus! {

/// The ranked season the viewer shows.
pub const SEASON_ID: u8 = 22;

/// The queue id of ranked solo, used for ladder-position lookups.
pub const RANKED_SOLO_QUEUE: i16 = 420;

/// Variables for the player-suggestion lookup.
#[derive(Debug, Clone, PartialEq, Eq)]
pub struct PlayerInfoSuggestions {
    pub query: String,
    pub region_id: String,
}

/// Variables for one match-history page.
#[derive(Debug, Clone, PartialEq, Eq)]
pub struct FetchMatchSummaries {
    pub riot_user_name: String,
    pub riot_tag_line: String,
    pub duo_riot_user_name: String,
    pub duo_riot_tag_line: String,
    pub queue_type: Vec<u16>,
    pub region_id: String,
    pub role: Vec<u8>,
    pub season_ids: Vec<u8>,
    pub champion_id: Vec<i16>,
    pub page: u8,
}

/// Variables for the profile-refresh request.
#[derive(Debug, Clone, PartialEq, Eq)]
pub struct UpdatePlayerProfile {
    pub region_id: String,
    pub riot_user_name: String,
    pub riot_tag_line: String,
}

/// Variables for the rank-scores lookup.
#[derive(Debug, Clone, PartialEq, Eq)]
pub struct FetchProfileRanks {
    pub region_id: String,
    pub summoner_name: String,
    pub season_id: i32,
}

/// Variables for the ladder-position lookup.
#[derive(Debug, Clone, PartialEq, Eq)]
pub struct GetOverallPlayerRanking {
    pub queue_type: i16,
    pub riot_user_name: String,
    pub riot_tag_line: String,
    pub region_id: String,
}

/// Variables for the player-profile lookup.
#[derive(Debug, Clone, PartialEq, Eq)]
pub struct GetSummonerProfile {
    pub region_id: String,
    pub riot_user_name: String,
    pub riot_tag_line: String,
    pub season_id: u8,
}

/// Variables for one match-detail lookup.
#[derive(Debug, Clone, PartialEq, Eq)]
pub struct FetchMatch {
    pub riot_user_name: String,
    pub riot_tag_line: String,
    pub region_id: String,
    pub match_id: String,
    pub version: String,
}

/// The role filter the backend expects for each role the role picker can
/// select: the picker's order (Top, Jungle, Mid, ADC, Support) differs from
/// the backend's numbering, and the last entry means "no filter".
pub open spec fn spec_role_index(role: u8) -> Option<u8> {
    if role == 0 {
        Some(4)
    } else if role == 1 {
        Some(1)
    } else if role == 2 {
        Some(5)
    } else if role == 3 {
        Some(3)
    } else if role == 4 {
        Some(2)
    } else {
        None
    }
}

/// Map a role-picker position to the backend's role id; `None` asks for an
/// unfiltered page.
pub fn get_role_index(role: u8) -> (r: Option<u8>)
    ensures
        r == spec_role_index(role),
{
    match role {
        0 => Some(4),  // Top
        1 => Some(1),  // Jungle
        2 => Some(5),  // Mid
        3 => Some(3),  // ADC
        4 => Some(2),  // Support
        _ => None,     // No role filter
    }
}

/// What lowercasing a string yields; the name stands for the result of
/// `str::to_lowercase`, which depends on the characters alone.
pub uninterp spec fn lower_of(s: Seq<char>) -> Seq<char>;

/// Relies on str::to_lowercase: the result is a function of the input
/// characters alone, independent of locale or environment.
#[verifier::external_body]
fn lowercase(s: &str) -> (r: String)
    ensures
        r@ == lower_of(s@),
{
    s.to_lowercase()
}

/// Variables for a match-history page: the season is fixed, no duo or
/// queue or champion filter is sent, and the role filter comes from the
/// role picker through [`get_role_index`].
pub fn match_summaries_vars(
    name: &String,
    tag_line: &String,
    region_id: &String,
    roles: Option<u8>,
    page: u8,
) -> (r: FetchMatchSummaries)
    ensures
        r.riot_user_name@ == name@,
        r.riot_tag_line@ == tag_line@,
        r.duo_riot_user_name@.len() == 0,
        r.duo_riot_tag_line@.len() == 0,
        r.queue_type@.len() == 0,
        r.region_id@ == region_id@,
        r.role@ == match roles {
            Some(x) => seq![x],
            None => Seq::<u8>::empty(),
        },
        r.season_ids@ == seq![SEASON_ID],
        r.champion_id@.len() == 0,
        r.page == page,
{
    let mut role: Vec<u8> = Vec::new();
    if let Some(x) = roles {
        role.push(x);
    }
    let mut season_ids: Vec<u8> = Vec::new();
    season_ids.push(SEASON_ID);
    proof {
        assert(season_ids@ =~= seq![SEASON_ID]);
        match roles {
            Some(x) => {
                assert(role@ =~= seq![x]);
            },
            None => {
                assert(role@ =~= Seq::<u8>::empty());
            },
        }
    }
    FetchMatchSummaries {
        riot_user_name: name.clone(),
        riot_tag_line: tag_line.clone(),
        duo_riot_user_name: String::new(),
        duo_riot_tag_line: String::new(),
        queue_type: Vec::new(),
        region_id: region_id.clone(),
        role,
        season_ids,
        champion_id: Vec::new(),
        page,
    }
}

/// Variables for the player-suggestion lookup: the query is the typed name
/// folded to lower case, and suggestions are always drawn from the default
/// region.
pub fn player_suggestions_vars(name: &String) -> (r: PlayerInfoSuggestions)
    ensures
        r.query@ == lower_of(name@),
        r.region_id@ == "na1"@,
{
    PlayerInfoSuggestions { query: lowercase(name.as_str()), region_id: String::from_str("na1") }
}

/// Variables for the profile-refresh request.
pub fn update_player_vars(name: &String, tag_line: &String, region_id: &String) -> (r:
    UpdatePlayerProfile)
    ensures
        r.region_id@ == region_id@,
        r.riot_user_name@ == name@,
        r.riot_tag_line@ == tag_line@,
{
    UpdatePlayerProfile {
        region_id: region_id.clone(),
        riot_user_name: name.clone(),
        riot_tag_line: tag_line.clone(),
    }
}

/// Variables for the ladder-position lookup, always for the ranked solo
/// queue.
pub fn player_ranking_vars(name: &String, tag_line: &String, region_id: &String) -> (r:
    GetOverallPlayerRanking)
    ensures
        r.queue_type == RANKED_SOLO_QUEUE,
        r.riot_user_name@ == name@,
        r.riot_tag_line@ == tag_line@,
        r.region_id@ == region_id@,
{
    GetOverallPlayerRanking {
        queue_type: RANKED_SOLO_QUEUE,
        riot_user_name: name.clone(),
        riot_tag_line: tag_line.clone(),
        region_id: region_id.clone(),
    }
}

/// Variables for the player-profile lookup, for the fixed season.
pub fn player_info_vars(name: &String, tag_line: &String, region_id: &String) -> (r:
    GetSummonerProfile)
    ensures
        r.region_id@ == region_id@,
        r.riot_user_name@ == name@,
        r.riot_tag_line@ == tag_line@,
        r.season_id == SEASON_ID,
{
    GetSummonerProfile {
        region_id: region_id.clone(),
        riot_user_name: name.clone(),
        riot_tag_line: tag_line.clone(),
        season_id: SEASON_ID,
    }
}

/// Variables for one match-detail lookup; the match id travels as the
/// decimal text the backend expects.
pub fn fetch_match_vars(
    name: &String,
    tag_line: &String,
    region_id: &String,
    match_id: &String,
    version: &String,
) -> (r: FetchMatch)
    ensures
        r.riot_user_name@ == name@,
        r.riot_tag_line@ == tag_line@,
        r.region_id@ == region_id@,
        r.match_id@ == match_id@,
        r.version@ == version@,
{
    FetchMatch {
        riot_user_name: name.clone(),
        riot_tag_line: tag_line.clone(),
        region_id: region_id.clone(),
        match_id: match_id.clone(),
        version: version.clone(),
    }
}

} // verus!
