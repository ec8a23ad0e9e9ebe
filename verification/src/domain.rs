//! Payload shapes for the data the workers fetch.
//!
//! These mirror the backend's response documents one to one and carry no
//! behaviour of their own; the core moves them between the workers, the
//! shared caches and the per-player view state.  Image artwork and other
//! binary payloads never appear here: by the time a value reaches the core
//! it has been decoded into the plain fields below.

use vstd::prelude::*;

verus! {

/// One page of a player's match history.
#[derive(Debug, Clone, PartialEq, Eq)]
pub struct PlayerMatchSummaries {
    pub data: Data,
}

#[derive(Debug, Clone, PartialEq, Eq)]
pub struct Data {
    pub fetch_player_match_summaries: FetchPlayerMatchSummaries,
}

#[derive(Debug, Clone, PartialEq, Eq)]
pub struct FetchPlayerMatchSummaries {
    /// The match summaries for that page.
    pub match_summaries: Vec<MatchSummary>,
}

#[derive(Debug, Clone, PartialEq, Eq)]
pub struct MatchSummary {
    pub assists: i64,
    pub champion_id: i64,
    pub cs: i64,
    pub damage: i64,
    pub deaths: i64,
    pub gold: i64,
    pub items: Vec<i64>,
    pub jungle_cs: i64,
    pub kill_participation: i64,
    pub kills: i64,
    pub level: i64,
    pub match_creation_time: i64,
    pub match_duration: i64,
    pub match_id: i64,
    pub maximum_kill_streak: i64,
    pub primary_style: i64,
    pub ps_hard_carry: i64,
    pub ps_team_play: i64,
    pub queue_type: String,
    pub region_id: String,
    pub role: i64,
    pub runes: Vec<i64>,
    pub sub_style: i64,
    pub riot_user_name: String,
    pub riot_tag_line: String,
    pub summoner_spells: Vec<i64>,
    pub team_a: Vec<Team>,
    pub team_b: Vec<Team>,
    pub version: String,
    pub vision_score: i64,
    pub win: bool,
}

/// One teammate's line in a match summary.  The core only ever reads the
/// identity and role fields, so the per-player score figures are left out.
#[derive(Debug, Clone, PartialEq, Eq)]
pub struct Team {
    pub champion_id: i64,
    pub role: i64,
    pub riot_user_name: String,
    pub riot_tag_line: String,
}

/// Outcome of asking the backend to refresh a player's profile.
#[derive(Debug, Clone, PartialEq, Eq)]
pub struct UpdatePlayer {
    pub data: UpdateData,
}

#[derive(Debug, Clone, PartialEq, Eq)]
pub struct UpdateData {
    pub update_player_profile: UpdatePlayerProfile,
}

#[derive(Debug, Clone, PartialEq, Eq)]
pub struct UpdatePlayerProfile {
    pub error_reason: Option<String>,
    pub success: bool,
}

/// A player's position on the overall ladder.
#[derive(Debug, Clone, PartialEq, Eq)]
pub struct PlayerRanking {
    pub data: RankingData,
}

#[derive(Debug, Clone, PartialEq, Eq)]
pub struct RankingData {
    pub overall_ranking: Option<OverallRanking>,
}

#[derive(Debug, Clone, PartialEq, Eq)]
pub struct OverallRanking {
    pub overall_ranking: u32,
    pub total_player_count: u32,
}

/// A player's profile, as returned by the player-info fetch.
#[derive(Debug, Clone, PartialEq, Eq)]
pub struct PlayerInfo {
    pub data: ProfilePlayerInfo,
}

#[derive(Debug, Clone, PartialEq, Eq)]
pub struct ProfilePlayerInfo {
    pub fetch_profile_ranks: Option<FetchProfileRanks>,
    pub profile_init_simple: Option<PlayerInfoWrapper>,
}

#[derive(Debug, Clone, PartialEq, Eq)]
pub struct PlayerInfoWrapper {
    pub last_modified: String,
    pub player_info: ProfileInfo,
}

#[derive(Debug, Clone, PartialEq, Eq)]
pub struct ProfileInfo {
    /// Icon ids stay small; a negative value is used by callers as "no icon".
    pub icon_id: i16,
    /// No player is anywhere near level 32,767.
    pub summoner_level: i16,
    pub riot_user_name: String,
    pub riot_tag_line: String,
}

#[derive(Debug, Clone, PartialEq, Eq)]
pub struct FetchProfileRanks {
    pub rank_scores: Vec<RankScore>,
}

#[derive(Debug, Clone, PartialEq, Eq)]
pub struct RankScore {
    pub last_updated_at: Option<i64>,
    pub losses: i64,
    pub lp: i64,
    pub promo_progress: Option<String>,
    pub queue_type: String,
    pub rank: String,
    pub role: Option<String>,
    pub season_id: i64,
    pub tier: String,
    pub wins: i64,
}

/// The champion catalog document, one entry per champion.
#[derive(Debug, Clone, PartialEq, Eq)]
pub struct ChampionJson {
    pub _type: String,
    pub format: String,
    pub version: String,
    pub data: Vec<ChampData>,
}

/// One champion's entry in the catalog document.  The numeric per-champion
/// stat table is dropped: the core never reads it.
#[derive(Debug, Clone, PartialEq, Eq)]
pub struct ChampData {
    pub version: String,
    /// The asset key, e.g. "Annie"; the artwork file is named after it.
    pub key: String,
    /// The champion's numeric id, as a decimal string.
    pub id: String,
    pub name: String,
    pub title: String,
    pub blurb: String,
    pub info: Info,
    pub image: Image,
    pub tags: Vec<Tag>,
    pub partype: String,
}

#[derive(Debug, Clone, PartialEq, Eq)]
pub struct Image {
    pub full: String,
    pub sprite: String,
    pub group: String,
    pub x: i64,
    pub y: i64,
    pub w: i64,
    pub h: i64,
}

#[derive(Debug, Clone, PartialEq, Eq)]
pub struct Info {
    pub attack: i64,
    pub defense: i64,
    pub magic: i64,
    pub difficulty: i64,
}

#[derive(Debug, Clone, PartialEq, Eq)]
pub enum Tag {
    Assassin,
    Fighter,
    Mage,
    Marksman,
    Support,
    Tank,
}

/// One match's full detail document.
#[derive(Debug, Clone, PartialEq, Eq)]
pub struct GetMatch {
    pub data: MatchData,
}

#[derive(Debug, Clone, PartialEq, Eq)]
pub struct MatchData {
    pub data_match: Match,
}

#[derive(Debug, Clone, PartialEq, Eq)]
pub struct Match {
    pub match_summary: FullMatchSummary,
    pub performance_score: Vec<PerformanceScore>,
    pub winning_team: i64,
}

#[derive(Debug, Clone, PartialEq, Eq)]
pub struct FullMatchSummary {
    pub assists: i64,
    pub champion_id: i64,
    pub cs: i64,
    pub damage: i64,
    pub deaths: i64,
    pub gold: i64,
    pub items: Vec<i64>,
    pub jungle_cs: i64,
    pub kill_participation: i64,
    pub kills: i64,
    pub level: i64,
    pub match_creation_time: i64,
    pub match_duration: i64,
    pub match_id: i64,
    pub maximum_kill_streak: i64,
    pub primary_style: i64,
    pub ps_hard_carry: i64,
    pub ps_team_play: i64,
    pub queue_type: Option<String>,
    pub region_id: String,
    pub role: Option<i64>,
    pub runes: Vec<i64>,
    pub sub_style: i64,
    pub riot_user_name: Option<String>,
    pub riot_tag_line: Option<String>,
    pub summoner_spells: Vec<i64>,
    pub team_a: Vec<MatchTeam>,
    pub team_b: Vec<MatchTeam>,
    pub version: String,
    pub vision_score: i64,
    pub win: bool,
}

#[derive(Debug, Clone, PartialEq, Eq)]
pub struct PerformanceScore {
    pub hard_carry: i64,
    pub riot_user_name: Option<String>,
    pub riot_tag_line: Option<String>,
    pub teamplay: i64,
}

#[derive(Debug, Clone, PartialEq, Eq)]
pub struct MatchTeam {
    pub champion_id: i64,
    pub damage: i64,
    pub role: u8,
    pub riot_user_name: String,
    pub riot_tag_line: String,
    pub team_id: i64,
}

/// Search-box suggestions for a partial player name.
#[derive(Debug, Clone, PartialEq, Eq)]
pub struct PlayerSuggestions {
    pub data: PlayerProfileSuggestions,
}

#[derive(Debug, Clone, PartialEq, Eq)]
pub struct PlayerProfileSuggestions {
    pub player_profile_suggestions: Vec<PlayerInfoSuggestion>,
}

#[derive(Debug, Clone, PartialEq, Eq)]
pub struct PlayerInfoSuggestion {
    pub icon_id: i64,
    pub summoner_level: i64,
    pub riot_user_name: String,
    pub riot_tag_line: String,
}

impl PlayerSuggestions {
    /// The empty suggestion list, shown before the first lookup answers.
    pub fn empty() -> (r: PlayerSuggestions)
        ensures
            r.data.player_profile_suggestions@ =~= Seq::<PlayerInfoSuggestion>::empty(),
    {
        PlayerSuggestions { data: PlayerProfileSuggestions { player_profile_suggestions: Vec::new() } }
    }
}

} // verus!
