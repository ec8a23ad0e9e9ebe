//! The message protocol between the presentation layer and the worker pool.
//!
//! A [`Payload`] names one unit of work and carries exactly the parameters
//! needed to perform it; a [`Results`] carries the outcome of one such unit.
//! The pair of enums is the sole interface between the two sides: the
//! presentation layer enqueues payloads, the workers answer with results,
//! and no other channel of communication exists.

use vstd::prelude::*;

use crate::domain::{GetMatch, PlayerInfo, PlayerMatchSummaries, PlayerRanking, PlayerSuggestions, UpdatePlayer};

verus! {

/// The failures a worker can report.  Every fallible step of a request is
/// converted into one of these and carried inside the matching [`Results`]
/// variant; workers never panic on a failed request.
#[derive(Debug, Clone, PartialEq, Eq)]
pub enum Errors {
    /// The transport failed: the request never produced a usable body.
    Network(String),
    /// The body arrived but did not have the expected shape.
    Decode(String),
    /// Icon or champion artwork could not be decoded into pixels.
    Image(String),
}

impl Errors {
    /// The human-readable detail carried by the error, for display in a notice.
    pub fn message(&self) -> (r: String)
        ensures
            r@ == self.spec_message(),
    {
        match self {
            Errors::Network(s) => s.clone(),
            Errors::Decode(s) => s.clone(),
            Errors::Image(s) => s.clone(),
        }
    }

    /// The detail string of any variant.
    pub open spec fn spec_message(&self) -> Seq<char> {
        match self {
            Errors::Network(s) => s@,
            Errors::Decode(s) => s@,
            Errors::Image(s) => s@,
        }
    }
}

/// One unit of work for the worker pool.  Construction is pure; enqueueing
/// a payload is the only side effect a request has.
#[derive(Debug, Clone, PartialEq, Eq)]
pub enum Payload {
    /// Fetch one page of a player's match history.
    MatchSummaries {
        name: String,
        tag_line: String,
        roles: Option<u8>,
        page: u8,
        region_id: String,
    },
    /// Ask the backend to refresh its copy of a player's profile.
    UpdatePlayer {
        name: String,
        tag_line: String,
        region_id: String,
    },
    /// Fetch a player's overall ladder position.
    PlayerRanking {
        name: String,
        tag_line: String,
        region_id: String,
    },
    /// Fetch a player's profile; on success the worker may follow up with
    /// a profile-icon fetch (fan-out, see [`Results`]).
    PlayerInfo {
        name: String,
        tag_line: String,
        version_index: usize,
        region_id: String,
    },
    /// Fetch the list of game versions; on success the worker populates the
    /// shared `versions` slot instead of answering.
    GetVersions,
    /// Fetch the champion catalog for the given game version; on success the
    /// worker populates the shared catalog instead of answering.
    GetChampInfo {
        version: String,
    },
    /// Fetch and decode one champion's artwork, named by the asset `key`,
    /// for the champion with the given id.
    GetChampImage {
        version: String,
        key: String,
        id: i64,
    },
    /// Fetch one match's full detail document.
    GetMatchDetails {
        name: String,
        tag_line: String,
        version: String,
        id: i64,
        region_id: String,
    },
    /// Fetch search-box suggestions for a partial player name.
    GetPlayerSuggestions {
        name: String,
    },
}

/// One outcome reported by a worker.  Each accepted request produces at most
/// one result; requests whose success is recorded directly in the shared
/// caches (versions, catalog, artwork, icons) answer only on failure.
#[derive(Debug, PartialEq, Eq)]
pub enum Results {
    MatchSum(Result<PlayerMatchSummaries, Errors>),
    PlayerUpdate(Result<UpdatePlayer, Errors>),
    Ranking(Result<PlayerRanking, Errors>),
    PlayerInfo(Result<PlayerInfo, Errors>),
    /// A profile-icon follow-up fetch failed.
    PlayerIcon(Errors),
    /// The game-version fetch failed; the `versions` slot stays unset.
    Versions(Errors),
    /// The champion-catalog fetch failed; the catalog stays unset.
    ChampJson(Errors),
    /// A champion-artwork fetch failed; the image slot stays empty.
    ChampImage(Errors),
    MatchDetails(Result<(Box<GetMatch>, i64), Errors>),
    PlayerSuggestions(Result<PlayerSuggestions, Errors>),
}

} // verus!
