//! The decision half of the worker pool.
//!
//! A worker's loop — receive a request, perform the matching network or
//! decoding operation, report — lives with the I/O.  What is verified here
//! is everything a worker decides once the operation has produced a plain
//! outcome: which requests answer with a [`Results`] message, which record
//! their success directly in [`SharedState`] and stay silent, and how the
//! player-info fetch fans out into a profile-icon follow-up.  Every
//! function takes the operation's outcome as an argument, so its contract
//! holds whatever the network returned.

use vstd::prelude::*;

use crate::catalog::{build_catalog, catalog_ids_ok, catalog_of};
use crate::domain::{ChampionJson, PlayerInfo};
use crate::protocol::{Errors, Results};
use crate::shared::SharedState;

verus! {

/// Finish a game-version fetch.  Success populates the write-once
/// `versions` slot (a later duplicate is discarded) and reports nothing;
/// failure leaves the store untouched and reports the error.
pub fn worker_versions(shared: &mut SharedState, outcome: Result<Vec<String>, Errors>) -> (resp:
    Option<Results>)
    ensures
        match outcome {
            Ok(v) => {
                &&& resp is None
                &&& final(shared).versions == (if old(shared).versions_set() {
                    old(shared).versions
                } else {
                    Some(v)
                })
                &&& final(shared).champs == old(shared).champs
                &&& final(shared).player_icons == old(shared).player_icons
                &&& crate::laws::versions_populate(*old(shared), *final(shared), v)
            },
            Err(e) => {
                &&& resp == Some(Results::Versions(e))
                &&& *final(shared) == *old(shared)
            },
        },
{
    match outcome {
        Ok(v) => {
            shared.set_versions(v);
            None
        },
        Err(e) => Some(Results::Versions(e)),
    }
}

/// Finish a champion-catalog fetch.  A well-formed document populates the
/// write-once catalog and reports nothing; a document with an unreadable
/// champion id, like a failed fetch, leaves the store untouched and
/// reports the error.
pub fn worker_champ_info(shared: &mut SharedState, outcome: Result<ChampionJson, Errors>) -> (resp:
    Option<Results>)
    ensures
        match outcome {
            Ok(json) => {
                if catalog_ids_ok(json.data@) {
                    &&& resp is None
                    &&& final(shared).versions == old(shared).versions
                    &&& final(shared).player_icons == old(shared).player_icons
                    &&& (old(shared).champs_set() ==> final(shared).champs == old(shared).champs)
                    &&& (!old(shared).champs_set() ==> final(shared).champs_set()
                        && final(shared).catalog() == catalog_of(json.data@))
                } else {
                    &&& resp matches Some(r) && r matches Results::ChampJson(e) && e is Decode
                    &&& *final(shared) == *old(shared)
                }
            },
            Err(e) => {
                &&& resp == Some(Results::ChampJson(e))
                &&& *final(shared) == *old(shared)
            },
        },
{
    match outcome {
        Ok(json) => {
            match build_catalog(&json) {
                Ok(map) => {
                    shared.set_champs(map);
                    None
                },
                Err(e) => Some(Results::ChampJson(e)),
            }
        },
        Err(e) => Some(Results::ChampJson(e)),
    }
}

/// Finish a champion-artwork fetch, the outcome being the uploaded
/// texture's token.  Success fills the champion's image slot (a response
/// the catalog cannot place is dropped) and reports nothing; failure
/// reports the error and leaves every slot — including the champion's
/// "fetch started" flag — untouched.
pub fn worker_champ_image(shared: &mut SharedState, id: i64, outcome: Result<u64, Errors>) -> (resp:
    Option<Results>)
    ensures
        match outcome {
            Ok(texture) => {
                &&& resp is None
                &&& final(shared).versions == old(shared).versions
                &&& final(shared).player_icons == old(shared).player_icons
                &&& (old(shared).has_champ(id) ==> final(shared).champs_set()
                    && final(shared).catalog() == old(shared).catalog().insert(
                        id,
                        old(shared).catalog()[id].with_image(texture),
                    ))
                &&& (!old(shared).has_champ(id) ==> final(shared).champs == old(shared).champs)
            },
            Err(e) => {
                &&& resp == Some(Results::ChampImage(e))
                &&& *final(shared) == *old(shared)
            },
        },
{
    match outcome {
        Ok(texture) => {
            shared.update_champ_image(id, texture);
            None
        },
        Err(e) => Some(Results::ChampImage(e)),
    }
}

/// Finish a profile-icon follow-up fetch, the outcome being the uploaded
/// texture's token.  Success records the icon (an entry already present is
/// never replaced) and reports nothing; failure reports the error.
pub fn worker_icon(shared: &mut SharedState, icon_id: i16, outcome: Result<u64, Errors>) -> (resp:
    Option<Results>)
    ensures
        match outcome {
            Ok(texture) => {
                &&& resp is None
                &&& final(shared).versions == old(shared).versions
                &&& final(shared).champs == old(shared).champs
                &&& final(shared).player_icons@ == (if old(shared).player_icons@.contains_key(
                    icon_id,
                ) {
                    old(shared).player_icons@
                } else {
                    old(shared).player_icons@.insert(icon_id, texture)
                })
            },
            Err(e) => {
                &&& resp == Some(Results::PlayerIcon(e))
                &&& *final(shared) == *old(shared)
            },
        },
{
    match outcome {
        Ok(texture) => {
            shared.insert_icon(icon_id, texture);
            None
        },
        Err(e) => Some(Results::PlayerIcon(e)),
    }
}

/// The fan-out decision after a successful player-info fetch: whether a
/// profile-icon fetch should follow, and for which icon and game version.
/// A follow-up is due exactly when the response carries the profile block
/// and the requested version index is available.
pub fn icon_followup(shared: &SharedState, info: &PlayerInfo, version_index: usize) -> (r: Option<
    (i16, String),
>)
    ensures
        match r {
            Some((icon_id, version)) => {
                &&& info.data.profile_init_simple matches Some(w) && icon_id
                    == w.player_info.icon_id
                &&& shared.versions_set() && version_index < shared.versions->Some_0@.len()
                &&& version@ == shared.versions->Some_0@[version_index as int]@
            },
            None => info.data.profile_init_simple is None || !shared.versions_set()
                || version_index >= shared.versions->Some_0@.len(),
        },
{
    match &info.data.profile_init_simple {
        Some(w) => {
            match shared.version_at(version_index) {
                Some(v) => Some((w.player_info.icon_id, v.clone())),
                None => None,
            }
        },
        None => None,
    }
}

} // verus!
