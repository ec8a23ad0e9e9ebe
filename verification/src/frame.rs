//! The presentation layer's per-frame request steps.
//!
//! The render loop observes a cache miss tens of times per second, so every
//! fetch trigger here couples its dedup guard with the enqueue in one step:
//! a request is issued exactly when its guard rises, and a guard never
//! falls within a run.  That coupling, stated in each contract below, is
//! what makes a fetch happen at most once however many frames observe the
//! miss.

use vstd::prelude::*;
use vstd::string::StringExecFns;

use crate::protocol::Payload;
use crate::queries::spec_role_index;
use crate::queue::enqueue;
use crate::shared::SharedState;
use crate::view::PlayerViewState;

verus! {

/// The presentation layer's bookkeeping for catalog assets that are not
/// per-player: the one-shot guards for the version list and the champion
/// catalog, and the region picker's state.
pub struct DataDragon {
    /// Whether the game-version fetch has been issued.
    pub ver_started: bool,
    /// Whether the champion-catalog fetch has been issued.
    pub champ_info_started: bool,
    /// The selectable regions, as (region id, display name) pairs.
    pub region_id_name: Vec<(String, String)>,
    /// The region id currently selected.
    pub region: String,
}

impl DataDragon {
    /// The startup state: nothing fetched yet, the default region selected.
    pub fn new() -> (r: DataDragon)
        ensures
            r.ver_started == false,
            r.champ_info_started == false,
            r.region@ == "na1"@,
            r.region_id_name@.len() == 2,
            r.region_id_name@[0].0@ == "na1"@,
            r.region_id_name@[0].1@ == "NA"@,
            r.region_id_name@[1].0@ == "euw1"@,
            r.region_id_name@[1].1@ == "EUW"@,
    {
        let mut region_id_name: Vec<(String, String)> = Vec::new();
        region_id_name.push((String::from_str("na1"), String::from_str("NA")));
        region_id_name.push((String::from_str("euw1"), String::from_str("EUW")));
        DataDragon {
            ver_started: false,
            champ_info_started: false,
            region_id_name,
            region: String::from_str("na1"),
        }
    }
}

/// Issue the game-version fetch if it has not been issued yet.  The guard
/// rises exactly when the request goes out and never falls, so the fetch is
/// issued at most once however many frames find the version list unset.
pub fn load_version(dd: &mut DataDragon, tx: &async_channel::Sender<Payload>) -> (requested: bool)
    ensures
        requested == !old(dd).ver_started,
        final(dd).ver_started == true,
        crate::laws::guard_step(old(dd).ver_started, final(dd).ver_started, requested),
        final(dd).champ_info_started == old(dd).champ_info_started,
        final(dd).region_id_name == old(dd).region_id_name,
        final(dd).region == old(dd).region,
{
    if !dd.ver_started {
        enqueue(tx, Payload::GetVersions);
        dd.ver_started = true;
        true
    } else {
        false
    }
}

/// Issue the champion-catalog fetch for the given game version if it has
/// not been issued yet, with the same at-most-once guard discipline as
/// [`load_version`].
pub fn request_champ_info(
    dd: &mut DataDragon,
    version: &String,
    tx: &async_channel::Sender<Payload>,
) -> (requested: bool)
    ensures
        requested == !old(dd).champ_info_started,
        final(dd).champ_info_started == true,
        crate::laws::guard_step(old(dd).champ_info_started, final(dd).champ_info_started, requested),
        final(dd).ver_started == old(dd).ver_started,
        final(dd).region_id_name == old(dd).region_id_name,
        final(dd).region == old(dd).region,
{
    if !dd.champ_info_started {
        enqueue(tx, Payload::GetChampInfo { version: version.clone() });
        dd.champ_info_started = true;
        true
    } else {
        false
    }
}

/// The champion-artwork dedup step: if the catalog knows the champion, a
/// game version is available and no artwork fetch was started yet, mark the
/// fetch started and hand back the request to enqueue; otherwise change
/// nothing.  The guard rises exactly when a request is handed out and never
/// falls, so for each champion at most one call ever yields a request.
pub fn try_champ_image_request(shared: &mut SharedState, id: i64) -> (r: Option<Payload>)
    ensures
        (r is Some) == (old(shared).versions_set() && old(shared).versions->Some_0@.len() > 0
            && old(shared).has_champ(id) && !old(shared).image_started(id)),
        r matches Some(p) ==> {
            &&& p == (Payload::GetChampImage {
                version: old(shared).versions->Some_0[0],
                key: old(shared).catalog()[id].key,
                id,
            })
            &&& final(shared).champs_set()
            &&& final(shared).catalog() == old(shared).catalog().insert(
                id,
                old(shared).catalog()[id].with_started(),
            )
        },
        r is None ==> final(shared).champs == old(shared).champs,
        final(shared).versions == old(shared).versions,
        final(shared).player_icons == old(shared).player_icons,
        final(shared).image_started(id) == (old(shared).image_started(id) || r is Some),
        forall|other: i64|
            other != id ==> final(shared).image_started(other) == old(shared).image_started(other),
        crate::laws::champ_request_step(*old(shared), *final(shared), id, r is Some),
{
    let version = match shared.first_version() {
        Some(v) => v.clone(),
        None => {
            return None;
        },
    };
    if shared.try_start_champ_image(id) {
        let key = match shared.get_champ(id) {
            Some(c) => c.key.clone(),
            None => {
                // unreachable: the guard only rises for a catalogued champion
                return None;
            },
        };
        Some(Payload::GetChampImage { version, key, id })
    } else {
        None
    }
}

/// Check one visible row's champion artwork and issue its fetch if due;
/// the guard and the enqueue happen in the same step.
pub fn request_champ_image(
    shared: &mut SharedState,
    tx: &async_channel::Sender<Payload>,
    id: i64,
) -> (requested: bool)
    ensures
        requested == (old(shared).versions_set() && old(shared).versions->Some_0@.len() > 0
            && old(shared).has_champ(id) && !old(shared).image_started(id)),
        requested ==> final(shared).champs_set() && final(shared).catalog() == old(
            shared,
        ).catalog().insert(id, old(shared).catalog()[id].with_started()),
        !requested ==> final(shared).champs == old(shared).champs,
        final(shared).versions == old(shared).versions,
        final(shared).player_icons == old(shared).player_icons,
        final(shared).image_started(id) == (old(shared).image_started(id) || requested),
        forall|other: i64|
            other != id ==> final(shared).image_started(other) == old(shared).image_started(other),
        crate::laws::champ_request_step(*old(shared), *final(shared), id, requested),
{
    match try_champ_image_request(shared, id) {
        Some(p) => {
            enqueue(tx, p);
            true
        },
        None => false,
    }
}

/// The match-detail dedup step: if a game version is available and no
/// detail fetch for this match was started yet, insert the `None`
/// placeholder (the guard) and hand back the request to enqueue; otherwise
/// change nothing.
pub fn try_match_detail_request(
    view: &mut PlayerViewState,
    shared: &SharedState,
    region: &String,
    id: i64,
) -> (r: Option<Payload>)
    ensures
        (r is Some) == (shared.versions_set() && shared.versions->Some_0@.len() > 0 && !old(
            view,
        ).detail_started(id)),
        r matches Some(p) ==> {
            &&& p == (Payload::GetMatchDetails {
                name: old(view).riot_user_name,
                tag_line: old(view).riot_tag_line,
                version: shared.versions->Some_0[0],
                id,
                region_id: *region,
            })
            &&& final(view).match_data_map@ == old(view).match_data_map@.insert(id, None)
        },
        r is None ==> *final(view) == *old(view),
        final(view).detail_started(id) == (old(view).detail_started(id) || r is Some),
        forall|other: i64|
            other != id ==> final(view).detail_started(other) == old(view).detail_started(other),
        final(view).riot_user_name == old(view).riot_user_name,
        final(view).riot_tag_line == old(view).riot_tag_line,
        final(view).match_summaries == old(view).match_summaries,
        final(view).rank_scores == old(view).rank_scores,
        final(view).ranking == old(view).ranking,
        final(view).icon_id == old(view).icon_id,
        final(view).page == old(view).page,
        final(view).finished_match_summaries == old(view).finished_match_summaries,
        final(view).player_suggestions == old(view).player_suggestions,
        final(view).error_notice == old(view).error_notice,
        crate::laws::detail_request_step(*old(view), *final(view), id, r is Some),
{
    let version = match shared.first_version() {
        Some(v) => v.clone(),
        None => {
            return None;
        },
    };
    if view.try_start_match_detail(id) {
        Some(Payload::GetMatchDetails {
            name: view.riot_user_name.clone(),
            tag_line: view.riot_tag_line.clone(),
            version,
            id,
            region_id: region.clone(),
        })
    } else {
        None
    }
}

/// Check one visible row's match detail and issue its fetch if due; the
/// guard and the enqueue happen in the same step.
pub fn request_match_detail(
    view: &mut PlayerViewState,
    shared: &SharedState,
    region: &String,
    tx: &async_channel::Sender<Payload>,
    id: i64,
) -> (requested: bool)
    ensures
        requested == (shared.versions_set() && shared.versions->Some_0@.len() > 0 && !old(
            view,
        ).detail_started(id)),
        requested ==> final(view).match_data_map@ == old(view).match_data_map@.insert(id, None),
        !requested ==> *final(view) == *old(view),
        final(view).detail_started(id) == (old(view).detail_started(id) || requested),
        forall|other: i64|
            other != id ==> final(view).detail_started(other) == old(view).detail_started(other),
        final(view).riot_user_name == old(view).riot_user_name,
        final(view).riot_tag_line == old(view).riot_tag_line,
        final(view).match_summaries == old(view).match_summaries,
        final(view).rank_scores == old(view).rank_scores,
        final(view).ranking == old(view).ranking,
        final(view).icon_id == old(view).icon_id,
        final(view).page == old(view).page,
        final(view).finished_match_summaries == old(view).finished_match_summaries,
        final(view).player_suggestions == old(view).player_suggestions,
        final(view).error_notice == old(view).error_notice,
        crate::laws::detail_request_step(*old(view), *final(view), id, requested),
{
    match try_match_detail_request(view, shared, region, id) {
        Some(p) => {
            enqueue(tx, p);
            true
        },
        None => false,
    }
}

/// The pair of requests a player refresh issues: the current match-summary
/// page and the player's profile.
pub open spec fn update_matches_spec(
    name: String,
    tag_line: String,
    role: u8,
    region: String,
    page: u8,
) -> Seq<Payload> {
    seq![
        Payload::MatchSummaries {
            name: name,
            tag_line: tag_line,
            roles: spec_role_index(role),
            page: page,
            region_id: region,
        },
        Payload::PlayerInfo { name: name, tag_line: tag_line, version_index: 0, region_id: region },
    ]
}

/// Build the requests a player refresh issues, in order.
pub fn update_matches_requests(
    name: &String,
    tag_line: &String,
    role: u8,
    region: &String,
    page: u8,
) -> (r: Vec<Payload>)
    ensures
        r@ == update_matches_spec(*name, *tag_line, role, *region, page),
{
    let roles = crate::queries::get_role_index(role);
    let mut r: Vec<Payload> = Vec::new();
    r.push(Payload::MatchSummaries {
        name: name.clone(),
        tag_line: tag_line.clone(),
        roles,
        page,
        region_id: region.clone(),
    });
    r.push(Payload::PlayerInfo {
        name: name.clone(),
        tag_line: tag_line.clone(),
        version_index: 0,
        region_id: region.clone(),
    });
    proof {
        assert(r@ =~= update_matches_spec(*name, *tag_line, role, *region, page));
    }
    r
}

/// Refresh the shown player: enqueue the match-summary page and the
/// profile fetch for the current page, role filter and region.
pub fn update_matches(
    tx: &async_channel::Sender<Payload>,
    name: &String,
    tag_line: &String,
    role: u8,
    region: &String,
    page: u8,
) {
    let mut requests = update_matches_requests(name, tag_line, role, region, page);
    while requests.len() > 0
        decreases requests.len(),
    {
        let p = requests.remove(0);
        enqueue(tx, p);
    }
}

/// Ask the backend to refresh its copy of the shown player's profile.
pub fn request_player_update(
    tx: &async_channel::Sender<Payload>,
    name: &String,
    tag_line: &String,
    region: &String,
) {
    enqueue(
        tx,
        Payload::UpdatePlayer {
            name: name.clone(),
            tag_line: tag_line.clone(),
            region_id: region.clone(),
        },
    );
}

/// Ask for search-box suggestions for the typed name.
pub fn request_player_suggestions(tx: &async_channel::Sender<Payload>, name: &String) {
    enqueue(tx, Payload::GetPlayerSuggestions { name: name.clone() });
}

} // verus!
