//! Applying worker responses to presentation state: the drain loop.
//!
//! [`drain_one`] is called once per render frame.  It makes a single
//! non-blocking poll of the response queue and, if a response is pending,
//! applies it synchronously through [`apply`] before returning; if the
//! queue is empty it returns at once and the frame renders the state it
//! has.  [`applies_to`] is the one statement of what applying each
//! response variant does — to the shared store, to the player's view
//! state, and to the set of follow-up requests it triggers.

use vstd::prelude::*;

use crate::domain::{
    Data, FetchPlayerMatchSummaries, FetchProfileRanks, GetMatch, MatchData, MatchSummary,
    PlayerInfo, PlayerMatchSummaries, ProfilePlayerInfo,
};
use crate::frame::{try_champ_image_request, update_matches_requests, update_matches_spec};
use crate::protocol::{Errors, Payload, Results};
use crate::queue::{drain_raw, enqueue};
use crate::shared::{Champ, SharedState};
use crate::view::{filter_rank_scores, kept_scores, PlayerViewState};

verus! {

/// How many summaries a full history page carries; a shorter page is the
/// last one.
pub const FULL_PAGE: usize = 20;

/// Whether champion artwork can be fetched at all: the catalog tells the
/// asset keys and the version list tells which artwork set to pull.
pub open spec fn can_fetch_images(sh: SharedState) -> bool {
    sh.champs_set() && sh.versions_set() && sh.versions->Some_0@.len() > 0
}

/// The catalog after walking a page of summaries and marking each summary's
/// champion as "artwork fetch started", first occurrence only.
pub open spec fn champ_flags_after(cat: Map<i64, Champ>, sums: Seq<MatchSummary>) -> Map<
    i64,
    Champ,
>
    decreases sums.len(),
{
    if sums.len() == 0 {
        cat
    } else {
        let prev = champ_flags_after(cat, sums.drop_last());
        let id = sums.last().champion_id;
        if prev.contains_key(id) && !prev[id].image_started {
            prev.insert(id, prev[id].with_started())
        } else {
            prev
        }
    }
}

/// The artwork requests issued while walking a page of summaries: one per
/// catalogued champion whose fetch was not already started, in page order,
/// each in the same step that marks its champion started.
pub open spec fn image_requests(
    cat: Map<i64, Champ>,
    version: String,
    sums: Seq<MatchSummary>,
) -> Seq<Payload>
    decreases sums.len(),
{
    if sums.len() == 0 {
        Seq::empty()
    } else {
        let prev_cat = champ_flags_after(cat, sums.drop_last());
        let prev = image_requests(cat, version, sums.drop_last());
        let id = sums.last().champion_id;
        if prev_cat.contains_key(id) && !prev_cat[id].image_started {
            prev.push(
                Payload::GetChampImage { version: version, key: prev_cat[id].key, id: id },
            )
        } else {
            prev
        }
    }
}

/// What applying a summary page does to the shared store: artwork flags
/// rise for the page's champions when images can be fetched; nothing else
/// moves.
pub open spec fn shared_after_summaries(
    pre: SharedState,
    post: SharedState,
    sums: Seq<MatchSummary>,
) -> bool {
    &&& post.versions == pre.versions
    &&& post.player_icons == pre.player_icons
    &&& if can_fetch_images(pre) {
        post.champs_set() && post.catalog() == champ_flags_after(pre.catalog(), sums)
    } else {
        post.champs == pre.champs
    }
}

/// The artwork requests a summary page triggers.
pub open spec fn summaries_requests(pre: SharedState, sums: Seq<MatchSummary>) -> Seq<Payload> {
    if can_fetch_images(pre) {
        image_requests(pre.catalog(), pre.versions->Some_0[0], sums)
    } else {
        Seq::empty()
    }
}

/// What applying an error response does: the error is surfaced as the
/// dismissible notice and nothing else moves — in particular, no dedup
/// guard is cleared, so a failed fetch is not retried without a fresh
/// user action.
pub open spec fn error_applied(
    pre_sh: SharedState,
    pre_vw: PlayerViewState,
    e: Errors,
    post_sh: SharedState,
    post_vw: PlayerViewState,
    reqs: Seq<Payload>,
) -> bool {
    &&& post_vw == PlayerViewState { error_notice: Some(e), ..pre_vw }
    &&& post_sh == pre_sh
    &&& reqs == Seq::<Payload>::empty()
}

/// Whether a player-info response belongs to the player the view shows and
/// carries both blocks the view needs.
pub open spec fn info_matches(pre_vw: PlayerViewState, info: PlayerInfo) -> bool {
    &&& info.data.profile_init_simple matches Some(w)
        && w.player_info.riot_user_name@ == pre_vw.riot_user_name@
        && w.player_info.riot_tag_line@ == pre_vw.riot_tag_line@
    &&& info.data.fetch_profile_ranks is Some
}

/// What applying a player-info response does to the view: a response for
/// the shown player records the icon id and the filtered rank scores; a
/// stale or incomplete one changes nothing.
pub open spec fn player_info_applied(
    pre_vw: PlayerViewState,
    info: PlayerInfo,
    post_vw: PlayerViewState,
) -> bool {
    if info_matches(pre_vw, info) {
        let w = info.data.profile_init_simple->Some_0;
        let ranks = info.data.fetch_profile_ranks->Some_0;
        &&& post_vw.icon_id == w.player_info.icon_id
        &&& post_vw.rank_scores matches Some(v) && v@ == kept_scores(ranks.rank_scores@)
        &&& post_vw.riot_user_name == pre_vw.riot_user_name
        &&& post_vw.riot_tag_line == pre_vw.riot_tag_line
        &&& post_vw.match_data_map == pre_vw.match_data_map
        &&& post_vw.match_summaries == pre_vw.match_summaries
        &&& post_vw.ranking == pre_vw.ranking
        &&& post_vw.page == pre_vw.page
        &&& post_vw.finished_match_summaries == pre_vw.finished_match_summaries
        &&& post_vw.player_suggestions == pre_vw.player_suggestions
        &&& post_vw.error_notice == pre_vw.error_notice
    } else {
        post_vw == pre_vw
    }
}

/// Everything of the view but the match-detail map held still.
pub open spec fn view_frame_except_map(pre: PlayerViewState, post: PlayerViewState) -> bool {
    &&& post.riot_user_name == pre.riot_user_name
    &&& post.riot_tag_line == pre.riot_tag_line
    &&& post.match_summaries == pre.match_summaries
    &&& post.rank_scores == pre.rank_scores
    &&& post.ranking == pre.ranking
    &&& post.icon_id == pre.icon_id
    &&& post.page == pre.page
    &&& post.finished_match_summaries == pre.finished_match_summaries
    &&& post.player_suggestions == pre.player_suggestions
    &&& post.error_notice == pre.error_notice
}

/// The one statement of what applying a response does.  `role` and
/// `region` are the presentation settings a profile-refresh success reads
/// when it triggers a new page fetch; `reqs` are the follow-up requests the
/// application issues, in order.
pub open spec fn applies_to(
    pre_sh: SharedState,
    pre_vw: PlayerViewState,
    role: u8,
    region: String,
    resp: Results,
    post_sh: SharedState,
    post_vw: PlayerViewState,
    reqs: Seq<Payload>,
) -> bool {
    match resp {
        Results::MatchSum(res) => match res {
            Ok(ms) => {
                let sums = ms.data.fetch_player_match_summaries.match_summaries;
                &&& post_vw == (PlayerViewState {
                    match_summaries: Some(sums),
                    finished_match_summaries: sums@.len() != FULL_PAGE,
                    ..pre_vw
                })
                &&& shared_after_summaries(pre_sh, post_sh, sums@)
                &&& reqs == summaries_requests(pre_sh, sums@)
            },
            Err(e) => error_applied(pre_sh, pre_vw, e, post_sh, post_vw, reqs),
        },
        Results::PlayerUpdate(res) => match res {
            Ok(u) => {
                &&& post_vw == pre_vw
                &&& post_sh == pre_sh
                &&& reqs == if u.data.update_player_profile.success {
                    update_matches_spec(
                        pre_vw.riot_user_name,
                        pre_vw.riot_tag_line,
                        role,
                        region,
                        pre_vw.page,
                    )
                } else {
                    Seq::<Payload>::empty()
                }
            },
            Err(e) => error_applied(pre_sh, pre_vw, e, post_sh, post_vw, reqs),
        },
        Results::Ranking(res) => match res {
            Ok(pr) => {
                &&& post_vw == (PlayerViewState { ranking: pr.data.overall_ranking, ..pre_vw })
                &&& post_sh == pre_sh
                &&& reqs == Seq::<Payload>::empty()
            },
            Err(e) => error_applied(pre_sh, pre_vw, e, post_sh, post_vw, reqs),
        },
        Results::PlayerInfo(res) => match res {
            Ok(info) => {
                &&& player_info_applied(pre_vw, info, post_vw)
                &&& post_sh == pre_sh
                &&& reqs == Seq::<Payload>::empty()
            },
            Err(e) => error_applied(pre_sh, pre_vw, e, post_sh, post_vw, reqs),
        },
        Results::PlayerIcon(e) => error_applied(pre_sh, pre_vw, e, post_sh, post_vw, reqs),
        Results::Versions(e) => error_applied(pre_sh, pre_vw, e, post_sh, post_vw, reqs),
        Results::ChampJson(e) => error_applied(pre_sh, pre_vw, e, post_sh, post_vw, reqs),
        Results::ChampImage(e) => error_applied(pre_sh, pre_vw, e, post_sh, post_vw, reqs),
        Results::MatchDetails(res) => match res {
            Ok(pair) => {
                let id = pair.1;
                let detail = pair.0.data.data_match;
                &&& post_sh == pre_sh
                &&& reqs == Seq::<Payload>::empty()
                &&& if pre_vw.detail_started(id) {
                    &&& post_vw.match_data_map@ == pre_vw.match_data_map@.insert(id, Some(detail))
                    &&& view_frame_except_map(pre_vw, post_vw)
                } else {
                    post_vw == pre_vw
                }
            },
            Err(e) => error_applied(pre_sh, pre_vw, e, post_sh, post_vw, reqs),
        },
        Results::PlayerSuggestions(res) => match res {
            Ok(s) => {
                &&& post_vw == (PlayerViewState { player_suggestions: s, ..pre_vw })
                &&& post_sh == pre_sh
                &&& reqs == Seq::<Payload>::empty()
            },
            Err(e) => error_applied(pre_sh, pre_vw, e, post_sh, post_vw, reqs),
        },
    }
}

/// Apply one response to the shared store and the view state, returning
/// the follow-up requests it triggers, in order.  The whole effect is
/// pinned by [`applies_to`].
pub fn apply(
    shared: &mut SharedState,
    view: &mut PlayerViewState,
    role: u8,
    region: &String,
    resp: Results,
) -> (reqs: Vec<Payload>)
    ensures
        applies_to(
            *old(shared),
            *old(view),
            role,
            *region,
            resp,
            *final(shared),
            *final(view),
            reqs@,
        ),
{
    match resp {
        Results::MatchSum(res) => match res {
            Ok(ms) => {
                let PlayerMatchSummaries { data } = ms;
                let Data { fetch_player_match_summaries } = data;
                let FetchPlayerMatchSummaries { match_summaries: sums } = fetch_player_match_summaries;
                let ghost pre_sh = *shared;
                view.finished_match_summaries = sums.len() != FULL_PAGE;
                let mut reqs: Vec<Payload> = Vec::new();
                let do_images = shared.champs.is_some() && match shared.first_version() {
                    Some(_) => true,
                    None => false,
                };
                assert(do_images == can_fetch_images(pre_sh));
                if do_images {
                    let ghost cat0 = pre_sh.catalog();
                    let ghost ver0 = pre_sh.versions->Some_0[0];
                    let mut i: usize = 0;
                    proof {
                        assert(sums@.take(0) =~= Seq::<MatchSummary>::empty());
                        assert(reqs@ =~= image_requests(cat0, ver0, sums@.take(0)));
                    }
                    while i < sums.len()
                        invariant
                            0 <= i <= sums@.len(),
                            can_fetch_images(pre_sh),
                            cat0 == pre_sh.catalog(),
                            ver0 == pre_sh.versions->Some_0[0],
                            shared.versions == pre_sh.versions,
                            shared.player_icons == pre_sh.player_icons,
                            shared.champs_set(),
                            shared.catalog() == champ_flags_after(cat0, sums@.take(i as int)),
                            reqs@ == image_requests(cat0, ver0, sums@.take(i as int)),
                        decreases sums@.len() - i,
                    {
                        let id = sums[i].champion_id;
                        proof {
                            assert(sums@.take(i + 1).drop_last() =~= sums@.take(i as int));
                            assert(sums@.take(i + 1).last() == sums@[i as int]);
                        }
                        match try_champ_image_request(shared, id) {
                            Some(p) => {
                                reqs.push(p);
                            },
                            None => {
                            },
                        }
                        i += 1;
                    }
                    proof {
                        assert(sums@.take(i as int) =~= sums@);
                    }
                }
                view.match_summaries = Some(sums);
                reqs
            },
            Err(e) => {
                view.error_notice = Some(e);
                Vec::new()
            },
        },
        Results::PlayerUpdate(res) => match res {
            Ok(u) => {
                if u.data.update_player_profile.success {
                    update_matches_requests(
                        &view.riot_user_name,
                        &view.riot_tag_line,
                        role,
                        region,
                        view.page,
                    )
                } else {
                    Vec::new()
                }
            },
            Err(e) => {
                view.error_notice = Some(e);
                Vec::new()
            },
        },
        Results::Ranking(res) => match res {
            Ok(pr) => {
                view.ranking = pr.data.overall_ranking;
                Vec::new()
            },
            Err(e) => {
                view.error_notice = Some(e);
                Vec::new()
            },
        },
        Results::PlayerInfo(res) => match res {
            Ok(info) => {
                let PlayerInfo { data } = info;
                let ProfilePlayerInfo { fetch_profile_ranks, profile_init_simple } = data;
                match (profile_init_simple, fetch_profile_ranks) {
                    (Some(w), Some(ranks)) => {
                        if w.player_info.riot_user_name == view.riot_user_name
                            && w.player_info.riot_tag_line == view.riot_tag_line {
                            let FetchProfileRanks { rank_scores } = ranks;
                            view.icon_id = w.player_info.icon_id;
                            view.rank_scores = Some(filter_rank_scores(rank_scores));
                        }
                    },
                    _ => {
                    },
                }
                Vec::new()
            },
            Err(e) => {
                view.error_notice = Some(e);
                Vec::new()
            },
        },
        Results::PlayerIcon(e) => {
            view.error_notice = Some(e);
            Vec::new()
        },
        Results::Versions(e) => {
            view.error_notice = Some(e);
            Vec::new()
        },
        Results::ChampJson(e) => {
            view.error_notice = Some(e);
            Vec::new()
        },
        Results::ChampImage(e) => {
            view.error_notice = Some(e);
            Vec::new()
        },
        Results::MatchDetails(res) => match res {
            Ok(pair) => {
                let (boxed, id) = pair;
                let GetMatch { data } = *boxed;
                let MatchData { data_match } = data;
                view.record_match_detail(id, data_match);
                Vec::new()
            },
            Err(e) => {
                view.error_notice = Some(e);
                Vec::new()
            },
        },
        Results::PlayerSuggestions(res) => match res {
            Ok(s) => {
                view.player_suggestions = s;
                Vec::new()
            },
            Err(e) => {
                view.error_notice = Some(e);
                Vec::new()
            },
        },
    }
}

/// The per-frame drain step: one non-blocking poll of the response queue.
/// If nothing is pending it changes nothing and returns at once; if a
/// response is pending it is applied as [`applies_to`] states, and the
/// follow-up requests it triggers are enqueued in the same step.  The call
/// never waits on a worker.
pub fn drain_one(
    rx: &async_channel::Receiver<Results>,
    tx: &async_channel::Sender<Payload>,
    shared: &mut SharedState,
    view: &mut PlayerViewState,
    role: u8,
    region: &String,
) -> (applied: bool)
    ensures
        !applied ==> *final(shared) == *old(shared) && *final(view) == *old(view),
        applied ==> exists|resp: Results, reqs: Seq<Payload>|
            applies_to(
                *old(shared),
                *old(view),
                role,
                *region,
                resp,
                *final(shared),
                *final(view),
                reqs,
            ),
{
    match drain_raw(rx) {
        Some(resp) => {
            let ghost resp_snapshot = resp;
            let mut reqs = apply(shared, view, role, region, resp);
            let ghost reqs_snapshot = reqs@;
            proof {
                assert(applies_to(
                    *old(shared),
                    *old(view),
                    role,
                    *region,
                    resp_snapshot,
                    *shared,
                    *view,
                    reqs_snapshot,
                ));
            }
            while reqs.len() > 0
                decreases reqs.len(),
            {
                let p = reqs.remove(0);
                enqueue(tx, p);
            }
            true
        },
        None => false,
    }
}

} // verus!
