//! The core's headline guarantees, stated and proved.
//!
//! Three families of laws live here: the at-most-once discipline of the
//! dedup guards (a fetch for a resource is issued at most once however
//! many frames observe the miss), the write-once integrity of the shared
//! version list (of racing populations exactly one payload is kept), and
//! the idempotence of response application on the view state.

use vstd::prelude::*;

use crate::apply::{applies_to, champ_flags_after, error_applied, shared_after_summaries};
use crate::protocol::{Payload, Results};
use crate::shared::{Champ, SharedState};
use crate::view::PlayerViewState;

verus! {

/// One step of a dedup guard's life: a request is issued only when the
/// guard is down, issuing raises it, and a raised guard never falls.
pub open spec fn guard_step(pre: bool, post: bool, issued: bool) -> bool {
    &&& issued ==> !pre && post
    &&& pre ==> post
}

/// How many of a run of request decisions actually issued a request.
pub open spec fn count_true(s: Seq<bool>) -> int
    decreases s.len(),
{
    if s.len() == 0 {
        0
    } else {
        count_true(s.drop_last()) + if s.last() {
            1int
        } else {
            0int
        }
    }
}

proof fn lemma_count_true_nonneg(s: Seq<bool>)
    ensures
        count_true(s) >= 0,
    decreases s.len(),
{
    if s.len() > 0 {
        lemma_count_true_nonneg(s.drop_last());
    }
}

/// At-most-once fetch, in the abstract: across any run of frames each of
/// which obeys the guard discipline of [`guard_step`], at most one frame
/// issues a request; and if one did, the guard is up at the end.
pub proof fn lemma_guard_at_most_once(started: Seq<bool>, issued: Seq<bool>)
    requires
        started.len() == issued.len() + 1,
        forall|i: int|
            0 <= i < issued.len() ==> guard_step(started[i], #[trigger] started[i + 1], issued[i]),
    ensures
        count_true(issued) <= 1,
        count_true(issued) >= 1 ==> started.last(),
    decreases issued.len(),
{
    if issued.len() > 0 {
        let n = issued.len() as int;
        let started_prefix = started.drop_last();
        let issued_prefix = issued.drop_last();
        assert forall|i: int|
            0 <= i < issued_prefix.len() implies guard_step(
            started_prefix[i],
            #[trigger] started_prefix[i + 1],
            issued_prefix[i],
        ) by {
            assert(started_prefix[i] == started[i]);
            assert(started_prefix[i + 1] == started[i + 1]);
            assert(issued_prefix[i] == issued[i]);
            assert(guard_step(started[i], started[i + 1], issued[i]));
        }
        lemma_guard_at_most_once(started_prefix, issued_prefix);
        lemma_count_true_nonneg(issued_prefix);
        assert(guard_step(started[n - 1], started[n], issued[n - 1]));
        assert(started_prefix.last() == started[n - 1]);
        if issued.last() {
            assert(!started[n - 1]);
            assert(count_true(issued_prefix) == 0);
            assert(count_true(issued) == 1);
            assert(started.last());
        } else {
            assert(count_true(issued) == count_true(issued_prefix));
        }
    }
}

/// One frame's champion-artwork decision for a fixed champion, as the
/// contract of the per-frame request step states it: issued exactly on a
/// first-time miss with the catalog and a version at hand, and the guard
/// rises exactly then.
pub open spec fn champ_request_step(
    pre: SharedState,
    post: SharedState,
    id: i64,
    issued: bool,
) -> bool {
    &&& issued == (pre.versions_set() && pre.versions->Some_0@.len() > 0 && pre.has_champ(id)
        && !pre.image_started(id))
    &&& post.image_started(id) == (pre.image_started(id) || issued)
}

/// At-most-once champion-artwork fetch: across any run of frames that each
/// check and possibly request one champion's artwork, at most one request
/// for that champion is ever issued.
pub proof fn lemma_champ_image_at_most_once(states: Seq<SharedState>, issued: Seq<bool>, id: i64)
    requires
        states.len() == issued.len() + 1,
        forall|i: int|
            0 <= i < issued.len() ==> champ_request_step(
                states[i],
                #[trigger] states[i + 1],
                id,
                issued[i],
            ),
    ensures
        count_true(issued) <= 1,
{
    let started = Seq::new(states.len(), |i: int| states[i].image_started(id));
    assert forall|i: int|
        0 <= i < issued.len() implies guard_step(started[i], #[trigger] started[i + 1], issued[i]) by {
        assert(champ_request_step(states[i], states[i + 1], id, issued[i]));
    }
    lemma_guard_at_most_once(started, issued);
}

/// One frame's match-detail decision for a fixed match id: a request is
/// issued only when no fetch was started, and the guard (key presence in
/// the detail map) rises exactly when one is issued.
pub open spec fn detail_request_step(
    pre: PlayerViewState,
    post: PlayerViewState,
    id: i64,
    issued: bool,
) -> bool {
    &&& issued ==> !pre.detail_started(id)
    &&& post.detail_started(id) == (pre.detail_started(id) || issued)
}

/// At-most-once match-detail fetch: across any run of frames that each
/// check and possibly request one match's detail, at most one request for
/// that match is ever issued within the life of the view state.
pub proof fn lemma_match_detail_at_most_once(
    states: Seq<PlayerViewState>,
    issued: Seq<bool>,
    id: i64,
)
    requires
        states.len() == issued.len() + 1,
        forall|i: int|
            0 <= i < issued.len() ==> detail_request_step(
                states[i],
                #[trigger] states[i + 1],
                id,
                issued[i],
            ),
    ensures
        count_true(issued) <= 1,
{
    let started = Seq::new(states.len(), |i: int| states[i].detail_started(id));
    assert forall|i: int|
        0 <= i < issued.len() implies guard_step(started[i], #[trigger] started[i + 1], issued[i]) by {
        assert(detail_request_step(states[i], states[i + 1], id, issued[i]));
    }
    lemma_guard_at_most_once(started, issued);
}

proof fn lemma_flags_monotone(cat: Map<i64, Champ>, sums: Seq<crate::domain::MatchSummary>, id: i64)
    ensures
        champ_flags_after(cat, sums).contains_key(id) == cat.contains_key(id),
        cat.contains_key(id) && cat[id].image_started ==> champ_flags_after(
            cat,
            sums,
        )[id].image_started,
    decreases sums.len(),
{
    if sums.len() > 0 {
        lemma_flags_monotone(cat, sums.drop_last(), id);
        lemma_flags_monotone(cat, sums.drop_last(), sums.last().champion_id);
    }
}

/// Applying a response never clears a champion's "fetch started" flag: in
/// particular a failed artwork fetch leaves the guard up, so no second
/// automatic request follows.
pub proof fn lemma_apply_keeps_champ_guard(
    pre_sh: SharedState,
    pre_vw: PlayerViewState,
    role: u8,
    region: String,
    resp: Results,
    post_sh: SharedState,
    post_vw: PlayerViewState,
    reqs: Seq<Payload>,
    id: i64,
)
    requires
        applies_to(pre_sh, pre_vw, role, region, resp, post_sh, post_vw, reqs),
        pre_sh.image_started(id),
    ensures
        post_sh.image_started(id),
{
    match resp {
        Results::MatchSum(res) => match res {
            Ok(ms) => {
                let sums = ms.data.fetch_player_match_summaries.match_summaries;
                if crate::apply::can_fetch_images(pre_sh) {
                    lemma_flags_monotone(pre_sh.catalog(), sums@, id);
                } else {
                }
            },
            Err(_) => {
            },
        },
        _ => {
        },
    }
}

/// How many of a batch of follow-up requests fetch one champion's artwork.
pub open spec fn count_image_requests(reqs: Seq<Payload>, id: i64) -> int
    decreases reqs.len(),
{
    if reqs.len() == 0 {
        0
    } else {
        count_image_requests(reqs.drop_last(), id) + if reqs.last() matches Payload::GetChampImage {
            id: rid,
            ..
        } && rid == id {
            1int
        } else {
            0int
        }
    }
}

proof fn lemma_image_requests_count(
    cat: Map<i64, Champ>,
    version: String,
    sums: Seq<crate::domain::MatchSummary>,
    id: i64,
)
    ensures
        count_image_requests(crate::apply::image_requests(cat, version, sums), id) == (if
            cat.contains_key(id) && !cat[id].image_started && champ_flags_after(
            cat,
            sums,
        ).contains_key(id) && champ_flags_after(cat, sums)[id].image_started {
            1int
        } else {
            0int
        }),
    decreases sums.len(),
{
    if sums.len() > 0 {
        lemma_image_requests_count(cat, version, sums.drop_last(), id);
        lemma_flags_monotone(cat, sums.drop_last(), id);
        let prev_cat = champ_flags_after(cat, sums.drop_last());
        let prev = crate::apply::image_requests(cat, version, sums.drop_last());
        let last_id = sums.last().champion_id;
        if prev_cat.contains_key(last_id) && !prev_cat[last_id].image_started {
            let p = Payload::GetChampImage {
                version: version,
                key: prev_cat[last_id].key,
                id: last_id,
            };
            assert(prev.push(p).drop_last() =~= prev);
            assert(prev.push(p).last() == p);
        }
    }
}

/// At-most-once fetch within one applied summary page: however many rows
/// of the page show the same champion, the page's follow-up requests fetch
/// that champion's artwork at most once.
pub proof fn lemma_page_requests_at_most_once(
    pre_sh: SharedState,
    pre_vw: PlayerViewState,
    role: u8,
    region: String,
    resp: Results,
    post_sh: SharedState,
    post_vw: PlayerViewState,
    reqs: Seq<Payload>,
    id: i64,
)
    requires
        applies_to(pre_sh, pre_vw, role, region, resp, post_sh, post_vw, reqs),
    ensures
        count_image_requests(reqs, id) <= 1,
{
    match resp {
        Results::MatchSum(res) => match res {
            Ok(ms) => {
                let sums = ms.data.fetch_player_match_summaries.match_summaries;
                if crate::apply::can_fetch_images(pre_sh) {
                    lemma_image_requests_count(
                        pre_sh.catalog(),
                        pre_sh.versions->Some_0[0],
                        sums@,
                        id,
                    );
                }
            },
            Err(_) => {
            },
        },
        Results::PlayerUpdate(res) => match res {
            Ok(u) => {
                if u.data.update_player_profile.success {
                    let pair = crate::frame::update_matches_spec(
                        pre_vw.riot_user_name,
                        pre_vw.riot_tag_line,
                        role,
                        region,
                        pre_vw.page,
                    );
                    assert(pair.len() == 2);
                    assert(pair.last() == (Payload::PlayerInfo {
                        name: pre_vw.riot_user_name,
                        tag_line: pre_vw.riot_tag_line,
                        version_index: 0,
                        region_id: region,
                    }));
                    assert(pair.drop_last() =~= seq![pair[0]]);
                    assert(seq![pair[0]].drop_last() =~= Seq::<Payload>::empty());
                    assert(seq![pair[0]].last() == pair[0]);
                    assert(!(pair[0] matches Payload::GetChampImage { .. }));
                    assert(count_image_requests(Seq::<Payload>::empty(), id) == 0);
                    assert(seq![pair[0]].drop_last() == Seq::<Payload>::empty());
                    assert(count_image_requests(seq![pair[0]], id) == 0);
                    assert(count_image_requests(pair, id) == 0);
                }
            },
            Err(_) => {
            },
        },
        _ => {
        },
    }
}

/// Applying a response never clears a match-detail guard: once a detail
/// fetch is started, its key stays in the map — holding a `None` until the
/// detail arrives, the detail afterwards.
pub proof fn lemma_apply_keeps_detail_guard(
    pre_sh: SharedState,
    pre_vw: PlayerViewState,
    role: u8,
    region: String,
    resp: Results,
    post_sh: SharedState,
    post_vw: PlayerViewState,
    reqs: Seq<Payload>,
    id: i64,
)
    requires
        applies_to(pre_sh, pre_vw, role, region, resp, post_sh, post_vw, reqs),
        pre_vw.detail_started(id),
    ensures
        post_vw.detail_started(id),
{
}

/// One population attempt on the write-once version list, as the store's
/// contract states it: the first write wins, a later one is discarded
/// whole, and nothing else moves.
pub open spec fn versions_populate(pre: SharedState, post: SharedState, v: Vec<String>) -> bool {
    &&& post.versions == (if pre.versions_set() {
        pre.versions
    } else {
        Some(v)
    })
    &&& post.champs == pre.champs
    &&& post.player_icons == pre.player_icons
}

/// Write-once cache integrity: when two workers race to populate the
/// version list with different payloads, exactly the first one's payload
/// is stored — the second population is an idempotent no-op — and every
/// state a reader can observe holds either no list or that one final
/// value, never a mixture.
pub proof fn lemma_versions_write_once(
    s0: SharedState,
    s1: SharedState,
    s2: SharedState,
    a: Vec<String>,
    b: Vec<String>,
)
    requires
        !s0.versions_set(),
        versions_populate(s0, s1, a),
        versions_populate(s1, s2, b),
    ensures
        s1.versions == Some(a),
        s2.versions == Some(a),
{
}

/// Whether two view states show the same thing: equal field for field,
/// with the detail map compared by contents.
pub open spec fn view_equiv(a: PlayerViewState, b: PlayerViewState) -> bool {
    &&& a.riot_user_name == b.riot_user_name
    &&& a.riot_tag_line == b.riot_tag_line
    &&& a.match_data_map@ == b.match_data_map@
    &&& a.match_summaries == b.match_summaries
    &&& (a.rank_scores is Some <==> b.rank_scores is Some)
    &&& (a.rank_scores is Some ==> a.rank_scores->Some_0@ == b.rank_scores->Some_0@)
    &&& a.ranking == b.ranking
    &&& a.icon_id == b.icon_id
    &&& a.page == b.page
    &&& a.finished_match_summaries == b.finished_match_summaries
    &&& a.player_suggestions == b.player_suggestions
    &&& a.error_notice == b.error_notice
}

/// Idempotent response application: applying the same response a second
/// time leaves the view state showing exactly what the first application
/// left it showing.
pub proof fn lemma_apply_idempotent_on_view(
    pre_sh: SharedState,
    pre_vw: PlayerViewState,
    role: u8,
    region: String,
    resp: Results,
    sh1: SharedState,
    vw1: PlayerViewState,
    reqs1: Seq<Payload>,
    sh2: SharedState,
    vw2: PlayerViewState,
    reqs2: Seq<Payload>,
)
    requires
        applies_to(pre_sh, pre_vw, role, region, resp, sh1, vw1, reqs1),
        applies_to(sh1, vw1, role, region, resp, sh2, vw2, reqs2),
    ensures
        view_equiv(vw2, vw1),
{
    match resp {
        Results::MatchDetails(res) => match res {
            Ok(pair) => {
                let id = pair.1;
                let detail = pair.0.data.data_match;
                if pre_vw.detail_started(id) {
                    assert(vw1.detail_started(id));
                    assert(vw1.match_data_map@.insert(id, Some(detail))
                        =~= vw1.match_data_map@);
                } else {
                }
            },
            Err(_) => {
            },
        },
        _ => {
        },
    }
}

} // verus!
