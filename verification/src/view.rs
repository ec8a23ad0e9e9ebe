//! The per-player view state owned by the presentation layer.
//!
//! A [`PlayerViewState`] is created when a player search is committed and
//! replaced wholesale when the active player changes; because only the
//! render thread ever touches it, it needs no synchronisation.  The key in
//! `match_data_map` doubles as the dedup guard for match-detail fetches:
//! inserting the `None` placeholder *is* starting the fetch.

use vstd::prelude::*;

use std::collections::HashMap;

use crate::domain::{Match, MatchSummary, OverallRanking, PlayerSuggestions, RankScore};
use crate::protocol::Errors;

verus! {

broadcast use vstd::std_specs::hash::group_hash_axioms;

/// Everything the presentation layer tracks for the active player.
pub struct PlayerViewState {
    /// The player this state belongs to.
    pub riot_user_name: String,
    pub riot_tag_line: String,
    /// Match detail per match id; `None` marks a fetch as started and not
    /// yet answered.  Key presence is the match-detail dedup guard.
    pub match_data_map: HashMap<i64, Option<Match>>,
    /// The most recently applied page of match summaries.
    pub match_summaries: Option<Vec<MatchSummary>>,
    /// The player's rank scores, with empty-queue entries filtered out.
    pub rank_scores: Option<Vec<RankScore>>,
    pub ranking: Option<OverallRanking>,
    /// The player's profile-icon id; negative while unknown.
    pub icon_id: i16,
    /// The match-summary page currently shown, counted from 1.
    pub page: u8,
    /// Whether the page just fetched was the last one available.
    pub finished_match_summaries: bool,
    pub player_suggestions: PlayerSuggestions,
    /// The most recent worker failure, for a dismissible notice.
    pub error_notice: Option<Errors>,
}

/// Whether an entry survives rank-score filtering: scores for an unnamed
/// queue are dropped.
pub open spec fn keeps_score(r: RankScore) -> bool {
    r.queue_type@.len() != 0
}

/// The rank scores that survive filtering, in their original order.
pub open spec fn kept_scores(s: Seq<RankScore>) -> Seq<RankScore>
    decreases s.len(),
{
    if s.len() == 0 {
        Seq::empty()
    } else if keeps_score(s.last()) {
        kept_scores(s.drop_last()).push(s.last())
    } else {
        kept_scores(s.drop_last())
    }
}

/// Drop the rank scores whose queue name is empty, keeping order.
pub fn filter_rank_scores(mut scores: Vec<RankScore>) -> (r: Vec<RankScore>)
    ensures
        r@ == kept_scores(scores@),
{
    let ghost all = scores@;
    let mut result: Vec<RankScore> = Vec::new();
    proof {
        assert(all.take(0) =~= Seq::<RankScore>::empty());
        assert(all.skip(0) =~= all);
        assert(result@ =~= kept_scores(all.take(0)));
    }
    let ghost k: int = 0;
    while scores.len() > 0
        invariant
            0 <= k <= all.len(),
            scores@ =~= all.skip(k),
            result@ == kept_scores(all.take(k)),
        decreases scores.len(),
    {
        let s = scores.remove(0);
        proof {
            assert(s == all[k]);
            assert(all.skip(k).remove(0) =~= all.skip(k + 1));
            assert(all.take(k + 1).drop_last() =~= all.take(k));
            assert(all.take(k + 1).last() == all[k]);
        }
        if !s.queue_type.as_str().is_empty() {
            result.push(s);
        }
        proof {
            k = k + 1;
        }
    }
    proof {
        assert(all.take(k) =~= all);
    }
    result
}

impl PlayerViewState {
    /// Whether this is the untouched state for the given player: no page of
    /// data applied, no fetch started, nothing pending.
    pub open spec fn is_fresh_for(self, name: Seq<char>, tag_line: Seq<char>) -> bool {
        &&& self.riot_user_name@ == name
        &&& self.riot_tag_line@ == tag_line
        &&& self.match_data_map@ == Map::<i64, Option<Match>>::empty()
        &&& self.match_summaries is None
        &&& self.rank_scores is None
        &&& self.ranking is None
        &&& self.icon_id == -1
        &&& self.page == 1
        &&& self.finished_match_summaries == true
        &&& self.player_suggestions.data.player_profile_suggestions@ == Seq::<
            crate::domain::PlayerInfoSuggestion,
        >::empty()
        &&& self.error_notice is None
    }

    /// Whether a match-detail fetch for `id` has been started (the dedup
    /// guard for match details).
    pub open spec fn detail_started(self, id: i64) -> bool {
        self.match_data_map@.contains_key(id)
    }

    /// The state created when a search for this player is committed.
    pub fn new(riot_user_name: String, riot_tag_line: String) -> (r: PlayerViewState)
        ensures
            r.is_fresh_for(riot_user_name@, riot_tag_line@),
    {
        let r = PlayerViewState {
            riot_user_name,
            riot_tag_line,
            match_data_map: HashMap::new(),
            match_summaries: None,
            rank_scores: None,
            ranking: None,
            icon_id: -1,
            page: 1,
            finished_match_summaries: true,
            player_suggestions: PlayerSuggestions::empty(),
            error_notice: None,
        };
        proof {
            assert(r.match_data_map@ =~= Map::<i64, Option<Match>>::empty());
            assert(r.player_suggestions.data.player_profile_suggestions@ =~= Seq::<
                crate::domain::PlayerInfoSuggestion,
            >::empty());
        }
        r
    }

    /// Switch to another player: every field, including all pending dedup
    /// guards in `match_data_map`, is discarded, so the new player's
    /// fetches are never blocked by the old player's entries.
    pub fn reset(&mut self, riot_user_name: String, riot_tag_line: String)
        ensures
            final(self).is_fresh_for(riot_user_name@, riot_tag_line@),
    {
        *self = PlayerViewState::new(riot_user_name, riot_tag_line);
    }

    /// The per-match dedup guard: if no fetch for `id` was started yet,
    /// insert the `None` placeholder and report that the caller should
    /// enqueue the fetch; otherwise change nothing.  Placeholders are only
    /// ever overwritten by an arrived detail, never removed, so for each
    /// match id at most one call ever returns true.
    pub fn try_start_match_detail(&mut self, id: i64) -> (started: bool)
        ensures
            started == !old(self).detail_started(id),
            started ==> final(self).match_data_map@ == old(self).match_data_map@.insert(id, None),
            !started ==> final(self).match_data_map == old(self).match_data_map,
            final(self).detail_started(id),
            final(self).riot_user_name == old(self).riot_user_name,
            final(self).riot_tag_line == old(self).riot_tag_line,
            final(self).match_summaries == old(self).match_summaries,
            final(self).rank_scores == old(self).rank_scores,
            final(self).ranking == old(self).ranking,
            final(self).icon_id == old(self).icon_id,
            final(self).page == old(self).page,
            final(self).finished_match_summaries == old(self).finished_match_summaries,
            final(self).player_suggestions == old(self).player_suggestions,
            final(self).error_notice == old(self).error_notice,
    {
        if self.match_data_map.contains_key(&id) {
            false
        } else {
            self.match_data_map.insert(id, None);
            true
        }
    }

    /// Record an arrived match detail.  The detail is kept only if the
    /// guard for its id is present — a detail for a player no longer shown
    /// (the guard was dropped with the old view state) is ignored.
    pub fn record_match_detail(&mut self, id: i64, detail: Match) -> (kept: bool)
        ensures
            kept == old(self).detail_started(id),
            kept ==> final(self).match_data_map@ == old(self).match_data_map@.insert(
                id,
                Some(detail),
            ),
            !kept ==> final(self).match_data_map == old(self).match_data_map,
            final(self).riot_user_name == old(self).riot_user_name,
            final(self).riot_tag_line == old(self).riot_tag_line,
            final(self).match_summaries == old(self).match_summaries,
            final(self).rank_scores == old(self).rank_scores,
            final(self).ranking == old(self).ranking,
            final(self).icon_id == old(self).icon_id,
            final(self).page == old(self).page,
            final(self).finished_match_summaries == old(self).finished_match_summaries,
            final(self).player_suggestions == old(self).player_suggestions,
            final(self).error_notice == old(self).error_notice,
    {
        if self.match_data_map.contains_key(&id) {
            self.match_data_map.insert(id, Some(detail));
            true
        } else {
            false
        }
    }

    /// Look up an arrived match detail; `None` both while the fetch is
    /// pending and when it was never started.
    pub fn match_detail(&self, id: i64) -> (r: Option<&Match>)
        ensures
            match r {
                Some(m) => self.detail_started(id) && self.match_data_map@[id] == Some(*m),
                None => !self.detail_started(id) || self.match_data_map@[id] is None,
            },
    {
        match self.match_data_map.get(&id) {
            Some(Some(m)) => Some(m),
            _ => None,
        }
    }
}

} // verus!
