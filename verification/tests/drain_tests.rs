use matchcore::apply::{apply, drain_one};
use matchcore::catalog::build_catalog;
use matchcore::domain::{
    ChampData, ChampionJson, Data, FetchPlayerMatchSummaries, FetchProfileRanks, FullMatchSummary,
    GetMatch, Image, Info, Match, MatchData, MatchSummary, OverallRanking, PlayerInfo,
    PlayerInfoWrapper, PlayerMatchSummaries, PlayerRanking, ProfileInfo, ProfilePlayerInfo,
    RankScore, RankingData,
};
use matchcore::protocol::{Errors, Payload, Results};
use matchcore::shared::SharedState;
use matchcore::view::PlayerViewState;
use matchcore::domain::{UpdateData, UpdatePlayer, UpdatePlayerProfile};
use matchcore::worker::{worker_champ_image, worker_champ_info, worker_icon, worker_versions, icon_followup};

fn summary(champion_id: i64, match_id: i64) -> MatchSummary {
    MatchSummary {
        assists: 5,
        champion_id,
        cs: 180,
        damage: 20000,
        deaths: 2,
        gold: 11000,
        items: vec![1001],
        jungle_cs: 0,
        kill_participation: 50,
        kills: 7,
        level: 16,
        match_creation_time: 1_700_000_000,
        match_duration: 1800,
        match_id,
        maximum_kill_streak: 3,
        primary_style: 8000,
        ps_hard_carry: 60,
        ps_team_play: 40,
        queue_type: "Ranked Solo".to_string(),
        region_id: "na1".to_string(),
        role: 4,
        runes: vec![8005],
        sub_style: 8100,
        riot_user_name: "Faker".to_string(),
        riot_tag_line: "KR1".to_string(),
        summoner_spells: vec![4, 12],
        team_a: vec![],
        team_b: vec![],
        version: "14.1.1".to_string(),
        vision_score: 20,
        win: true,
    }
}

fn summaries_response(sums: Vec<MatchSummary>) -> Results {
    Results::MatchSum(Ok(PlayerMatchSummaries {
        data: Data {
            fetch_player_match_summaries: FetchPlayerMatchSummaries { match_summaries: sums },
        },
    }))
}

fn champ_entry(id: &str, key: &str, name: &str) -> ChampData {
    ChampData {
        version: "14.1.1".to_string(),
        key: key.to_string(),
        id: id.to_string(),
        name: name.to_string(),
        title: "".to_string(),
        blurb: "".to_string(),
        info: Info { attack: 2, defense: 3, magic: 10, difficulty: 6 },
        image: Image {
            full: format!("{}.png", key),
            sprite: "champion0.png".to_string(),
            group: "champion".to_string(),
            x: 0,
            y: 0,
            w: 48,
            h: 48,
        },
        tags: vec![],
        partype: "Mana".to_string(),
    }
}

fn champ_doc(entries: Vec<ChampData>) -> ChampionJson {
    ChampionJson {
        _type: "champion".to_string(),
        format: "standAloneComplex".to_string(),
        version: "14.1.1".to_string(),
        data: entries,
    }
}

fn ready_shared() -> SharedState {
    let mut shared = SharedState::new();
    shared.set_versions(vec!["14.1.1".to_string()]);
    let map = build_catalog(&champ_doc(vec![
        champ_entry("1", "Annie", "Annie"),
        champ_entry("7", "Leblanc", "LeBlanc"),
    ]))
    .unwrap();
    shared.set_champs(map);
    shared
}

fn score(queue: &str, lp: i64) -> RankScore {
    RankScore {
        last_updated_at: None,
        losses: 10,
        lp,
        promo_progress: None,
        queue_type: queue.to_string(),
        rank: "IV".to_string(),
        role: None,
        season_id: 22,
        tier: "Gold".to_string(),
        wins: 12,
    }
}

fn info_response(name: &str, tag: &str, icon_id: i16, scores: Vec<RankScore>) -> Results {
    Results::PlayerInfo(Ok(PlayerInfo {
        data: ProfilePlayerInfo {
            fetch_profile_ranks: Some(FetchProfileRanks { rank_scores: scores }),
            profile_init_simple: Some(PlayerInfoWrapper {
                last_modified: "today".to_string(),
                player_info: ProfileInfo {
                    icon_id,
                    summoner_level: 500,
                    riot_user_name: name.to_string(),
                    riot_tag_line: tag.to_string(),
                },
            }),
        },
    }))
}

fn detail_response(match_id: i64) -> Results {
    Results::MatchDetails(Ok((
        Box::new(GetMatch {
            data: MatchData {
                data_match: Match {
                    match_summary: FullMatchSummary {
                        assists: 5,
                        champion_id: 1,
                        cs: 180,
                        damage: 20000,
                        deaths: 2,
                        gold: 11000,
                        items: vec![1001],
                        jungle_cs: 0,
                        kill_participation: 50,
                        kills: 7,
                        level: 16,
                        match_creation_time: 1_700_000_000,
                        match_duration: 1800,
                        match_id,
                        maximum_kill_streak: 3,
                        primary_style: 8000,
                        ps_hard_carry: 60,
                        ps_team_play: 40,
                        queue_type: None,
                        region_id: "na1".to_string(),
                        role: Some(4),
                        runes: vec![8005],
                        sub_style: 8100,
                        riot_user_name: Some("Faker".to_string()),
                        riot_tag_line: Some("KR1".to_string()),
                        summoner_spells: vec![4, 12],
                        team_a: vec![],
                        team_b: vec![],
                        version: "14.1.1".to_string(),
                        vision_score: 20,
                        win: true,
                    },
                    performance_score: vec![],
                    winning_team: 100,
                },
            },
        }),
        match_id,
    )))
}

fn view_for(name: &str, tag: &str) -> PlayerViewState {
    PlayerViewState::new(name.to_string(), tag.to_string())
}

#[test]
fn worker_versions_populates_once_and_reports_failures() {
    let mut shared = SharedState::new();
    assert!(worker_versions(&mut shared, Ok(vec!["14.1.1".to_string()])).is_none());
    assert_eq!(shared.versions, Some(vec!["14.1.1".to_string()]));
    // a second success is discarded whole
    assert!(worker_versions(&mut shared, Ok(vec!["13.24.1".to_string()])).is_none());
    assert_eq!(shared.versions, Some(vec!["14.1.1".to_string()]));
    // a failure answers and changes nothing
    let resp = worker_versions(&mut shared, Err(Errors::Network("down".to_string())));
    match resp {
        Some(Results::Versions(Errors::Network(m))) => assert_eq!(m, "down"),
        other => panic!("expected a versions error, got {:?}", other),
    }
}

#[test]
fn worker_champ_info_populates_catalog_or_reports() {
    let mut shared = SharedState::new();
    let ok = worker_champ_info(&mut shared, Ok(champ_doc(vec![champ_entry("1", "Annie", "Annie")])));
    assert!(ok.is_none());
    assert_eq!(shared.get_champ(1).unwrap().name, "Annie");

    let mut failed = SharedState::new();
    let bad = worker_champ_info(&mut failed, Ok(champ_doc(vec![champ_entry("x", "X", "X")])));
    match bad {
        Some(Results::ChampJson(Errors::Decode(_))) => {}
        other => panic!("expected a decode error, got {:?}", other),
    }
    assert!(failed.champs.is_none());

    let err = worker_champ_info(&mut failed, Err(Errors::Network("down".to_string())));
    match err {
        Some(Results::ChampJson(Errors::Network(_))) => {}
        other => panic!("expected a network error, got {:?}", other),
    }
}

#[test]
fn worker_champ_image_fills_slot_and_drops_stale() {
    let mut shared = ready_shared();
    assert!(worker_champ_image(&mut shared, 1, Ok(77)).is_none());
    assert_eq!(shared.get_champ(1).unwrap().image, Some(77));
    // a stale response for an uncatalogued champion is dropped silently
    assert!(worker_champ_image(&mut shared, 999, Ok(88)).is_none());
    // a failure answers
    match worker_champ_image(&mut shared, 1, Err(Errors::Image("bad png".to_string()))) {
        Some(Results::ChampImage(Errors::Image(_))) => {}
        other => panic!("expected an image error, got {:?}", other),
    }
}

#[test]
fn worker_icon_keeps_first_texture() {
    let mut shared = SharedState::new();
    assert!(worker_icon(&mut shared, 7, Ok(500)).is_none());
    assert!(worker_icon(&mut shared, 7, Ok(501)).is_none());
    assert_eq!(shared.icon_texture(7), Some(500));
    match worker_icon(&mut shared, 7, Err(Errors::Network("down".to_string()))) {
        Some(Results::PlayerIcon(_)) => {}
        other => panic!("expected a player-icon error, got {:?}", other),
    }
}

#[test]
fn icon_followup_needs_profile_and_version() {
    let shared = ready_shared();
    let full = match info_response("Faker", "KR1", 29, vec![]) {
        Results::PlayerInfo(Ok(info)) => info,
        _ => unreachable!(),
    };
    assert_eq!(icon_followup(&shared, &full, 0), Some((29, "14.1.1".to_string())));
    // version index out of range: no follow-up
    assert_eq!(icon_followup(&shared, &full, 5), None);
    // no profile block: no follow-up
    let bare = PlayerInfo {
        data: ProfilePlayerInfo { fetch_profile_ranks: None, profile_init_simple: None },
    };
    assert_eq!(icon_followup(&shared, &bare, 0), None);
    // versions not populated: no follow-up
    let empty = SharedState::new();
    assert_eq!(icon_followup(&empty, &full, 0), None);
}

#[test]
fn apply_match_summaries_dedups_artwork_requests() {
    let mut shared = ready_shared();
    let mut view = view_for("Faker", "KR1");
    let region = "na1".to_string();
    // two rows with the same champion: one artwork request
    let resp = summaries_response(vec![summary(1, 1000), summary(1, 1001)]);
    let reqs = apply(&mut shared, &mut view, 5, &region, resp);
    assert_eq!(reqs.len(), 1);
    match &reqs[0] {
        Payload::GetChampImage { version, key, id } => {
            assert_eq!(version, "14.1.1");
            assert_eq!(key, "Annie");
            assert_eq!(*id, 1);
        }
        other => panic!("expected an artwork request, got {:?}", other),
    }
    assert!(shared.get_champ(1).unwrap().image_started);
    assert_eq!(view.match_summaries.as_ref().unwrap().len(), 2);
    // a short page is the last one
    assert!(view.finished_match_summaries);

    // the next page with the same champion requests nothing more
    let resp = summaries_response(vec![summary(1, 1002)]);
    let reqs = apply(&mut shared, &mut view, 5, &region, resp);
    assert!(reqs.is_empty());
}

#[test]
fn apply_match_summaries_without_catalog_requests_nothing() {
    let mut shared = SharedState::new();
    let mut view = view_for("Faker", "KR1");
    let region = "na1".to_string();
    let reqs = apply(&mut shared, &mut view, 5, &region, summaries_response(vec![summary(1, 1000)]));
    assert!(reqs.is_empty());
    assert!(view.match_summaries.is_some());
}

#[test]
fn apply_player_info_records_icon_and_filtered_scores() {
    let mut shared = ready_shared();
    let mut view = view_for("Faker", "KR1");
    let region = "na1".to_string();
    let resp = info_response("Faker", "KR1", 29, vec![score("Ranked Solo", 42), score("", 7)]);
    let reqs = apply(&mut shared, &mut view, 5, &region, resp);
    assert!(reqs.is_empty());
    assert_eq!(view.icon_id, 29);
    let kept = view.rank_scores.as_ref().unwrap();
    assert_eq!(kept.len(), 1);
    assert_eq!(kept[0].queue_type, "Ranked Solo");
}

#[test]
fn apply_player_info_ignores_stale_player() {
    let mut shared = ready_shared();
    let mut view = view_for("Faker", "KR1");
    let region = "na1".to_string();
    let resp = info_response("SomeoneElse", "EU1", 30, vec![score("Ranked Solo", 42)]);
    apply(&mut shared, &mut view, 5, &region, resp);
    assert_eq!(view.icon_id, -1);
    assert!(view.rank_scores.is_none());
}

#[test]
fn apply_ranking_records_ladder_position() {
    let mut shared = ready_shared();
    let mut view = view_for("Faker", "KR1");
    let region = "na1".to_string();
    let resp = Results::Ranking(Ok(PlayerRanking {
        data: RankingData {
            overall_ranking: Some(OverallRanking { overall_ranking: 1200, total_player_count: 90000 }),
        },
    }));
    apply(&mut shared, &mut view, 5, &region, resp);
    let ranking = view.ranking.as_ref().unwrap();
    assert_eq!(ranking.overall_ranking, 1200);
    assert_eq!(ranking.total_player_count, 90000);
}

#[test]
fn apply_match_detail_fills_pending_guard_only() {
    let mut shared = ready_shared();
    let mut view = view_for("Faker", "KR1");
    let region = "na1".to_string();
    view.try_start_match_detail(1000);
    apply(&mut shared, &mut view, 5, &region, detail_response(1000));
    assert!(view.match_detail(1000).is_some());
    // a stale detail (guard dropped with the old view) is ignored
    apply(&mut shared, &mut view, 5, &region, detail_response(2000));
    assert!(!view.match_data_map.contains_key(&2000));
}

#[test]
fn apply_same_response_twice_is_idempotent() {
    // match summaries applied twice
    let mut shared = ready_shared();
    let mut view = view_for("Faker", "KR1");
    let region = "na1".to_string();
    apply(&mut shared, &mut view, 5, &region, summaries_response(vec![summary(1, 1000)]));
    let once_summaries = view.match_summaries.clone();
    let once_finished = view.finished_match_summaries;
    apply(&mut shared, &mut view, 5, &region, summaries_response(vec![summary(1, 1000)]));
    assert_eq!(view.match_summaries, once_summaries);
    assert_eq!(view.finished_match_summaries, once_finished);

    // a match detail applied twice
    view.try_start_match_detail(1000);
    apply(&mut shared, &mut view, 5, &region, detail_response(1000));
    let once_map = view.match_data_map.clone();
    apply(&mut shared, &mut view, 5, &region, detail_response(1000));
    assert_eq!(view.match_data_map, once_map);

    // a player-info response applied twice
    let mk = || info_response("Faker", "KR1", 29, vec![score("Ranked Solo", 42)]);
    apply(&mut shared, &mut view, 5, &region, mk());
    let once_icon = view.icon_id;
    let once_scores = view.rank_scores.clone();
    apply(&mut shared, &mut view, 5, &region, mk());
    assert_eq!(view.icon_id, once_icon);
    assert_eq!(view.rank_scores, once_scores);

    // an error applied twice
    let mk_err = || Results::ChampImage(Errors::Network("down".to_string()));
    apply(&mut shared, &mut view, 5, &region, mk_err());
    let once_notice = view.error_notice.clone();
    apply(&mut shared, &mut view, 5, &region, mk_err());
    assert_eq!(view.error_notice, once_notice);
}

#[test]
fn apply_update_success_triggers_refresh_requests() {
    let mut shared = ready_shared();
    let mut view = view_for("Faker", "KR1");
    let region = "na1".to_string();
    let resp = Results::PlayerUpdate(Ok(UpdatePlayer {
        data: UpdateData {
            update_player_profile: UpdatePlayerProfile { error_reason: None, success: true },
        },
    }));
    let reqs = apply(&mut shared, &mut view, 0, &region, resp);
    assert_eq!(reqs.len(), 2);
    match &reqs[0] {
        Payload::MatchSummaries { name, tag_line, roles, page, region_id } => {
            assert_eq!(name, "Faker");
            assert_eq!(tag_line, "KR1");
            assert_eq!(*roles, Some(4)); // role picker position 0 is Top
            assert_eq!(*page, 1);
            assert_eq!(region_id, "na1");
        }
        other => panic!("expected a summaries request, got {:?}", other),
    }
    match &reqs[1] {
        Payload::PlayerInfo { name, version_index, .. } => {
            assert_eq!(name, "Faker");
            assert_eq!(*version_index, 0);
        }
        other => panic!("expected a player-info request, got {:?}", other),
    }

    // an unsuccessful update triggers nothing
    let resp = Results::PlayerUpdate(Ok(UpdatePlayer {
        data: UpdateData {
            update_player_profile: UpdatePlayerProfile {
                error_reason: Some("unknown player".to_string()),
                success: false,
            },
        },
    }));
    let reqs = apply(&mut shared, &mut view, 0, &region, resp);
    assert!(reqs.is_empty());
}

#[test]
fn drain_one_never_waits_and_applies_at_most_one() {
    let (req_tx, _req_rx) = async_channel::unbounded::<Payload>();
    let (resp_tx, resp_rx) = async_channel::unbounded::<Results>();
    let mut shared = ready_shared();
    let mut view = view_for("Faker", "KR1");
    let region = "na1".to_string();

    // an empty queue: the drain returns at once, many times in a row,
    // even though a "slow worker" (nobody sending) never answers
    let start = std::time::Instant::now();
    for _ in 0..1000 {
        assert!(!drain_one(&resp_rx, &req_tx, &mut shared, &mut view, 5, &region));
    }
    assert!(start.elapsed() < std::time::Duration::from_secs(5));

    // two pending responses: one frame applies exactly one of them
    resp_tx
        .try_send(Results::Ranking(Ok(PlayerRanking {
            data: RankingData {
                overall_ranking: Some(OverallRanking { overall_ranking: 5, total_player_count: 10 }),
            },
        })))
        .unwrap();
    resp_tx
        .try_send(Results::ChampImage(Errors::Network("down".to_string())))
        .unwrap();
    assert!(drain_one(&resp_rx, &req_tx, &mut shared, &mut view, 5, &region));
    assert!(view.ranking.is_some());
    assert!(view.error_notice.is_none()); // the second message is still queued
    assert!(drain_one(&resp_rx, &req_tx, &mut shared, &mut view, 5, &region));
    assert!(view.error_notice.is_some());
    assert!(!drain_one(&resp_rx, &req_tx, &mut shared, &mut view, 5, &region));
}

#[test]
fn drain_one_enqueues_the_follow_ups() {
    let (req_tx, req_rx) = async_channel::unbounded::<Payload>();
    let (resp_tx, resp_rx) = async_channel::unbounded::<Results>();
    let mut shared = ready_shared();
    let mut view = view_for("Faker", "KR1");
    let region = "na1".to_string();
    resp_tx.try_send(summaries_response(vec![summary(1, 1000)])).unwrap();
    assert!(drain_one(&resp_rx, &req_tx, &mut shared, &mut view, 5, &region));
    match req_rx.try_recv() {
        Ok(Payload::GetChampImage { key, id, .. }) => {
            assert_eq!(key, "Annie");
            assert_eq!(id, 1);
        }
        other => panic!("expected the artwork follow-up, got {:?}", other),
    }
    assert!(req_rx.try_recv().is_err());
}
