use matchcore::catalog::{build_catalog, parse_champ_id};
use matchcore::domain::{ChampData, ChampionJson, Image, Info, RankScore};
use matchcore::protocol::Errors;
use matchcore::queries::{
    fetch_match_vars, get_role_index, match_summaries_vars, player_info_vars,
    player_ranking_vars, player_suggestions_vars, update_player_vars,
};
use matchcore::shared::SharedState;
use matchcore::view::{filter_rank_scores, PlayerViewState};

fn champ_entry(id: &str, key: &str, name: &str) -> ChampData {
    ChampData {
        version: "14.1.1".to_string(),
        key: key.to_string(),
        id: id.to_string(),
        name: name.to_string(),
        title: "the Dark Child".to_string(),
        blurb: "".to_string(),
        info: Info { attack: 2, defense: 3, magic: 10, difficulty: 6 },
        image: Image {
            full: format!("{}.png", key),
            sprite: "champion0.png".to_string(),
            group: "champion".to_string(),
            x: 0,
            y: 0,
            w: 48,
            h: 48,
        },
        tags: vec![],
        partype: "Mana".to_string(),
    }
}

fn champ_doc(entries: Vec<ChampData>) -> ChampionJson {
    ChampionJson {
        _type: "champion".to_string(),
        format: "standAloneComplex".to_string(),
        version: "14.1.1".to_string(),
        data: entries,
    }
}

fn score(queue: &str, lp: i64) -> RankScore {
    RankScore {
        last_updated_at: None,
        losses: 10,
        lp,
        promo_progress: None,
        queue_type: queue.to_string(),
        rank: "IV".to_string(),
        role: None,
        season_id: 22,
        tier: "Gold".to_string(),
        wins: 12,
    }
}

#[test]
fn role_index_maps_every_picker_position() {
    assert_eq!(get_role_index(0), Some(4)); // Top
    assert_eq!(get_role_index(1), Some(1)); // Jungle
    assert_eq!(get_role_index(2), Some(5)); // Mid
    assert_eq!(get_role_index(3), Some(3)); // ADC
    assert_eq!(get_role_index(4), Some(2)); // Support
    assert_eq!(get_role_index(5), None);
    assert_eq!(get_role_index(200), None);
}

#[test]
fn parse_champ_id_reads_decimal_numbers() {
    assert_eq!(parse_champ_id("1"), Some(1));
    assert_eq!(parse_champ_id("266"), Some(266));
    assert_eq!(parse_champ_id("0"), Some(0));
    assert_eq!(parse_champ_id("9223372036854775807"), Some(i64::MAX));
}

#[test]
fn parse_champ_id_rejects_bad_input() {
    assert_eq!(parse_champ_id(""), None);
    assert_eq!(parse_champ_id("12a"), None);
    assert_eq!(parse_champ_id("-1"), None);
    assert_eq!(parse_champ_id(" 7"), None);
    // one past i64::MAX
    assert_eq!(parse_champ_id("9223372036854775808"), None);
    // far past any representable value
    assert_eq!(parse_champ_id("99999999999999999999999"), None);
}

#[test]
fn build_catalog_keys_by_numeric_id() {
    let doc = champ_doc(vec![champ_entry("1", "Annie", "Annie"), champ_entry("266", "Aatrox", "Aatrox")]);
    let map = build_catalog(&doc).expect("both ids are decimal");
    assert_eq!(map.len(), 2);
    assert_eq!(map.get(&1).unwrap().key, "Annie");
    assert_eq!(map.get(&1).unwrap().name, "Annie");
    assert!(map.get(&1).unwrap().image.is_none());
    assert!(!map.get(&1).unwrap().image_started);
    assert_eq!(map.get(&266).unwrap().key, "Aatrox");
}

#[test]
fn build_catalog_later_duplicate_wins() {
    let doc = champ_doc(vec![champ_entry("1", "Annie", "Annie"), champ_entry("1", "Anivia", "Anivia")]);
    let map = build_catalog(&doc).expect("ids are decimal");
    assert_eq!(map.len(), 1);
    assert_eq!(map.get(&1).unwrap().key, "Anivia");
}

#[test]
fn build_catalog_rejects_non_decimal_id() {
    let doc = champ_doc(vec![champ_entry("Annie", "Annie", "Annie")]);
    match build_catalog(&doc) {
        Err(Errors::Decode(_)) => {}
        other => panic!("expected a decode error, got {:?}", other),
    }
}

#[test]
fn versions_slot_is_write_once() {
    let mut shared = SharedState::new();
    assert!(shared.versions.is_none());
    // two simulated workers race with different payloads: the first wins
    let won_a = shared.set_versions(vec!["14.1.1".to_string()]);
    let won_b = shared.set_versions(vec!["13.24.1".to_string()]);
    assert!(won_a);
    assert!(!won_b);
    assert_eq!(shared.versions, Some(vec!["14.1.1".to_string()]));

    // and in the opposite arrival order the other payload wins, still alone
    let mut shared = SharedState::new();
    let won_b = shared.set_versions(vec!["13.24.1".to_string()]);
    let won_a = shared.set_versions(vec!["14.1.1".to_string()]);
    assert!(won_b);
    assert!(!won_a);
    assert_eq!(shared.versions, Some(vec!["13.24.1".to_string()]));
}

#[test]
fn champs_slot_is_write_once() {
    let mut shared = SharedState::new();
    let first = build_catalog(&champ_doc(vec![champ_entry("1", "Annie", "Annie")])).unwrap();
    let second = build_catalog(&champ_doc(vec![champ_entry("2", "Olaf", "Olaf")])).unwrap();
    assert!(shared.set_champs(first));
    assert!(!shared.set_champs(second));
    let champs = shared.champs.as_ref().unwrap();
    assert!(champs.contains_key(&1));
    assert!(!champs.contains_key(&2));
}

#[test]
fn icon_entries_are_never_replaced() {
    let mut shared = SharedState::new();
    assert!(shared.insert_icon(7, 100));
    assert!(!shared.insert_icon(7, 200));
    assert_eq!(shared.icon_texture(7), Some(100));
    assert_eq!(shared.icon_texture(8), None);
}

#[test]
fn champ_image_update_ignores_unknown_ids() {
    let mut shared = SharedState::new();
    // catalog not populated yet: nothing to update
    assert!(!shared.update_champ_image(1, 42));
    let map = build_catalog(&champ_doc(vec![champ_entry("1", "Annie", "Annie")])).unwrap();
    shared.set_champs(map);
    // unknown champion: ignored
    assert!(!shared.update_champ_image(2, 42));
    assert!(shared.get_champ(2).is_none());
    // known champion: slot filled
    assert!(shared.update_champ_image(1, 42));
    assert_eq!(shared.get_champ(1).unwrap().image, Some(42));
}

#[test]
fn champ_image_guard_rises_once() {
    let mut shared = SharedState::new();
    let map = build_catalog(&champ_doc(vec![champ_entry("1", "Annie", "Annie")])).unwrap();
    shared.set_champs(map);
    assert!(shared.try_start_champ_image(1));
    assert!(!shared.try_start_champ_image(1));
    assert!(shared.get_champ(1).unwrap().image_started);
    // a champion the catalog does not know never starts
    assert!(!shared.try_start_champ_image(9));
}

#[test]
fn match_detail_guard_is_key_presence() {
    let mut view = PlayerViewState::new("Faker".to_string(), "KR1".to_string());
    assert!(view.try_start_match_detail(1000));
    assert!(!view.try_start_match_detail(1000));
    assert!(view.match_detail(1000).is_none()); // pending, not arrived
    assert!(view.try_start_match_detail(1001));
}

#[test]
fn filter_drops_unnamed_queues() {
    let scores = vec![score("Ranked Solo", 42), score("", 7), score("Ranked Flex", 11)];
    let kept = filter_rank_scores(scores);
    assert_eq!(kept.len(), 2);
    assert_eq!(kept[0].queue_type, "Ranked Solo");
    assert_eq!(kept[0].lp, 42);
    assert_eq!(kept[1].queue_type, "Ranked Flex");
}

#[test]
fn match_summaries_vars_fix_the_protocol_constants() {
    let vars = match_summaries_vars(
        &"Faker".to_string(),
        &"KR1".to_string(),
        &"na1".to_string(),
        Some(4),
        2,
    );
    assert_eq!(vars.riot_user_name, "Faker");
    assert_eq!(vars.riot_tag_line, "KR1");
    assert_eq!(vars.region_id, "na1");
    assert_eq!(vars.role, vec![4]);
    assert_eq!(vars.season_ids, vec![22]);
    assert!(vars.queue_type.is_empty());
    assert!(vars.champion_id.is_empty());
    assert_eq!(vars.duo_riot_user_name, "");
    assert_eq!(vars.duo_riot_tag_line, "");
    assert_eq!(vars.page, 2);

    let unfiltered = match_summaries_vars(
        &"Faker".to_string(),
        &"KR1".to_string(),
        &"na1".to_string(),
        None,
        1,
    );
    assert!(unfiltered.role.is_empty());
}

#[test]
fn player_suggestions_vars_fold_the_name() {
    // would fail if the lowercase step handed its argument back unchanged
    let vars = player_suggestions_vars(&"FaKeR".to_string());
    assert_eq!(vars.query, "faker");
    assert_eq!(vars.region_id, "na1");
}

#[test]
fn remaining_query_vars_carry_identity_and_constants() {
    let up = update_player_vars(&"Faker".to_string(), &"KR1".to_string(), &"euw1".to_string());
    assert_eq!(up.riot_user_name, "Faker");
    assert_eq!(up.riot_tag_line, "KR1");
    assert_eq!(up.region_id, "euw1");

    let rank = player_ranking_vars(&"Faker".to_string(), &"KR1".to_string(), &"na1".to_string());
    assert_eq!(rank.queue_type, 420);
    assert_eq!(rank.riot_user_name, "Faker");

    let info = player_info_vars(&"Faker".to_string(), &"KR1".to_string(), &"na1".to_string());
    assert_eq!(info.season_id, 22);

    let fm = fetch_match_vars(
        &"Faker".to_string(),
        &"KR1".to_string(),
        &"na1".to_string(),
        &"7001".to_string(),
        &"14.1.1".to_string(),
    );
    assert_eq!(fm.match_id, "7001");
    assert_eq!(fm.version, "14.1.1");
}

#[test]
fn error_message_returns_the_detail() {
    assert_eq!(Errors::Network("timed out".to_string()).message(), "timed out");
    assert_eq!(Errors::Decode("bad shape".to_string()).message(), "bad shape");
    assert_eq!(Errors::Image("not a png".to_string()).message(), "not a png");
}

#[test]
fn fresh_view_state_has_nothing_pending() {
    let view = PlayerViewState::new("Faker".to_string(), "KR1".to_string());
    assert_eq!(view.riot_user_name, "Faker");
    assert_eq!(view.riot_tag_line, "KR1");
    assert!(view.match_data_map.is_empty());
    assert!(view.match_summaries.is_none());
    assert!(view.rank_scores.is_none());
    assert!(view.ranking.is_none());
    assert_eq!(view.icon_id, -1);
    assert_eq!(view.page, 1);
    assert!(view.finished_match_summaries);
    assert!(view.error_notice.is_none());
}
