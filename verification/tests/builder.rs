use dvr_manager::manager::{build_subscription, resolve_libraries, ManagerConfig, ManagerError};
use dvr_manager::plex::{
    get_dirs_of_type, GridMedia, GridMetadata, GridMetadataType, PlexError, ProviderDirectory,
    ProviderDirectoryType, ProvidersFeature, ProvidersMediaProvider, SubscriptionHints,
    SubscriptionParams, TemplateParameters, TemplateSetting, TemplateSubscription,
};

const NOW: i64 = 1_700_000_000;

const REQUIRED_SETTINGS: [&str; 7] = [
    "minVideoQuality",
    "replaceLowerQuality",
    "recordPartials",
    "comskipEnabled",
    "comskipMethod",
    "oneShot",
    "remoteMedia",
];

fn broadcast(begins_at: i64) -> GridMetadata {
    GridMetadata {
        rating_key: "key-1".to_string(),
        guid: "guid-1".to_string(),
        title: "Some Show".to_string(),
        grandparent_guid: None,
        grandparent_title: None,
        parent_guid: None,
        parent_title: None,
        parent_index: None,
        index: None,
        media_type: GridMetadataType::Show,
        duration: 1800,
        on_air: None,
        subscription_id: None,
        subscription_type: None,
        grandparent_subscription_id: None,
        grandparent_subscription_type: None,
        grandparent_thumb: None,
        originally_available_at: "2024-01-01".to_string(),
        media: vec![GridMedia {
            id: 7,
            begins_at,
            ends_at: begins_at + 1800,
            channel_identifier: "lineup-ch1".to_string(),
            channel_title: "Channel One".to_string(),
        }],
    }
}

fn hints() -> SubscriptionHints {
    SubscriptionHints {
        grandparent_guid: None,
        grandparent_thumb: None,
        grandparent_title: None,
        guid: "guid-1".to_string(),
        index: None,
        originally_available_at: Some("2024-01-01".to_string()),
        parent_guid: None,
        parent_index: None,
        parent_title: None,
        rating_key: "key-1".to_string(),
        title: "Some Show".to_string(),
        hint_type: "episode".to_string(),
    }
}

fn params() -> SubscriptionParams {
    SubscriptionParams {
        airing_channels: "lineup-ch1".to_string(),
        airing_times: "1234".to_string(),
        library_type: "2".to_string(),
        media_provider_id: "5".to_string(),
    }
}

fn template(type_code: i16, settings: &[&str]) -> TemplateSubscription<TemplateParameters> {
    TemplateSubscription {
        parameters: TemplateParameters { hints: hints(), params: params() },
        type_code,
        target_section_location_id: 3,
        setting: settings
            .iter()
            .map(|s| TemplateSetting { id: s.to_string(), default_value: format!("default-{}", s) })
            .collect(),
    }
}

fn plex_msg(text: &str) -> ManagerError {
    ManagerError::Plex(PlexError::PlexResponse(text.to_string()))
}

#[test]
fn setting_default_returns_first_match() {
    let mut t = template(0, &REQUIRED_SETTINGS);
    t.setting.push(TemplateSetting {
        id: "minVideoQuality".to_string(),
        default_value: "shadowed".to_string(),
    });
    assert_eq!(t.setting_default("minVideoQuality").unwrap(), "default-minVideoQuality");
    assert_eq!(t.setting_default("oneShot").unwrap(), "default-oneShot");
}

#[test]
fn setting_default_names_missing_setting() {
    let t = template(0, &["minVideoQuality"]);
    let err = t.setting_default("comskipMethod").unwrap_err();
    assert_eq!(err, PlexError::PlexResponse("Setting comskipMethod not found".to_string()));
}

#[test]
fn begins_at_ts_uses_first_airing() {
    let b = broadcast(NOW + 42);
    assert_eq!(b.begins_at_ts(), NOW + 42);
    let mut bare = broadcast(NOW + 42);
    bare.media.clear();
    assert_eq!(bare.begins_at_ts(), 0);
}

#[test]
fn show_title_prefers_series_title() {
    let mut b = broadcast(NOW);
    assert_eq!(b.show_title(), "Some Show");
    b.grandparent_title = Some("The Series".to_string());
    assert_eq!(b.show_title(), "The Series");
}

fn providers(dirs: Vec<ProviderDirectory>) -> Vec<ProvidersMediaProvider> {
    vec![
        ProvidersMediaProvider {
            identifier: "tv.plex.provider.epg".to_string(),
            title: "EPG".to_string(),
            feature: vec![],
        },
        ProvidersMediaProvider {
            identifier: "com.plexapp.plugins.library".to_string(),
            title: "Library".to_string(),
            feature: vec![ProvidersFeature {
                key: Some("/library/sections".to_string()),
                feature_type: "content".to_string(),
                directory: Some(dirs),
            }],
        },
    ]
}

fn dir(t: ProviderDirectoryType, id: &str) -> ProviderDirectory {
    ProviderDirectory { dir_type: Some(t), id: Some(id.to_string()) }
}

#[test]
fn dirs_of_type_filters_by_category() {
    let ps = providers(vec![
        dir(ProviderDirectoryType::Show, "1"),
        dir(ProviderDirectoryType::Movie, "2"),
        dir(ProviderDirectoryType::Show, "3"),
        ProviderDirectory { dir_type: None, id: Some("4".to_string()) },
    ]);
    let shows = get_dirs_of_type(&ps, ProviderDirectoryType::Show).unwrap();
    let ids: Vec<String> = shows.into_iter().map(|d| d.id.unwrap()).collect();
    assert_eq!(ids, vec!["1", "3"]);
}

#[test]
fn dirs_of_type_reports_missing_library() {
    let ps = vec![ProvidersMediaProvider {
        identifier: "tv.plex.provider.epg".to_string(),
        title: "EPG".to_string(),
        feature: vec![],
    }];
    let err = get_dirs_of_type(&ps, ProviderDirectoryType::Show).unwrap_err();
    assert_eq!(err, PlexError::PlexResponse("Plex is missing its library".to_string()));
}

#[test]
fn dirs_of_type_reports_missing_features_and_dirs() {
    let mut ps = providers(vec![]);
    ps[1].feature[0].directory = None;
    let err = get_dirs_of_type(&ps, ProviderDirectoryType::Show).unwrap_err();
    assert_eq!(err, PlexError::PlexResponse("Plex library has no dirs".to_string()));

    ps[1].feature.clear();
    let err = get_dirs_of_type(&ps, ProviderDirectoryType::Show).unwrap_err();
    assert_eq!(err, PlexError::PlexResponse("Plex library has no features".to_string()));
}

#[test]
fn resolve_prefers_configured_library() {
    let ps = providers(vec![
        dir(ProviderDirectoryType::Show, "1"),
        dir(ProviderDirectoryType::Show, "3"),
        dir(ProviderDirectoryType::Movie, "2"),
    ]);
    let config = ManagerConfig {
        tv_library_id: Some("3".to_string()),
        film_library_id: None,
        channels: vec![],
    };
    let libs = resolve_libraries(&ps, &config).unwrap();
    assert_eq!(libs.tv_library_id, "3");
    assert_eq!(libs.film_library_id, "2");
}

#[test]
fn resolve_falls_back_to_first_library() {
    let ps = providers(vec![
        dir(ProviderDirectoryType::Show, "1"),
        dir(ProviderDirectoryType::Show, "3"),
        dir(ProviderDirectoryType::Movie, "2"),
    ]);
    let config = ManagerConfig {
        tv_library_id: Some("99".to_string()),
        film_library_id: None,
        channels: vec![],
    };
    let libs = resolve_libraries(&ps, &config).unwrap();
    assert_eq!(libs.tv_library_id, "1");
    assert_eq!(libs.film_library_id, "2");
}

#[test]
fn resolve_fails_without_category_directory() {
    let only_movies = providers(vec![dir(ProviderDirectoryType::Movie, "2")]);
    let err = resolve_libraries(&only_movies, &ManagerConfig::default()).unwrap_err();
    assert_eq!(err, ManagerError::Config("No matching TV Show library found".to_string()));

    let only_shows = providers(vec![dir(ProviderDirectoryType::Show, "1")]);
    let err = resolve_libraries(&only_shows, &ManagerConfig::default()).unwrap_err();
    assert_eq!(err, ManagerError::Config("No matching Film library found".to_string()));
}

#[test]
fn resolve_propagates_listing_error() {
    let ps: Vec<ProvidersMediaProvider> = vec![];
    let err = resolve_libraries(&ps, &ManagerConfig::default()).unwrap_err();
    assert_eq!(err, plex_msg("Plex is missing its library"));
}

#[test]
fn build_reports_missing_airing() {
    let mut b = broadcast(NOW + 5);
    b.media.clear();
    let templates = vec![template(0, &REQUIRED_SETTINGS)];
    let err = build_subscription(&b, &templates, &"2".to_string(), &"7".to_string()).unwrap_err();
    assert_eq!(err, plex_msg("Recording has no Media"));
}

#[test]
fn build_reports_missing_template() {
    let b = broadcast(NOW + 5);
    let err = build_subscription(&b, &vec![], &"2".to_string(), &"7".to_string()).unwrap_err();
    assert_eq!(err, plex_msg("Subscription template has no media"));
}

#[test]
fn build_maps_type_code_to_library() {
    let b = broadcast(NOW + 5);
    let film = vec![template(1, &REQUIRED_SETTINGS)];
    let sub = build_subscription(&b, &film, &"2".to_string(), &"7".to_string()).unwrap();
    assert_eq!(sub.target_library_section_id, "7");
    assert_eq!(sub.target_library_location_id, "7");

    for code in [0i16, 2, 5, -1] {
        let tv = vec![template(code, &REQUIRED_SETTINGS)];
        let sub = build_subscription(&b, &tv, &"2".to_string(), &"7".to_string()).unwrap();
        assert_eq!(sub.target_library_section_id, "2");
        assert_eq!(sub.target_library_location_id, "2");
    }
}

#[test]
fn build_fails_for_each_missing_setting() {
    let b = broadcast(NOW + 5);
    for missing in REQUIRED_SETTINGS {
        let kept: Vec<&str> =
            REQUIRED_SETTINGS.iter().copied().filter(|s| *s != missing).collect();
        let templates = vec![template(0, &kept)];
        let err =
            build_subscription(&b, &templates, &"2".to_string(), &"7".to_string()).unwrap_err();
        assert_eq!(err, plex_msg(&format!("Setting {} not found", missing)));
    }
}

#[test]
fn build_fills_prefs_from_template() {
    let b = broadcast(NOW + 5);
    let templates = vec![template(0, &REQUIRED_SETTINGS)];
    let sub = build_subscription(&b, &templates, &"2".to_string(), &"7".to_string()).unwrap();
    assert_eq!(sub.prefs.min_video_quality, "default-minVideoQuality");
    assert_eq!(sub.prefs.replace_lower_quality, "default-replaceLowerQuality");
    assert_eq!(sub.prefs.record_partials, "default-recordPartials");
    assert_eq!(sub.prefs.comskip_enabled, "default-comskipEnabled");
    assert_eq!(sub.prefs.comskip_method, "default-comskipMethod");
    assert_eq!(sub.prefs.one_shot, "default-oneShot");
    assert_eq!(sub.prefs.remote_media, "default-remoteMedia");
    assert_eq!(sub.prefs.start_offset_minutes, 0);
    assert_eq!(sub.prefs.end_offset_minutes, 4);
    assert_eq!(sub.prefs.lineup_channel, "lineup-ch1");
    assert_eq!(sub.prefs.start_timeslot, NOW + 5);
    assert_eq!(sub.hints.guid, "guid-1");
    assert_eq!(sub.hints.hint_type, "episode");
    assert_eq!(sub.params.airing_times, "1234");
    assert_eq!(sub.include_grabs, 1);
}
