use jellyfin_rpc::config::{
    Config, ConfigBuilder, Display, DisplayOptionsBuilder, DiscordBuilder, Username,
};
use jellyfin_rpc::content::{Content, ContentBuilder};
use jellyfin_rpc::jellyfin::{PlayState, Session};
use jellyfin_rpc::presence::{
    backoff_delay_ms, show_paused, ConnectionEvent, ConnectionState,
};
use jellyfin_rpc::{DisplayFormat, EpisodeDisplayOptions, MediaType};

#[test]
fn artist_join_uses_commas_and_a_final_and() {
    assert_eq!(Content::get_artists(&vec!["Alice".to_string()]), "Alice");
    assert_eq!(
        Content::get_artists(&vec!["Alice".to_string(), "Bob".to_string()]),
        "Alice and Bob"
    );
    assert_eq!(
        Content::get_artists(&vec![
            "Alice".to_string(),
            "Bob".to_string(),
            "Carol".to_string()
        ]),
        "Alice, Bob and Carol"
    );
}

#[test]
fn session_format_artists_matches_join() {
    let session = Session {
        now_playing_item: jellyfin_rpc::jellyfin::NowPlayingItem {
            name: "Track".to_string(),
            media_type: MediaType::Music,
            id: "i".to_string(),
            run_time_ticks: None,
            production_year: None,
            genres: None,
            external_urls: None,
            critic_rating: None,
            community_rating: None,
            original_title: None,
            path: None,
            parent_index_number: None,
            index_number: None,
            index_number_end: None,
            series_name: None,
            series_id: None,
            series_studio: None,
            artists: Some(vec!["Alice".to_string(), "Bob".to_string(), "Carol".to_string()]),
            extra_type: None,
            album_id: None,
            album: None,
        },
        play_state: PlayState { is_paused: false, position_ticks: None },
        item_id: "i".to_string(),
    };
    assert_eq!(session.format_artists(), "Alice, Bob and Carol");
}

#[test]
fn config_build_normalizes_usernames_and_url() {
    let mut builder = Config::builder();
    builder.jellyfin.url = "https://jellyfin.example.com".to_string();
    builder.jellyfin.api_key = "k".to_string();
    builder.jellyfin.username = Username::Single("alice,bob".to_string());
    let config = builder.build();
    assert_eq!(config.jellyfin.url, "https://jellyfin.example.com/");
    assert_eq!(config.jellyfin.username, vec!["alice".to_string(), "bob".to_string()]);
    assert_eq!(config.jellyfin.api_key, "k");
}

#[test]
fn config_build_keeps_existing_slash_and_list_usernames() {
    let mut builder = Config::builder();
    builder.jellyfin.url = "https://jellyfin.example.com/".to_string();
    builder.jellyfin.username = Username::List(vec!["a".to_string(), "b".to_string()]);
    let config = builder.build();
    assert_eq!(config.jellyfin.url, "https://jellyfin.example.com/");
    assert_eq!(config.jellyfin.username, vec!["a".to_string(), "b".to_string()]);
}

#[test]
fn config_build_fills_defaults() {
    let config = Config::builder().build();
    assert!(config.discord.show_paused);
    assert!(config.discord.application_id.is_none());
    assert!(!config.images.enable_images);
    assert!(!config.images.imgur_images);
    assert!(!config.images.litterbox_images);
    assert!(config.imgur.client_id.is_none());
    assert!(!config.jellyfin.self_signed_cert);
}

#[test]
fn config_build_reads_discord_section() {
    let mut builder = Config::builder();
    builder.discord = Some(DiscordBuilder {
        application_id: Some("123".to_string()),
        buttons: None,
        show_paused: Some(false),
    });
    let config = builder.build();
    assert_eq!(config.discord.application_id.as_deref(), Some("123"));
    assert!(!config.discord.show_paused);
}

#[test]
fn legacy_display_list_becomes_a_template() {
    let format = DisplayFormat::from_items(&vec!["genres".to_string(), "year".to_string()]);
    assert_eq!(format.details_text.as_deref(), Some("{__default}"));
    assert_eq!(format.state_text.as_deref(), Some("{__default}{genres} {sep} {year}"));
    assert_eq!(format.image_text.as_deref(), Some("Jellyfin-RPC v{version}"));
}

#[test]
fn legacy_display_string_splits_on_commas() {
    let format = DisplayFormat::from_comma_string("genres, year");
    assert_eq!(format.state_text.as_deref(), Some("{__default}{genres} {sep} {year}"));
}

#[test]
fn config_display_section_is_normalized() {
    let mut builder = Config::builder();
    builder.jellyfin.music = Some(DisplayOptionsBuilder {
        display: Some(Display::List(vec!["album".to_string()])),
        separator: Some("/".to_string()),
    });
    let config = builder.build();
    let music = config.jellyfin.music;
    assert_eq!(music.separator.as_deref(), Some("/"));
    let format = music.display.unwrap();
    assert_eq!(format.state_text.as_deref(), Some("{__default}{album}"));
}

#[test]
fn episode_options_build_the_expected_template() {
    let format = DisplayFormat::from_episode_options(EpisodeDisplayOptions {
        divider: true,
        prefix: true,
        simple: false,
    });
    assert_eq!(format.details_text.as_deref(), Some("{show-title}"));
    assert_eq!(
        format.state_text.as_deref(),
        Some("S{season-padded} - E{episode-padded} {title}")
    );

    let simple = DisplayFormat::from_episode_options(EpisodeDisplayOptions {
        divider: false,
        prefix: false,
        simple: true,
    });
    assert_eq!(simple.state_text.as_deref(), Some("S{season}E{episode}"));
}

#[test]
fn content_builder_carries_every_field() {
    let mut builder = ContentBuilder::new();
    builder.media_type(MediaType::Movie);
    builder.details("Film".to_string());
    builder.state_message("Action".to_string());
    builder.endtime(Some(42));
    builder.image_url("https://img".to_string());
    builder.item_id("id-1".to_string());
    builder.external_services(Vec::new());
    let content = builder.build();
    assert_eq!(content.media_type, MediaType::Movie);
    assert_eq!(content.details, "Film");
    assert_eq!(content.state_message, "Action");
    assert_eq!(content.endtime, Some(42));
    assert_eq!(content.image_url, "https://img");
    assert_eq!(content.item_id, "id-1");
    assert!(content.external_services.is_empty());
}

#[test]
fn backoff_doubles_from_one_second() {
    assert_eq!(backoff_delay_ms(1), 1000);
    assert_eq!(backoff_delay_ms(2), 2000);
    assert_eq!(backoff_delay_ms(3), 4000);
    assert_eq!(backoff_delay_ms(10), 512_000);
    assert_eq!(backoff_delay_ms(0), 1000);
}

#[test]
fn backoff_saturates_instead_of_overflowing() {
    assert_eq!(backoff_delay_ms(200), u64::MAX);
}

#[test]
fn connection_state_machine_follows_events() {
    let s = ConnectionState::Disconnected;
    let s = s.next(ConnectionEvent::AttemptStarted);
    assert_eq!(s, ConnectionState::Connecting);
    let s = s.next(ConnectionEvent::AttemptFailed);
    assert_eq!(s, ConnectionState::Connecting);
    let s = s.next(ConnectionEvent::AttemptSucceeded);
    assert_eq!(s, ConnectionState::Connected);
    assert_eq!(s.next(ConnectionEvent::SoftSignal), ConnectionState::Connected);
    assert_eq!(s.next(ConnectionEvent::SendRejected), ConnectionState::Disconnected);
}

#[test]
fn show_paused_defaults_to_true() {
    assert!(show_paused(&MediaType::Book, None, &None));
    assert!(show_paused(&MediaType::Movie, Some(7), &None));
    assert!(show_paused(&MediaType::Movie, None, &None));
    let discord = jellyfin_rpc::config::Discord {
        application_id: None,
        buttons: None,
        show_paused: false,
    };
    assert!(!show_paused(&MediaType::Movie, None, &Some(discord)));
}

#[test]
fn jf_error_messages_are_stable() {
    assert_eq!(
        jellyfin_rpc::JfError::ContentBlacklist.message(),
        "content is blacklisted"
    );
    assert_eq!(
        jellyfin_rpc::JfError::MissingRequiredValues.message(),
        "missing required values to build client"
    );
    assert_eq!(
        jellyfin_rpc::JfError::UnrecognizedMediaType.message(),
        "unrecognized media type"
    );
}
