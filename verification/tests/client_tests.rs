use jellyfin_rpc::{Button, Client, ClientBuilder, DisplayFormat, JfError, MediaType};
use jellyfin_rpc::jellyfin::{
    ExternalUrl, NowPlayingItem, PlayState, PlayTime, RawSession, Session, VirtualFolder,
};
use jellyfin_rpc::client::TickAction;

fn bare_item(media_type: MediaType, name: &str) -> NowPlayingItem {
    NowPlayingItem {
        name: name.to_string(),
        media_type,
        id: "item-1".to_string(),
        run_time_ticks: None,
        production_year: None,
        genres: None,
        external_urls: None,
        critic_rating: None,
        community_rating: None,
        original_title: None,
        path: None,
        parent_index_number: None,
        index_number: None,
        index_number_end: None,
        series_name: None,
        series_id: None,
        series_studio: None,
        artists: None,
        extra_type: None,
        album_id: None,
        album: None,
    }
}

fn client_with_session(item: NowPlayingItem) -> Client {
    let mut builder = Client::builder();
    builder.api_key("abcd1234");
    builder.url("https://jellyfin.example.com");
    builder.username("user");
    let mut client = builder.build().unwrap();
    client.session = Some(Session {
        now_playing_item: item,
        play_state: PlayState { is_paused: false, position_ticks: None },
        item_id: "item-1".to_string(),
    });
    client
}

#[test]
fn build_client_error() {
    let client = ClientBuilder::new().build();

    if let Ok(_) = client {
        panic!("client was constructed even though required values are missing!");
    }
}

#[test]
fn invalid_url() {
    let mut builder = ClientBuilder::new();
    builder.api_key("a1b2c3d4");
    builder.username("test");
    builder.url("url_without_base.com");

    let client = builder.build();

    if let Ok(_) = client {
        panic!("client constructed without a valid url!")
    }
}

#[test]
fn build_reports_each_error_cause() {
    let mut builder = ClientBuilder::new();
    builder.username("test");
    builder.url("https://jellyfin.example.com");
    assert_eq!(builder.build().unwrap_err(), JfError::MissingRequiredValues);

    let mut builder = ClientBuilder::new();
    builder.api_key("k");
    builder.username("test");
    builder.url("not a url");
    assert_eq!(builder.build().unwrap_err(), JfError::InvalidUrl);

    let mut builder = ClientBuilder::new();
    builder.api_key("k");
    builder.username("test");
    builder.url("https://jellyfin.example.com");
    assert!(builder.build().is_ok());
}

#[test]
fn session_selection_takes_first_eligible() {
    let mut builder = Client::builder();
    builder.api_key("k");
    builder.url("https://jellyfin.example.com");
    builder.username("Target");
    let mut client = builder.build().unwrap();

    let other_user = RawSession {
        user_name: Some("somebody".to_string()),
        now_playing_item: Some(bare_item(MediaType::Movie, "First")),
        play_state: Some(PlayState { is_paused: false, position_ticks: None }),
    };
    let matching = RawSession {
        user_name: Some("tARGet".to_string()),
        now_playing_item: Some(bare_item(MediaType::Movie, "Second")),
        play_state: Some(PlayState { is_paused: false, position_ticks: None }),
    };
    let nothing_playing = RawSession {
        user_name: Some("target".to_string()),
        now_playing_item: None,
        play_state: Some(PlayState { is_paused: false, position_ticks: None }),
    };

    client.get_session(vec![other_user, matching, nothing_playing]);

    let session = client.session.as_ref().expect("a session should be selected");
    assert_eq!(session.now_playing_item.name, "Second");
}

#[test]
fn session_selection_skips_theme_songs() {
    let mut builder = Client::builder();
    builder.api_key("k");
    builder.url("https://jellyfin.example.com");
    builder.username("user");
    let mut client = builder.build().unwrap();

    let mut theme = bare_item(MediaType::Music, "Theme");
    theme.extra_type = Some("ThemeSong".to_string());
    let sessions = vec![RawSession {
        user_name: Some("user".to_string()),
        now_playing_item: Some(theme),
        play_state: Some(PlayState { is_paused: false, position_ticks: None }),
    }];
    client.get_session(sessions);
    assert!(client.session.is_none());
}

#[test]
fn resolved_item_id_prefers_series_and_album() {
    let mut episode = bare_item(MediaType::Episode, "Pilot");
    episode.series_id = Some("series-9".to_string());
    let raw = RawSession {
        user_name: Some("u".to_string()),
        now_playing_item: Some(episode),
        play_state: Some(PlayState { is_paused: false, position_ticks: None }),
    };
    assert_eq!(raw.build().item_id, "series-9");

    let mut track = bare_item(MediaType::Music, "Song");
    track.album_id = Some("album-7".to_string());
    let raw = RawSession {
        user_name: Some("u".to_string()),
        now_playing_item: Some(track),
        play_state: Some(PlayState { is_paused: false, position_ticks: None }),
    };
    assert_eq!(raw.build().item_id, "album-7");
}

#[test]
fn episode_state_renders_padded_range() {
    let mut item = bare_item(MediaType::Episode, "Pilot");
    item.parent_index_number = Some(1);
    item.index_number = Some(1);
    item.index_number_end = Some(3);
    item.series_name = Some("Show".to_string());
    let mut client = client_with_session(item);
    client.episodes_display_options.display = DisplayFormat {
        details_text: Some("{show-title}".to_string()),
        state_text: Some("S{season-padded}E{episode-padded}".to_string()),
        image_text: Some("x".to_string()),
    };
    assert_eq!(client.get_state(), "S01E01-03");
}

#[test]
fn leading_separator_is_stripped_from_rendered_title() {
    let mut client = client_with_session(bare_item(MediaType::Movie, "X"));
    client.movies_display_options.display = DisplayFormat {
        details_text: Some("{sep} {title}".to_string()),
        state_text: Some("".to_string()),
        image_text: Some("x".to_string()),
    };
    assert_eq!(client.get_details(), "X");
}

#[test]
fn movie_scores_render_with_fixed_shapes() {
    let mut item = bare_item(MediaType::Movie, "Film");
    item.critic_rating = Some(85);
    item.community_rating = Some(78);
    let mut client = client_with_session(item);
    client.movies_display_options.display = DisplayFormat {
        details_text: Some("{critic-score} | {community-score}".to_string()),
        state_text: Some("".to_string()),
        image_text: Some("x".to_string()),
    };
    assert_eq!(client.get_details(), "\u{1f345} 85/100 | \u{2b50} 7.8/10");
}

#[test]
fn music_state_renders_default_template() {
    let mut item = bare_item(MediaType::Music, "Track");
    item.artists = Some(vec!["Alice".to_string(), "Bob".to_string()]);
    item.genres = Some(vec!["Jazz".to_string()]);
    let client = client_with_session(item);
    // The default state template is "{__default}{genres}" and the music
    // default fills in "By {artists} {sep} ".
    assert_eq!(client.get_state(), "By Alice and Bob - Jazz");
}

#[test]
fn book_state_counts_pages() {
    let mut client = client_with_session(bare_item(MediaType::Book, "Novel"));
    if let Some(session) = client.session.as_mut() {
        session.play_state.position_ticks = Some(123 * 10000 + 5);
    }
    assert_eq!(client.get_state(), "Reading page 123");
}

#[test]
fn get_time_places_start_and_end() {
    let mut item = bare_item(MediaType::Movie, "Film");
    item.run_time_ticks = Some(600 * 10_000_000);
    let session = Session {
        now_playing_item: item,
        play_state: PlayState { is_paused: false, position_ticks: Some(100 * 10_000_000) },
        item_id: "i".to_string(),
    };
    assert_eq!(session.get_time(1_000_000), PlayTime::Range(999_900, 1_000_500));
}

#[test]
fn get_time_reports_paused_and_absent() {
    let mut item = bare_item(MediaType::Movie, "Film");
    item.run_time_ticks = Some(600 * 10_000_000);
    let session = Session {
        now_playing_item: item,
        play_state: PlayState { is_paused: true, position_ticks: Some(0) },
        item_id: "i".to_string(),
    };
    assert_eq!(session.get_time(1_000_000), PlayTime::Paused);

    let book = Session {
        now_playing_item: bare_item(MediaType::Book, "Novel"),
        play_state: PlayState { is_paused: false, position_ticks: Some(0) },
        item_id: "i".to_string(),
    };
    assert_eq!(book.get_time(1_000_000), PlayTime::Absent);
}

#[test]
fn blacklisted_media_type_is_suppressed() {
    let mut builder = Client::builder();
    builder.api_key("k");
    builder.url("https://jellyfin.example.com");
    builder.username("user");
    builder.blacklist_media_types(vec![MediaType::Music]);
    let mut client = builder.build().unwrap();
    client.session = Some(Session {
        now_playing_item: bare_item(MediaType::Music, "Track"),
        play_state: PlayState { is_paused: false, position_ticks: None },
        item_id: "i".to_string(),
    });
    assert!(client.check_blacklist());
    let r = client.build_activity(0, "img".to_string());
    assert_eq!(r.unwrap_err(), JfError::ContentBlacklist);
}

#[test]
fn blacklisted_library_path_is_suppressed() {
    let mut builder = Client::builder();
    builder.api_key("k");
    builder.url("https://jellyfin.example.com");
    builder.username("user");
    builder.blacklist_libraries(vec!["Private".to_string()]);
    let mut client = builder.build().unwrap();
    let folders = vec![
        VirtualFolder {
            name: Some("Private".to_string()),
            locations: vec!["/data/private".to_string()],
        },
        VirtualFolder {
            name: Some("Shows".to_string()),
            locations: vec!["/data/shows".to_string()],
        },
    ];
    client.reload_blacklist(Some(folders), 1000);
    let mut item = bare_item(MediaType::Movie, "Secret");
    item.path = Some("/data/private/secret.mkv".to_string());
    client.session = Some(Session {
        now_playing_item: item,
        play_state: PlayState { is_paused: false, position_ticks: None },
        item_id: "i".to_string(),
    });
    assert!(client.check_blacklist());

    let mut item = bare_item(MediaType::Movie, "Fine");
    item.path = Some("/data/shows/fine.mkv".to_string());
    client.session = Some(Session {
        now_playing_item: item,
        play_state: PlayState { is_paused: false, position_ticks: None },
        item_id: "i".to_string(),
    });
    // "Shows" is not in the configured blacklist names, so its folder was
    // dropped at reload and the path is not suppressed.
    assert!(!client.check_blacklist());
}

#[test]
fn blacklist_cache_freshness_window_is_an_hour() {
    let mut builder = Client::builder();
    builder.api_key("k");
    builder.url("https://jellyfin.example.com");
    builder.username("user");
    let mut client = builder.build().unwrap();
    assert!(client.blacklist_stale(0));
    client.reload_blacklist(Some(Vec::new()), 10_000);
    assert!(client.blacklist_stale(10_000 + 3601));
    assert!(!client.blacklist_stale(10_000 + 3599));
    assert!(!client.blacklist_stale(10_000 + 3600));
    client.reload_blacklist(None, 20_000);
    assert!(client.blacklist_stale(20_000));
}

#[test]
fn unrecognized_media_type_is_an_error() {
    let client = client_with_session(bare_item(MediaType::Unknown, "??"));
    let r = client.build_activity(0, "img".to_string());
    assert_eq!(r.unwrap_err(), JfError::UnrecognizedMediaType);
}

#[test]
fn paused_session_hidden_when_show_paused_off() {
    let mut item = bare_item(MediaType::Movie, "Film");
    item.run_time_ticks = Some(600 * 10_000_000);
    let mut client = client_with_session(item);
    client.show_paused = false;
    if let Some(session) = client.session.as_mut() {
        session.play_state.is_paused = true;
        session.play_state.position_ticks = Some(0);
    }
    let r = client.build_activity(0, "img".to_string());
    assert!(r.unwrap().is_none());
}

#[test]
fn paused_session_carries_badge_when_shown() {
    let mut item = bare_item(MediaType::Movie, "Film");
    item.run_time_ticks = Some(600 * 10_000_000);
    let mut client = client_with_session(item);
    if let Some(session) = client.session.as_mut() {
        session.play_state.is_paused = true;
        session.play_state.position_ticks = Some(0);
    }
    let activity = client.build_activity(0, "img".to_string()).unwrap().unwrap();
    assert!(activity.show_paused_badge);
    assert!(activity.timestamps.is_none());
}

#[test]
fn dynamic_buttons_take_external_links() {
    let mut item = bare_item(MediaType::Movie, "Film");
    item.external_urls = Some(vec![
        ExternalUrl {
            name: "Local".to_string(),
            url: "http://localhost/x".to_string(),
        },
        ExternalUrl {
            name: "IMDb".to_string(),
            url: "https://imdb.example/title".to_string(),
        },
    ]);
    let mut client = client_with_session(item);
    client.buttons = Some(vec![
        Button::new("dynamic".to_string(), "dynamic".to_string()),
        Button::new("Site".to_string(), "https://example.com".to_string()),
    ]);
    let buttons = client.get_buttons().unwrap();
    assert_eq!(buttons.len(), 2);
    assert_eq!(buttons[0].name, "IMDb");
    assert_eq!(buttons[0].url, "https://imdb.example/title");
    assert_eq!(buttons[1].name, "Site");
}

#[test]
fn buttons_cap_at_two() {
    let mut client = client_with_session(bare_item(MediaType::Movie, "Film"));
    client.buttons = Some(vec![
        Button::new("A".to_string(), "https://a.example".to_string()),
        Button::new("B".to_string(), "https://b.example".to_string()),
        Button::new("C".to_string(), "https://c.example".to_string()),
    ]);
    let buttons = client.get_buttons().unwrap();
    assert_eq!(buttons.len(), 2);
    assert_eq!(buttons[0].name, "A");
    assert_eq!(buttons[1].name, "B");
}

#[test]
fn live_tv_uses_fixed_image() {
    let client = client_with_session(bare_item(MediaType::LiveTv, "Channel"));
    let url = client.resolve_image_url(Some("https://host/other.png".to_string()));
    assert_eq!(url, "https://i.imgur.com/XxdHOqm.png");
}

#[test]
fn missing_image_falls_back_to_default() {
    let client = client_with_session(bare_item(MediaType::Movie, "Film"));
    let url = client.resolve_image_url(None);
    assert_eq!(url, "https://i.imgur.com/oX6vcds.png");
    let url = client.resolve_image_url(Some("https://host/a.png".to_string()));
    assert_eq!(url, "https://host/a.png");
}

#[test]
fn primary_image_probe_reads_server_reply() {
    assert!(jellyfin_rpc::client::primary_image_missing(
        "Item abc does not have an image of type Primary"
    ));
    assert!(!jellyfin_rpc::client::primary_image_missing("binary image data"));
    assert_eq!(
        jellyfin_rpc::client::image_request_path("abc"),
        "Items/abc/Images/Primary"
    );
}

#[test]
fn tick_action_clears_logs_or_stays_quiet() {
    assert_eq!(jellyfin_rpc::client::tick_action("", "Film | Action"), TickAction::Clear);
    assert_eq!(jellyfin_rpc::client::tick_action("A | B", "Film | Action"), TickAction::Log);
    assert_eq!(jellyfin_rpc::client::tick_action("A | B", "A | B"), TickAction::Quiet);
    assert_eq!(jellyfin_rpc::client::tick_action("", ""), TickAction::Quiet);
}

#[test]
fn activity_log_line_joins_details_and_state() {
    assert_eq!(jellyfin_rpc::client::activity_log_line("Film", "Action"), "Film | Action");
}

#[test]
fn media_type_parses_server_tags() {
    assert_eq!(MediaType::parse("episode"), MediaType::Episode);
    assert_eq!(MediaType::parse("movie"), MediaType::Movie);
    assert_eq!(MediaType::parse("audio"), MediaType::Music);
    assert_eq!(MediaType::parse("tvchannel"), MediaType::LiveTv);
    assert_eq!(MediaType::parse("audiobook"), MediaType::AudioBook);
    assert_eq!(MediaType::parse("whatever"), MediaType::Unknown);
    assert!(MediaType::parse("whatever").is_none());
    assert_eq!(MediaType::Episode.as_display_name(), "Episode");
}

#[test]
fn lowercase_matching_is_case_insensitive() {
    let mut builder = Client::builder();
    builder.api_key("k");
    builder.url("https://jellyfin.example.com");
    builder.username("ALICE");
    let mut client = builder.build().unwrap();
    client.get_session(vec![RawSession {
        user_name: Some("alice".to_string()),
        now_playing_item: Some(bare_item(MediaType::Movie, "Film")),
        play_state: Some(PlayState { is_paused: false, position_ticks: None }),
    }]);
    assert!(client.session.is_some());
}

#[test]
fn links_alone_become_buttons() {
    let mut item = bare_item(MediaType::Movie, "Film");
    item.external_urls = Some(vec![
        ExternalUrl {
            name: "IMDb".to_string(),
            url: "https://imdb.example/title".to_string(),
        },
        ExternalUrl {
            name: "Trakt".to_string(),
            url: "https://trakt.example/show".to_string(),
        },
        ExternalUrl {
            name: "Extra".to_string(),
            url: "https://extra.example".to_string(),
        },
    ]);
    let client = client_with_session(item);
    let buttons = client.get_buttons().unwrap();
    assert_eq!(buttons.len(), 2);
    assert_eq!(buttons[0].name, "IMDb");
    assert_eq!(buttons[1].name, "Trakt");
}

#[test]
fn no_buttons_and_no_links_give_none() {
    let client = client_with_session(bare_item(MediaType::Movie, "Film"));
    assert!(client.get_buttons().is_none());
}

#[test]
fn audiobook_state_combines_artists_and_genres() {
    let mut item = bare_item(MediaType::AudioBook, "Story");
    item.artists = Some(vec!["Alice".to_string()]);
    item.genres = Some(vec!["Drama".to_string(), "History".to_string()]);
    item.album = Some("The Story".to_string());
    let client = client_with_session(item);
    assert_eq!(client.get_state(), "By Alice - Drama, History");
    assert_eq!(client.get_details(), "The Story");
}

#[test]
fn default_button_is_the_dynamic_sentinel() {
    let b = Button::default();
    assert!(b.is_dynamic());
    let real = Button::new("A".to_string(), "https://a.example".to_string());
    assert!(!real.is_dynamic());
}

#[test]
fn uninitialized_library_cache_suppresses_nothing() {
    let mut builder = Client::builder();
    builder.api_key("k");
    builder.url("https://jellyfin.example.com");
    builder.username("user");
    builder.blacklist_libraries(vec!["Private".to_string()]);
    let mut client = builder.build().unwrap();
    let mut item = bare_item(MediaType::Movie, "Secret");
    item.path = Some("/data/private/secret.mkv".to_string());
    client.session = Some(Session {
        now_playing_item: item,
        play_state: PlayState { is_paused: false, position_ticks: None },
        item_id: "i".to_string(),
    });
    // The library cache has never been fetched: fail open.
    assert!(!client.check_blacklist());
}

#[test]
fn movie_details_default_is_the_title() {
    let client = client_with_session(bare_item(MediaType::Movie, "The Film"));
    assert_eq!(client.get_details(), "The Film");
}

#[test]
fn image_text_is_empty_outside_template_types() {
    let client = client_with_session(bare_item(MediaType::Book, "Novel"));
    assert_eq!(client.get_image_text(), "");
}

#[test]
fn episode_activity_carries_timestamps_and_kind() {
    let mut item = bare_item(MediaType::Episode, "Pilot");
    item.parent_index_number = Some(2);
    item.index_number = Some(5);
    item.series_name = Some("Show".to_string());
    item.run_time_ticks = Some(1200 * 10_000_000);
    let mut client = client_with_session(item);
    if let Some(session) = client.session.as_mut() {
        session.play_state.position_ticks = Some(300 * 10_000_000);
    }
    let activity = client
        .build_activity(50_000, "https://img".to_string())
        .unwrap()
        .unwrap();
    assert_eq!(activity.timestamps, Some((49_700, 50_900)));
    assert_eq!(activity.kind, jellyfin_rpc::ActivityKind::Watching);
    assert_eq!(activity.large_image, "https://img");
    assert_eq!(activity.details, "Show");
    assert_eq!(activity.state, "S02 - E05 Pilot");
}

#[test]
fn short_activity_lines_are_padded_to_three_chars() {
    let mut client = client_with_session(bare_item(MediaType::Movie, "X"));
    client.movies_display_options.display = DisplayFormat {
        details_text: Some("{title}".to_string()),
        state_text: Some("".to_string()),
        image_text: Some("x".to_string()),
    };
    let activity = client
        .build_activity(0, "img".to_string())
        .unwrap()
        .unwrap();
    assert_eq!(activity.details.chars().count(), 3);
    assert_eq!(activity.state.chars().count(), 3);
    assert!(activity.details.starts_with('X'));
}
