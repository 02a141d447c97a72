//! Data model for what the media server reports: media types, sessions,
//! play state, buttons and library folders.

use vstd::prelude::*;
use crate::text::{str_eq, join_artists_spec, join_artists};

verus! {

/// The type of the currently playing content.
#[derive(Debug, PartialEq, Eq, Structural, Clone, Copy)]
pub enum MediaType {
    /// If the content playing is a Movie.
    Movie,
    /// If the content playing is an Episode.
    Episode,
    /// If the content playing is a LiveTv.
    LiveTv,
    /// If the content playing is a Music.
    Music,
    /// If the content playing is a Book.
    Book,
    /// If the content playing is an Audio Book.
    AudioBook,
    /// If the content is unrecognized.
    Unknown,
}

/// The media type that a lower-cased type tag from the server stands for.
pub open spec fn media_type_of_tag(s: Seq<char>) -> MediaType {
    if s == "episode"@ {
        MediaType::Episode
    } else if s == "movie"@ {
        MediaType::Movie
    } else if s == "music"@ || s == "audio"@ {
        MediaType::Music
    } else if s == "livetv"@ || s == "tvchannel"@ {
        MediaType::LiveTv
    } else if s == "book"@ {
        MediaType::Book
    } else if s == "audiobook"@ {
        MediaType::AudioBook
    } else {
        MediaType::Unknown
    }
}

/// The display name of a media type.
pub open spec fn media_type_name(m: MediaType) -> Seq<char> {
    match m {
        MediaType::Movie => "Movie"@,
        MediaType::Episode => "Episode"@,
        MediaType::LiveTv => "LiveTv"@,
        MediaType::Music => "Music"@,
        MediaType::Book => "Book"@,
        MediaType::AudioBook => "AudioBook"@,
        MediaType::Unknown => "None"@,
    }
}

impl MediaType {
    /// Check if the MediaType is unrecognized, returns `true` if it is.
    pub fn is_none(&self) -> (r: bool)
        ensures
            r == (*self == MediaType::Unknown),
    {
        *self == MediaType::Unknown
    }

    /// The media type a lower-cased type tag stands for; an unrecognized
    /// tag gives [`MediaType::Unknown`].
    pub fn parse(value: &str) -> (r: MediaType)
        ensures
            r == media_type_of_tag(value@),
    {
        if str_eq(value, "episode") {
            MediaType::Episode
        } else if str_eq(value, "movie") {
            MediaType::Movie
        } else if str_eq(value, "music") || str_eq(value, "audio") {
            MediaType::Music
        } else if str_eq(value, "livetv") || str_eq(value, "tvchannel") {
            MediaType::LiveTv
        } else if str_eq(value, "book") {
            MediaType::Book
        } else if str_eq(value, "audiobook") {
            MediaType::AudioBook
        } else {
            MediaType::Unknown
        }
    }

    /// The display name of the media type.
    pub fn as_display_name(&self) -> (r: String)
        ensures
            r@ == media_type_name(*self),
    {
        match *self {
            MediaType::Movie => String::from_str("Movie"),
            MediaType::Episode => String::from_str("Episode"),
            MediaType::LiveTv => String::from_str("LiveTv"),
            MediaType::Music => String::from_str("Music"),
            MediaType::Book => String::from_str("Book"),
            MediaType::AudioBook => String::from_str("AudioBook"),
            MediaType::Unknown => String::from_str("None"),
        }
    }
}

impl Default for MediaType {
    /// An unrecognized media type.
    fn default() -> (r: Self)
        ensures
            r == MediaType::Unknown,
    {
        MediaType::Unknown
    }
}

/// Contains information about buttons displayed in Discord.
#[derive(Debug, Clone)]
pub struct Button {
    /// What the name should be showed as in Discord.
    pub name: String,
    /// What clicking it should point to in Discord.
    pub url: String,
}

impl Button {
    /// Creates a new button with the supplied name and url.
    pub fn new(name: String, url: String) -> (r: Self)
        ensures
            r.name == name,
            r.url == url,
    {
        Self { name, url }
    }

    /// Whether both fields hold the sentinel that asks for a dynamic
    /// button, filled at render time from the item's external links.
    pub fn is_dynamic(&self) -> (r: bool)
        ensures
            r == (self.name@ == "dynamic"@ && self.url@ == "dynamic"@),
    {
        str_eq(self.name.as_str(), "dynamic") && str_eq(self.url.as_str(), "dynamic")
    }
}

impl Default for Button {
    /// The dynamic-button sentinel.
    fn default() -> (r: Self)
        ensures
            r.name@ == "dynamic"@,
            r.url@ == "dynamic"@,
    {
        Self { name: String::from_str("dynamic"), url: String::from_str("dynamic") }
    }
}

/// A link to the playing item on an external service.
#[derive(Debug, Clone)]
pub struct ExternalUrl {
    /// Name of the service.
    pub name: String,
    /// URL pointing at the item on that service.
    pub url: String,
}

/// The play state of a session.
#[derive(Debug, Clone)]
pub struct PlayState {
    /// Whether playback is paused.
    pub is_paused: bool,
    /// The playback position, in ticks of a ten-millionth of a second.
    pub position_ticks: Option<i64>,
}

/// A named library root on the media server, with its physical paths.
#[derive(Debug, Clone)]
pub struct VirtualFolder {
    /// The configured name of the library.
    pub name: Option<String>,
    /// The filesystem roots that hold the library's files.
    pub locations: Vec<String>,
}

/// Immutable snapshot of the playing item's metadata.
///
/// The community rating is held in tenths of a point, so that `7.8` is
/// stored as `78`; the caller converts when it reads the server's reply.
#[derive(Debug, Clone)]
pub struct NowPlayingItem {
    /// The item's display name.
    pub name: String,
    /// The kind of content.
    pub media_type: MediaType,
    /// The item's id on the server.
    pub id: String,
    /// The item's full run time, in ticks.
    pub run_time_ticks: Option<i64>,
    /// The production year.
    pub production_year: Option<i64>,
    /// The item's genres.
    pub genres: Option<Vec<String>>,
    /// Links to the item on external services.
    pub external_urls: Option<Vec<ExternalUrl>>,
    /// The critic score, out of one hundred.
    pub critic_rating: Option<i64>,
    /// The community score, in tenths of a point out of ten.
    pub community_rating: Option<i64>,
    /// The original title, where it differs from the display name.
    pub original_title: Option<String>,
    /// The item's path on the server's filesystem.
    pub path: Option<String>,
    /// The season number, for episodes.
    pub parent_index_number: Option<i32>,
    /// The episode number, or the first of a range.
    pub index_number: Option<i32>,
    /// The last episode number, where one file spans several episodes.
    pub index_number_end: Option<i32>,
    /// The series name, for episodes.
    pub series_name: Option<String>,
    /// The series id, for episodes.
    pub series_id: Option<String>,
    /// The series studio, for episodes.
    pub series_studio: Option<String>,
    /// The artists, for audio items.
    pub artists: Option<Vec<String>>,
    /// The extra-type marker; theme songs carry `ThemeSong` here.
    pub extra_type: Option<String>,
    /// The album id, for audio items.
    pub album_id: Option<String>,
    /// The album name, for audio items.
    pub album: Option<String>,
}

/// A session as the server reports it, fields still optional.
#[derive(Debug, Clone)]
pub struct RawSession {
    /// The name of the user the session belongs to.
    pub user_name: Option<String>,
    /// What the session is playing, if anything.
    pub now_playing_item: Option<NowPlayingItem>,
    /// The play state, if the session reports one.
    pub play_state: Option<PlayState>,
}

/// The id under which an item is cached and looked up: the series id for
/// episodes, the album id for audio, else the item's own id.
pub open spec fn resolved_item_id(item: NowPlayingItem) -> Seq<char> {
    match item.media_type {
        MediaType::Episode => match item.series_id {
            Option::Some(sid) => sid@,
            Option::None => item.id@,
        },
        MediaType::Music => match item.album_id {
            Option::Some(aid) => aid@,
            Option::None => item.id@,
        },
        _ => item.id@,
    }
}

impl RawSession {
    /// Resolves the raw session into a [`Session`], computing the cache
    /// key for the playing item.
    pub fn build(self) -> (s: Session)
        requires
            self.now_playing_item is Some,
            self.play_state is Some,
        ensures
            s.now_playing_item == self.now_playing_item.unwrap(),
            s.play_state == self.play_state.unwrap(),
            s.item_id@ == resolved_item_id(self.now_playing_item.unwrap()),
    {
        let item = self.now_playing_item.unwrap();
        let id: String = match item.media_type {
            MediaType::Episode => match &item.series_id {
                Some(sid) => sid.clone(),
                None => item.id.clone(),
            },
            MediaType::Music => match &item.album_id {
                Some(aid) => aid.clone(),
                None => item.id.clone(),
            },
            _ => item.id.clone(),
        };
        Session { now_playing_item: item, play_state: self.play_state.unwrap(), item_id: id }
    }
}

/// A resolved session: the playing item, its play state, and the id used
/// for caches and lookups.
#[derive(Debug, Clone)]
pub struct Session {
    /// What the session is playing.
    pub now_playing_item: NowPlayingItem,
    /// How it is being played.
    pub play_state: PlayState,
    /// The cache key for the playing item.
    pub item_id: String,
}

/// The artist list of an item, as sequences of characters; a missing list
/// stands for one empty name, as the server's reply is read.
pub open spec fn artists_view(artists: Option<Vec<String>>) -> Seq<Seq<char>> {
    match artists {
        Option::Some(v) => v.deep_view(),
        Option::None => seq![Seq::<char>::empty()],
    }
}

/// Start and end of the timestamps a session shows, or the reason none
/// are shown.
#[derive(Debug, PartialEq, Eq, Structural, Clone, Copy)]
pub enum PlayTime {
    /// Playback is running: the start and end instants, in seconds since
    /// the epoch.
    Range(i64, i64),
    /// Playback is paused, or the session lacks the data to place it.
    Paused,
    /// This media type shows no timestamps.
    Absent,
}

/// Division truncated toward zero, as machine division behaves.
pub open spec fn tdiv(a: int, b: int) -> int
    recommends
        b > 0,
{
    if a >= 0 {
        a / b
    } else {
        -((-a) / b)
    }
}

/// One second, in ticks.
pub open spec fn ticks_per_second() -> int {
    10_000_000
}

/// What [`Session::get_time`] returns: books and live TV show no
/// timestamps; a paused or incomplete state shows none either; otherwise
/// the start lies one playback-position before now and the end one
/// remaining-run-time after it.
pub open spec fn play_time_spec(s: Session, now_secs: int) -> PlayTime {
    if s.now_playing_item.media_type == MediaType::Book || s.now_playing_item.media_type
        == MediaType::LiveTv {
        PlayTime::Absent
    } else if s.play_state.is_paused || s.play_state.position_ticks is None
        || s.now_playing_item.run_time_ticks is None {
        PlayTime::Paused
    } else {
        let position = tdiv(s.play_state.position_ticks.unwrap() as int, ticks_per_second());
        let runtime = tdiv(s.now_playing_item.run_time_ticks.unwrap() as int, ticks_per_second());
        PlayTime::Range((now_secs - position) as i64, (now_secs + (runtime - position)) as i64)
    }
}

/// Division of a tick count by a positive divisor, truncated toward zero.
pub fn ticks_div(t: i64, d: i64) -> (r: i64)
    requires
        2 <= d,
    ensures
        r as int == tdiv(t as int, d as int),
        -0x4000_0000_0000_0000int <= r as int <= 0x4000_0000_0000_0000int,
{
    if t >= 0 {
        let q = (t as u64) / (d as u64);
        proof {
            vstd::arithmetic::div_mod::lemma_div_is_ordered(t as int, 0x7fff_ffff_ffff_ffffint, d as int);
            vstd::arithmetic::div_mod::lemma_div_is_ordered_by_denominator(
                0x7fff_ffff_ffff_ffffint,
                2,
                d as int,
            );
            assert(q as int <= 0x7fff_ffff_ffff_ffffint / 2) by {
                assert(q as int <= 0x7fff_ffff_ffff_ffffint / (d as int));
                assert(0x7fff_ffff_ffff_ffffint / (d as int) <= 0x7fff_ffff_ffff_ffffint / 2);
            }
        }
        q as i64
    } else {
        let m: u64 = ((-(t + 1)) as u64) + 1;
        proof {
            assert(m as int == -(t as int));
        }
        let q = m / (d as u64);
        proof {
            vstd::arithmetic::div_mod::lemma_div_is_ordered(m as int, 0x8000_0000_0000_0000int, d as int);
            vstd::arithmetic::div_mod::lemma_div_is_ordered_by_denominator(
                0x8000_0000_0000_0000int,
                2,
                d as int,
            );
            assert(q as int <= 0x4000_0000_0000_0000int) by {
                assert(q as int <= 0x8000_0000_0000_0000int / (d as int));
                assert(0x8000_0000_0000_0000int / (d as int) <= 0x8000_0000_0000_0000int / 2);
            }
            vstd::arithmetic::div_mod::lemma_div_pos_is_pos(m as int, d as int);
        }
        let r = -(q as i64);
        r
    }
}

impl Session {
    /// Formats artists with comma separation and a final `and` before the
    /// last name.
    pub fn format_artists(&self) -> (r: String)
        ensures
            r@ == join_artists_spec(artists_view(self.now_playing_item.artists)),
    {
        match &self.now_playing_item.artists {
            Some(names) => join_artists(names),
            None => {
                let default: Vec<String> = vec![String::new()];
                let r = join_artists(&default);
                proof {
                    assert(default.deep_view() =~= seq![Seq::<char>::empty()]);
                }
                r
            },
        }
    }

    /// The timestamps this session shows, given the current time in
    /// seconds since the epoch.
    pub fn get_time(&self, now_secs: i64) -> (r: PlayTime)
        requires
            0 <= now_secs <= 4_000_000_000_000,
        ensures
            r == play_time_spec(*self, now_secs as int),
    {
        match self.now_playing_item.media_type {
            MediaType::Book => return PlayTime::Absent,
            MediaType::LiveTv => return PlayTime::Absent,
            _ => {},
        }
        if self.play_state.is_paused {
            return PlayTime::Paused;
        }
        let position_ticks = match self.play_state.position_ticks {
            Some(t) => t,
            None => return PlayTime::Paused,
        };
        let run_time_ticks = match self.now_playing_item.run_time_ticks {
            Some(t) => t,
            None => return PlayTime::Paused,
        };
        let position = ticks_div(position_ticks, 10_000_000);
        let runtime = ticks_div(run_time_ticks, 10_000_000);
        PlayTime::Range(now_secs - position, now_secs + (runtime - position))
    }
}

} // verus!
