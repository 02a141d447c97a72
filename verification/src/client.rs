//! The client: configuration, session selection, blacklist evaluation,
//! display-text rendering and activity assembly.  The caller performs the
//! HTTP and IPC calls and hands their results in as plain values.

use vstd::prelude::*;
use crate::jellyfin::{
    Button, MediaType, Session, RawSession, VirtualFolder, NowPlayingItem, resolved_item_id,
};
use crate::text::{pat_at, match_at, str_eq, subvec};
use crate::text::{
    replace_spec, replace_all, dec_int, dec_int_pad2, digit_char, dec_digits, i64_to_chars,
    i32_to_chars, i32_to_chars_pad2, join_artists_spec, join_artists, join_comma_spec, join_comma,
    push_u64_digits,
};
use crate::sanitize::{sanitize_spec, sanitize_vec, sep_seq, sep_token};
use crate::jellyfin::{artists_view, tdiv, ticks_div, ExternalUrl, PlayTime, play_time_spec};
use crate::text::{clamp_spec, clamp_text, seq_contains, contains_pat};
use crate::text::{chars_of, string_of, extend_chars};
use crate::sanitize::{trim_spec, trim_chars};
use crate::error::JfError;

verus! {

/// Whether `url::Url::parse` accepts the string; a property of the
/// characters alone.
pub uninterp spec fn url_parses(s: Seq<char>) -> bool;

/// Relies on `url::Url::parse`: whether a string parses as an absolute
/// URL depends on its characters alone.
#[verifier::external_body]
fn url_parse_ok(s: &str) -> (r: bool)
    ensures
        r == url_parses(s@),
{
    url::Url::parse(s).is_ok()
}

/// The lower-cased form of a string; a property of the characters alone.
pub uninterp spec fn lower_of(s: Seq<char>) -> Seq<char>;

/// Relies on `str::to_lowercase`: the result depends on the characters
/// alone.
#[verifier::external_body]
pub(crate) fn lowercase(s: &str) -> (r: String)
    ensures
        r@ == lower_of(s@),
{
    s.to_lowercase()
}

/// How episode numbering is displayed when only the legacy episode
/// options are configured.
#[derive(Debug)]
pub struct EpisodeDisplayOptions {
    /// Splits season and episode numbers with a dash.
    pub divider: bool,
    /// Adds leading zeroes to season and episode numbers.
    pub prefix: bool,
    /// Removes the episode name from the activity.
    pub simple: bool,
}

/// Represents the formatting details for a display.
#[derive(Debug, Clone)]
pub struct DisplayFormat {
    /// First line of the activity.
    pub details_text: Option<String>,
    /// Second line of the activity.
    pub state_text: Option<String>,
    /// Third line / large image text of the activity.
    pub image_text: Option<String>,
}

/// One configured item of the legacy display list, wrapped in braces:
/// `genres` becomes `{genres}`, trimmed first.
pub open spec fn brace_item(s: Seq<char>) -> Seq<char> {
    seq!['{'] + trim_spec(s) + seq!['}']
}

/// The legacy display items, braced and joined with ` {sep} `.
pub open spec fn legacy_items_join(items: Seq<Seq<char>>, i: int) -> Seq<char>
    decreases items.len() - i,
{
    if i < 0 || i >= items.len() {
        Seq::empty()
    } else {
        let sep = if i == 0 {
            Seq::<char>::empty()
        } else {
            " {sep} "@
        };
        sep + brace_item(items[i]) + legacy_items_join(items, i + 1)
    }
}

/// The state template the legacy display list stands for.
pub open spec fn legacy_state_text(items: Seq<Seq<char>>) -> Seq<char> {
    "{__default}"@ + legacy_items_join(items, 0)
}

impl DisplayFormat {
    /// The display format a legacy item list stands for: default details,
    /// a state template listing the items parted by separators, and the
    /// default image text.
    pub fn from_items(items: &Vec<String>) -> (r: DisplayFormat)
        ensures
            r.details_text is Some,
            r.details_text.unwrap()@ == "{__default}"@,
            r.state_text is Some,
            r.state_text.unwrap()@ == legacy_state_text(items.deep_view()),
            r.image_text is Some,
            r.image_text.unwrap()@ == "Jellyfin-RPC v{version}"@,
    {
        let ghost dv = items.deep_view();
        let mut state: Vec<char> = chars_of("{__default}");
        let mut i: usize = 0;
        proof {
            assert(state@ + legacy_items_join(dv, 0) =~= "{__default}"@ + legacy_items_join(
                dv,
                0,
            ));
        }
        while i < items.len()
            invariant
                i <= items@.len(),
                dv == items.deep_view(),
                dv.len() == items@.len(),
                legacy_state_text(dv) == state@ + legacy_items_join(dv, i as int),
            decreases items@.len() - i,
        {
            let ghost state0 = state@;
            if i != 0 {
                let sep = chars_of(" {sep} ");
                extend_chars(&mut state, &sep);
            }
            state.push('{');
            let item_chars = chars_of(items[i].as_str());
            let trimmed = trim_chars(&item_chars);
            extend_chars(&mut state, &trimmed);
            state.push('}');
            proof {
                assert(dv[i as int] == items@[i as int]@);
                let sep: Seq<char> = if i == 0 {
                    Seq::<char>::empty()
                } else {
                    " {sep} "@
                };
                assert(state@ =~= state0 + sep + brace_item(dv[i as int]));
                assert(legacy_items_join(dv, i as int) == sep + brace_item(dv[i as int])
                    + legacy_items_join(dv, i + 1));
                assert(state@ + legacy_items_join(dv, i + 1) =~= state0 + legacy_items_join(
                    dv,
                    i as int,
                ));
            }
            i = i + 1;
        }
        proof {
            assert(state@ + legacy_items_join(dv, i as int) =~= state@);
        }
        DisplayFormat {
            details_text: Some(String::from_str("{__default}")),
            state_text: Some(string_of(&state)),
            image_text: Some(String::from_str("Jellyfin-RPC v{version}")),
        }
    }

    /// The display format a comma-separated legacy string stands for:
    /// the string is split on commas and treated as an item list.
    pub fn from_comma_string(item: &str) -> (r: DisplayFormat)
        ensures
            r.details_text is Some,
            r.details_text.unwrap()@ == "{__default}"@,
            r.state_text is Some,
            r.state_text.unwrap()@ == legacy_state_text(split_commas(item@)),
            r.image_text is Some,
            r.image_text.unwrap()@ == "Jellyfin-RPC v{version}"@,
    {
        let parts = split_commas_exec(item);
        let r = DisplayFormat::from_items(&parts);
        r
    }

    /// The display format the legacy episode options stand for.
    pub fn from_episode_options(value: EpisodeDisplayOptions) -> (r: DisplayFormat)
        ensures
            r.details_text is Some,
            r.details_text.unwrap()@ == "{show-title}"@,
            r.state_text is Some,
            r.state_text.unwrap()@ == episode_state_text(
                value.divider,
                value.prefix,
                value.simple,
            ),
            r.image_text is Some,
            r.image_text.unwrap()@ == "Jellyfin-RPC v{version}"@,
    {
        let state: &str = if value.prefix {
            if value.divider {
                if value.simple {
                    "S{season-padded} - E{episode-padded}"
                } else {
                    "S{season-padded} - E{episode-padded} {title}"
                }
            } else {
                if value.simple {
                    "S{season-padded}E{episode-padded}"
                } else {
                    "S{season-padded}E{episode-padded} {title}"
                }
            }
        } else {
            if value.divider {
                if value.simple {
                    "S{season} - E{episode}"
                } else {
                    "S{season} - E{episode} {title}"
                }
            } else {
                if value.simple {
                    "S{season}E{episode}"
                } else {
                    "S{season}E{episode} {title}"
                }
            }
        };
        DisplayFormat {
            details_text: Some(String::from_str("{show-title}")),
            state_text: Some(String::from_str(state)),
            image_text: Some(String::from_str("Jellyfin-RPC v{version}")),
        }
    }
}

/// The episode state template the legacy options select: season tag,
/// optional dash divider, episode tag, and the title unless simple.
pub open spec fn episode_state_text(divider: bool, prefix: bool, simple: bool) -> Seq<char> {
    if prefix {
        if divider {
            if simple {
                "S{season-padded} - E{episode-padded}"@
            } else {
                "S{season-padded} - E{episode-padded} {title}"@
            }
        } else {
            if simple {
                "S{season-padded}E{episode-padded}"@
            } else {
                "S{season-padded}E{episode-padded} {title}"@
            }
        }
    } else {
        if divider {
            if simple {
                "S{season} - E{episode}"@
            } else {
                "S{season} - E{episode} {title}"@
            }
        } else {
            if simple {
                "S{season}E{episode}"@
            } else {
                "S{season}E{episode} {title}"@
            }
        }
    }
}

/// The pieces of `s` between its commas, in order.
pub open spec fn split_commas(s: Seq<char>) -> Seq<Seq<char>>
    decreases s.len(),
    via split_commas_dec
{
    if !s.contains(',') {
        seq![s]
    } else {
        let i = first_comma(s, 0);
        seq![s.subrange(0, i)] + split_commas(s.skip(i + 1))
    }
}

#[via_fn]
proof fn split_commas_dec(s: Seq<char>) {
    if s.contains(',') {
        lemma_contains_comma(s);
        lemma_first_comma(s, 0);
    }
}

/// The position of the first comma at or after `from`.
pub open spec fn first_comma(s: Seq<char>, from: int) -> int
    decreases s.len() - from,
{
    if from < 0 || from >= s.len() {
        s.len() as int
    } else if s[from] == ',' {
        from
    } else {
        first_comma(s, from + 1)
    }
}

/// The first comma named by `first_comma` is a comma, and none stands
/// before it.
proof fn lemma_first_comma(s: Seq<char>, from: int)
    requires
        0 <= from <= s.len(),
    ensures
        from <= first_comma(s, from) <= s.len(),
        first_comma(s, from) < s.len() ==> s[first_comma(s, from)] == ',',
        forall|j: int| from <= j < first_comma(s, from) ==> s[j] != ',',
        first_comma(s, from) == s.len() ==> (forall|j: int| from <= j < s.len() ==> s[j] != ','),
    decreases s.len() - from,
{
    if from < s.len() && s[from] != ',' {
        lemma_first_comma(s, from + 1);
    }
}

/// `s` contains a comma exactly when `first_comma` finds one.
proof fn lemma_contains_comma(s: Seq<char>)
    ensures
        s.contains(',') <==> first_comma(s, 0) < s.len(),
{
    lemma_first_comma(s, 0);
    if s.contains(',') {
        let i = choose|i: int| 0 <= i < s.len() && s[i] == ',';
        assert(!(first_comma(s, 0) == s.len()));
    }
    if first_comma(s, 0) < s.len() {
        assert(s[first_comma(s, 0)] == ',');
    }
}

/// Splits `s` on commas, as [`split_commas`] describes.
pub fn split_commas_exec(s: &str) -> (r: Vec<String>)
    ensures
        r.deep_view() == split_commas(s@),
{
    let v = chars_of(s);
    let mut parts: Vec<String> = Vec::new();
    let mut start: usize = 0;
    proof {
        assert(parts.deep_view() =~= Seq::<Seq<char>>::empty());
        assert(v@.skip(0) =~= v@);
        assert(parts.deep_view() + split_commas(v@) =~= split_commas(v@));
    }
    loop
        invariant_except_break
            start <= v@.len(),
            v@ == s@,
            split_commas(s@) == parts.deep_view() + split_commas(v@.skip(start as int)),
        ensures
            parts.deep_view() == split_commas(s@),
        decreases v@.len() - start,
    {
        let ghost rest = v@.skip(start as int);
        proof {
            lemma_first_comma(rest, 0);
            lemma_contains_comma(rest);
        }
        let mut j = start;
        while j < v.len() && v[j] != ','
            invariant
                start <= j <= v@.len(),
                v@ == s@,
                forall|k: int| start <= k < j ==> v@[k] != ',',
            decreases v@.len() - j,
        {
            j = j + 1;
        }
        proof {
            assert forall|k: int| 0 <= k < j - start implies rest[k] != ',' by {
                assert(rest[k] == v@[start + k]);
            }
            if j < v@.len() {
                assert(rest[j - start] == v@[j as int]);
            }
            assert(first_comma(rest, 0) == j - start);
        }
        let piece = subvec(&v, start, j);
        let piece_str = string_of(&piece);
        let ghost parts0 = parts.deep_view();
        parts.push(piece_str);
        proof {
            assert(parts.deep_view() =~= parts0.push(piece@));
            assert(piece@ =~= rest.subrange(0, j - start));
        }
        if j == v.len() {
            proof {
                assert(!rest.contains(','));
                assert(split_commas(rest) == seq![rest]);
                assert(rest =~= rest.subrange(0, j - start));
                assert(parts.deep_view() =~= (parts0 + split_commas(rest)));
            }
            break;
        }
        proof {
            assert(rest.contains(',')) by {
                assert(rest[j - start] == ',');
            }
            assert(split_commas(rest) == seq![rest.subrange(0, j - start)] + split_commas(
                rest.skip(j - start + 1),
            ));
            assert(rest.skip(j - start + 1) =~= v@.skip(j + 1));
            assert(parts.deep_view() + split_commas(v@.skip(j + 1)) =~= parts0 + split_commas(
                rest,
            ));
        }
        start = j + 1;
    }
    parts
}

/// The display configuration for one media category: the separator that
/// `{sep}` stands for, and the three template strings.
#[derive(Debug)]
pub struct DisplayOptions {
    /// What `{sep}` is replaced with.
    pub separator: String,
    /// The templates.
    pub display: DisplayFormat,
}

/// The library cache: unresolved, or resolved at a known time.
#[derive(Debug)]
pub enum BlacklistedLibraries {
    /// No successful fetch yet; nothing is suppressed by library.
    Uninitialized,
    /// The blacklisted folders, and when they were fetched, in seconds
    /// since the epoch.
    Initialized(Vec<VirtualFolder>, i64),
}

/// Which libraries and media types are never shown.
#[derive(Debug)]
pub struct Blacklist {
    /// Media types that are never shown.
    pub media_types: Vec<MediaType>,
    /// Configured names of libraries that are never shown.
    pub libraries_names: Vec<String>,
    /// The cached, resolved library folders.
    pub libraries: BlacklistedLibraries,
}

/// Settings for the imgur upload backend.
#[derive(Debug)]
pub struct ImgurOptions {
    /// Whether uploads go to imgur.
    pub enabled: bool,
    /// The imgur API client id.
    pub client_id: String,
    /// Where the URL cache file lives.
    pub urls_location: String,
}

/// Settings for the litterbox upload backend.
#[derive(Debug)]
pub struct LitterboxOptions {
    /// Whether uploads go to litterbox.
    pub enabled: bool,
    /// Where the URL cache file lives.
    pub urls_location: String,
}

/// Client holding the configuration and the per-poll state.  The caller
/// owns the HTTP and IPC transports and feeds their replies in.
#[derive(Debug)]
pub struct Client {
    /// The media-server URL, already checked to parse.
    pub url: String,
    /// The media-server API key, for the caller's requests.
    pub api_key: String,
    /// The application id the presence transport connects under.
    pub client_id: String,
    /// Whether the caller accepts self-signed certificates.
    pub self_signed: bool,
    /// The usernames whose sessions are shown.
    pub usernames: Vec<String>,
    /// The session selected this poll, if any.
    pub session: Option<Session>,
    /// Configured buttons; absent means dynamic buttons only.
    pub buttons: Option<Vec<Button>>,
    /// Display configuration for music.
    pub music_display_options: DisplayOptions,
    /// Display configuration for movies.
    pub movies_display_options: DisplayOptions,
    /// Display configuration for episodes.
    pub episodes_display_options: DisplayOptions,
    /// What is never shown.
    pub blacklist: Blacklist,
    /// Whether paused content is shown.
    pub show_paused: bool,
    /// Whether images are shown at all.
    pub show_images: bool,
    /// The imgur backend settings.
    pub imgur_options: ImgurOptions,
    /// The litterbox backend settings.
    pub litterbox_options: LitterboxOptions,
    /// Text shown when hovering the large image.
    pub large_image_text: String,
}

impl Client {
    /// Calls the `ClientBuilder::new()` function.
    pub fn builder() -> (r: ClientBuilder)
        ensures
            builder_defaults(r),
    {
        ClientBuilder::new()
    }
}

/// What `ClientBuilder::new` promises of every default field.
pub open spec fn builder_defaults(r: ClientBuilder) -> bool {
    &&& r.url@ == Seq::<char>::empty()
    &&& r.client_id@ == "1053747938519679018"@
    &&& r.api_key@ == Seq::<char>::empty()
    &&& r.self_signed == false
    &&& r.usernames@ == Seq::<String>::empty()
    &&& r.buttons is None
    &&& r.episode_divider == false
    &&& r.episode_prefix == false
    &&& r.episode_simple == false
    &&& r.music_separator@ == "-"@
    &&& default_genres_display(r.music_display)
    &&& r.movies_separator@ == "-"@
    &&& default_genres_display(r.movies_display)
    &&& r.episodes_separator@ == "-"@
    &&& default_episodes_display(r.episodes_display)
    &&& r.blacklist_media_types@ == Seq::<MediaType>::empty()
    &&& r.blacklist_libraries@ == Seq::<String>::empty()
    &&& r.show_paused == true
    &&& r.show_images == false
    &&& r.use_imgur == false
    &&& r.imgur_client_id@ == Seq::<char>::empty()
    &&& r.imgur_urls_file_location@ == Seq::<char>::empty()
    &&& r.use_litterbox == false
    &&& r.litterbox_urls_file_location@ == Seq::<char>::empty()
    &&& r.large_image_text@ == Seq::<char>::empty()
}

/// The default display: genres behind the default line.
pub open spec fn default_genres_display(d: DisplayFormat) -> bool {
    &&& d.details_text is Some
    &&& d.details_text.unwrap()@ == "{__default}"@
    &&& d.state_text is Some
    &&& d.state_text.unwrap()@ == legacy_state_text(seq!["genres"@])
    &&& d.image_text is Some
    &&& d.image_text.unwrap()@ == "Jellyfin-RPC v{version}"@
}

/// The default episode display: padded numbers, a dash divider, and the
/// episode title.
pub open spec fn default_episodes_display(d: DisplayFormat) -> bool {
    &&& d.details_text is Some
    &&& d.details_text.unwrap()@ == "{show-title}"@
    &&& d.state_text is Some
    &&& d.state_text.unwrap()@ == episode_state_text(true, true, false)
    &&& d.image_text is Some
    &&& d.image_text.unwrap()@ == "Jellyfin-RPC v{version}"@
}

/// Used to build a new Client.
#[derive(Debug)]
pub struct ClientBuilder {
    /// The media-server URL.
    pub url: String,
    /// The application id the presence transport connects under.
    pub client_id: String,
    /// The media-server API key.
    pub api_key: String,
    /// Whether the caller accepts self-signed certificates.
    pub self_signed: bool,
    /// The usernames whose sessions are shown.
    pub usernames: Vec<String>,
    /// Configured buttons.
    pub buttons: Option<Vec<Button>>,
    /// Legacy episode option: dash between numbers.
    pub episode_divider: bool,
    /// Legacy episode option: zero-padded numbers.
    pub episode_prefix: bool,
    /// Legacy episode option: no episode name.
    pub episode_simple: bool,
    /// The separator for music templates.
    pub music_separator: String,
    /// The music templates.
    pub music_display: DisplayFormat,
    /// The separator for movie templates.
    pub movies_separator: String,
    /// The movie templates.
    pub movies_display: DisplayFormat,
    /// The separator for episode templates.
    pub episodes_separator: String,
    /// The episode templates.
    pub episodes_display: DisplayFormat,
    /// Media types that are never shown.
    pub blacklist_media_types: Vec<MediaType>,
    /// Names of libraries that are never shown.
    pub blacklist_libraries: Vec<String>,
    /// Whether paused content is shown.
    pub show_paused: bool,
    /// Whether images are shown.
    pub show_images: bool,
    /// Whether uploads go to imgur.
    pub use_imgur: bool,
    /// The imgur API client id.
    pub imgur_client_id: String,
    /// Where the imgur URL cache file lives.
    pub imgur_urls_file_location: String,
    /// Whether uploads go to litterbox.
    pub use_litterbox: bool,
    /// Where the litterbox URL cache file lives.
    pub litterbox_urls_file_location: String,
    /// Text shown when hovering the large image.
    pub large_image_text: String,
}

impl ClientBuilder {
    /// Returns a ClientBuilder with some default options set.
    pub fn new() -> (r: Self)
        ensures
            builder_defaults(r),
    {
        let genres_item: Vec<String> = vec![String::from_str("genres")];
        let music_display = DisplayFormat::from_items(&genres_item);
        let movies_display = DisplayFormat::from_items(&genres_item);
        let episodes_display = DisplayFormat::from_episode_options(
            EpisodeDisplayOptions { divider: true, prefix: true, simple: false },
        );
        proof {
            assert(genres_item.deep_view() =~= seq!["genres"@]);
        }
        ClientBuilder {
            url: String::new(),
            client_id: String::from_str("1053747938519679018"),
            api_key: String::new(),
            self_signed: false,
            usernames: Vec::new(),
            buttons: None,
            episode_divider: false,
            episode_prefix: false,
            episode_simple: false,
            music_separator: String::from_str("-"),
            music_display,
            movies_separator: String::from_str("-"),
            movies_display,
            episodes_separator: String::from_str("-"),
            episodes_display,
            blacklist_media_types: Vec::new(),
            blacklist_libraries: Vec::new(),
            show_paused: true,
            show_images: false,
            use_imgur: false,
            imgur_client_id: String::new(),
            imgur_urls_file_location: String::new(),
            use_litterbox: false,
            litterbox_urls_file_location: String::new(),
            large_image_text: String::new(),
        }
    }

    /// Jellyfin URL to be used by the client.
    pub fn url(&mut self, url: &str)
        ensures
            *final(self) == (ClientBuilder { url: final(self).url, ..*old(self) }),
            final(self).url@ == url@,
    {
        self.url = String::from_str(url);
    }

    /// Discord Application ID that the client will use when connecting.
    pub fn client_id(&mut self, client_id: &str)
        ensures
            *final(self) == (ClientBuilder { client_id: final(self).client_id, ..*old(self) }),
            final(self).client_id@ == client_id@,
    {
        self.client_id = String::from_str(client_id);
    }

    /// Jellyfin API key used to gather data about what is being played.
    pub fn api_key(&mut self, api_key: &str)
        ensures
            *final(self) == (ClientBuilder { api_key: final(self).api_key, ..*old(self) }),
            final(self).api_key@ == api_key@,
    {
        self.api_key = String::from_str(api_key);
    }

    /// Controls certificate validation in the caller's HTTP transport.
    pub fn self_signed(&mut self, self_signed: bool)
        ensures
            *final(self) == (ClientBuilder { self_signed, ..*old(self) }),
    {
        self.self_signed = self_signed;
    }

    /// Usernames that should be matched when checking sessions.
    pub fn usernames(&mut self, usernames: Vec<String>)
        ensures
            *final(self) == (ClientBuilder { usernames: final(self).usernames, ..*old(self) }),
            final(self).usernames == usernames,
    {
        self.usernames = usernames;
    }

    /// Like `usernames`, for a single username.
    pub fn username(&mut self, username: &str)
        ensures
            *final(self) == (ClientBuilder { usernames: final(self).usernames, ..*old(self) }),
            final(self).usernames@.len() == 1,
            final(self).usernames@[0]@ == username@,
    {
        let mut v: Vec<String> = Vec::new();
        v.push(String::from_str(username));
        self.usernames = v;
    }

    /// Buttons to be displayed on the activity; an empty vector displays
    /// none.
    pub fn buttons(&mut self, buttons: Vec<Button>)
        ensures
            *final(self) == (ClientBuilder { buttons: final(self).buttons, ..*old(self) }),
            final(self).buttons == Some(buttons),
    {
        self.buttons = Some(buttons);
    }

    /// Splits season and episode numbers with a dash.
    pub fn episode_divider(&mut self, val: bool)
        ensures
            *final(self) == (ClientBuilder { episode_divider: val, ..*old(self) }),
    {
        self.episode_divider = val;
    }

    /// Adds leading zeroes to season and episode numbers.
    pub fn episode_prefix(&mut self, val: bool)
        ensures
            *final(self) == (ClientBuilder { episode_prefix: val, ..*old(self) }),
    {
        self.episode_prefix = val;
    }

    /// Removes the episode name from the activity.
    pub fn episode_simple(&mut self, val: bool)
        ensures
            *final(self) == (ClientBuilder { episode_simple: val, ..*old(self) }),
    {
        self.episode_simple = val;
    }

    /// The separator for music templates.
    pub fn music_separator(&mut self, separator: &str)
        ensures
            *final(self) == (ClientBuilder { music_separator: final(self).music_separator, ..*old(self) }),
            final(self).music_separator@ == separator@,
    {
        self.music_separator = String::from_str(separator);
    }

    /// The music templates.
    pub fn music_display(&mut self, display: DisplayFormat)
        ensures
            *final(self) == (ClientBuilder { music_display: final(self).music_display, ..*old(self) }),
            final(self).music_display == display,
    {
        self.music_display = display;
    }

    /// The separator for movie templates.
    pub fn movies_separator(&mut self, separator: &str)
        ensures
            *final(self) == (ClientBuilder { movies_separator: final(self).movies_separator, ..*old(self) }),
            final(self).movies_separator@ == separator@,
    {
        self.movies_separator = String::from_str(separator);
    }

    /// The movie templates.
    pub fn movies_display(&mut self, display: DisplayFormat)
        ensures
            *final(self) == (ClientBuilder { movies_display: final(self).movies_display, ..*old(self) }),
            final(self).movies_display == display,
    {
        self.movies_display = display;
    }

    /// The separator for episode templates.
    pub fn episodes_separator(&mut self, separator: &str)
        ensures
            *final(self) == (ClientBuilder { episodes_separator: final(self).episodes_separator, ..*old(self) }),
            final(self).episodes_separator@ == separator@,
    {
        self.episodes_separator = String::from_str(separator);
    }

    /// The episode templates.
    pub fn episodes_display(&mut self, display: DisplayFormat)
        ensures
            *final(self) == (ClientBuilder { episodes_display: final(self).episodes_display, ..*old(self) }),
            final(self).episodes_display == display,
    {
        self.episodes_display = display;
    }

    /// Blacklist certain media types so they don't display.
    pub fn blacklist_media_types(&mut self, media_types: Vec<MediaType>)
        ensures
            *final(self) == (ClientBuilder {
                blacklist_media_types: final(self).blacklist_media_types,
                ..*old(self)
            }),
            final(self).blacklist_media_types == media_types,
    {
        self.blacklist_media_types = media_types;
    }

    /// Blacklist certain libraries so they don't display.
    pub fn blacklist_libraries(&mut self, libraries: Vec<String>)
        ensures
            *final(self) == (ClientBuilder {
                blacklist_libraries: final(self).blacklist_libraries,
                ..*old(self)
            }),
            final(self).blacklist_libraries == libraries,
    {
        self.blacklist_libraries = libraries;
    }

    /// Show activity when paused.
    pub fn show_paused(&mut self, val: bool)
        ensures
            *final(self) == (ClientBuilder { show_paused: val, ..*old(self) }),
    {
        self.show_paused = val;
    }

    /// Show images on the activity.
    pub fn show_images(&mut self, val: bool)
        ensures
            *final(self) == (ClientBuilder { show_images: val, ..*old(self) }),
    {
        self.show_images = val;
    }

    /// Use imgur for images, caching the uploaded links locally.
    pub fn use_imgur(&mut self, val: bool)
        ensures
            *final(self) == (ClientBuilder { use_imgur: val, ..*old(self) }),
    {
        self.use_imgur = val;
    }

    /// Imgur client id, used to upload images through their API.
    pub fn imgur_client_id(&mut self, client_id: &str)
        ensures
            *final(self) == (ClientBuilder {
                imgur_client_id: final(self).imgur_client_id,
                ..*old(self)
            }),
            final(self).imgur_client_id@ == client_id@,
    {
        self.imgur_client_id = String::from_str(client_id);
    }

    /// Where to store the URLs of images uploaded to imgur.
    pub fn imgur_urls_file_location(&mut self, location: &str)
        ensures
            *final(self) == (ClientBuilder {
                imgur_urls_file_location: final(self).imgur_urls_file_location,
                ..*old(self)
            }),
            final(self).imgur_urls_file_location@ == location@,
    {
        self.imgur_urls_file_location = String::from_str(location);
    }

    /// Use litterbox for images, caching the uploaded links locally.
    pub fn use_litterbox(&mut self, val: bool)
        ensures
            *final(self) == (ClientBuilder { use_litterbox: val, ..*old(self) }),
    {
        self.use_litterbox = val;
    }

    /// Where to store the URLs of images uploaded to litterbox.
    pub fn litterbox_urls_file_location(&mut self, location: &str)
        ensures
            *final(self) == (ClientBuilder {
                litterbox_urls_file_location: final(self).litterbox_urls_file_location,
                ..*old(self)
            }),
            final(self).litterbox_urls_file_location@ == location@,
    {
        self.litterbox_urls_file_location = String::from_str(location);
    }

    /// Text to be displayed when hovering the large activity image.
    pub fn large_image_text(&mut self, text: &str)
        ensures
            *final(self) == (ClientBuilder {
                large_image_text: final(self).large_image_text,
                ..*old(self)
            }),
            final(self).large_image_text@ == text@,
    {
        self.large_image_text = String::from_str(text);
    }

    /// Builds a client from the options specified in the builder: fails
    /// when the URL, the usernames or the API key is missing, or when the
    /// URL does not parse; otherwise the client carries the builder's
    /// options unchanged, with no session and an unresolved library
    /// cache.
    pub fn build(self) -> (r: Result<Client, JfError>)
        ensures
            (self.url@.len() == 0 || self.usernames@.len() == 0 || self.api_key@.len() == 0)
                <==> r == Result::<Client, JfError>::Err(JfError::MissingRequiredValues),
            !(self.url@.len() == 0 || self.usernames@.len() == 0 || self.api_key@.len() == 0)
                && !url_parses(self.url@) <==> r == Result::<Client, JfError>::Err(
                JfError::InvalidUrl,
            ),
            r is Ok <==> !(self.url@.len() == 0 || self.usernames@.len() == 0
                || self.api_key@.len() == 0) && url_parses(self.url@),
            r is Ok ==> built_from(r.unwrap(), self),
    {
        if self.url.as_str().unicode_len() == 0 || self.usernames.len() == 0
            || self.api_key.as_str().unicode_len() == 0 {
            return Err(JfError::MissingRequiredValues);
        }
        if !url_parse_ok(self.url.as_str()) {
            return Err(JfError::InvalidUrl);
        }
        Ok(
            Client {
                url: self.url,
                api_key: self.api_key,
                client_id: self.client_id,
                self_signed: self.self_signed,
                usernames: self.usernames,
                session: None,
                buttons: self.buttons,
                music_display_options: DisplayOptions {
                    separator: self.music_separator,
                    display: self.music_display,
                },
                movies_display_options: DisplayOptions {
                    separator: self.movies_separator,
                    display: self.movies_display,
                },
                episodes_display_options: DisplayOptions {
                    separator: self.episodes_separator,
                    display: self.episodes_display,
                },
                blacklist: Blacklist {
                    media_types: self.blacklist_media_types,
                    libraries_names: self.blacklist_libraries,
                    libraries: BlacklistedLibraries::Uninitialized,
                },
                show_paused: self.show_paused,
                show_images: self.show_images,
                imgur_options: ImgurOptions {
                    enabled: self.use_imgur,
                    client_id: self.imgur_client_id,
                    urls_location: self.imgur_urls_file_location,
                },
                litterbox_options: LitterboxOptions {
                    enabled: self.use_litterbox,
                    urls_location: self.litterbox_urls_file_location,
                },
                large_image_text: self.large_image_text,
            },
        )
    }
}

/// How a built client relates to its builder: every option carried over,
/// no session yet, library cache unresolved.
pub open spec fn built_from(c: Client, b: ClientBuilder) -> bool {
    &&& c.url == b.url
    &&& c.api_key == b.api_key
    &&& c.client_id == b.client_id
    &&& c.self_signed == b.self_signed
    &&& c.usernames == b.usernames
    &&& c.session is None
    &&& c.buttons == b.buttons
    &&& c.music_display_options.separator == b.music_separator
    &&& c.music_display_options.display == b.music_display
    &&& c.movies_display_options.separator == b.movies_separator
    &&& c.movies_display_options.display == b.movies_display
    &&& c.episodes_display_options.separator == b.episodes_separator
    &&& c.episodes_display_options.display == b.episodes_display
    &&& c.blacklist.media_types == b.blacklist_media_types
    &&& c.blacklist.libraries_names == b.blacklist_libraries
    &&& c.blacklist.libraries is Uninitialized
    &&& c.show_paused == b.show_paused
    &&& c.show_images == b.show_images
    &&& c.imgur_options.enabled == b.use_imgur
    &&& c.imgur_options.client_id == b.imgur_client_id
    &&& c.imgur_options.urls_location == b.imgur_urls_file_location
    &&& c.litterbox_options.enabled == b.use_litterbox
    &&& c.litterbox_options.urls_location == b.litterbox_urls_file_location
    &&& c.large_image_text == b.large_image_text
}

/// The path an item reports, or nothing.
pub open spec fn item_path_view(item: NowPlayingItem) -> Seq<char> {
    match item.path {
        Option::Some(p) => p@,
        Option::None => Seq::empty(),
    }
}

/// The configured name of a folder, or nothing.
pub open spec fn folder_name_view(f: VirtualFolder) -> Seq<char> {
    match f.name {
        Option::Some(n) => n@,
        Option::None => Seq::empty(),
    }
}

/// Whether a folder's configured name is one of the blacklisted names.
pub open spec fn folder_kept(f: VirtualFolder, names: Seq<Seq<char>>) -> bool {
    exists|i: int| 0 <= i < names.len() && names[i] == folder_name_view(f)
}

/// The folders whose names are blacklisted, in order.
pub open spec fn kept_folders(fs: Seq<VirtualFolder>, names: Seq<Seq<char>>) -> Seq<VirtualFolder>
    decreases fs.len(),
{
    if fs.len() == 0 {
        Seq::empty()
    } else if folder_kept(fs[0], names) {
        seq![fs[0]] + kept_folders(fs.drop_first(), names)
    } else {
        kept_folders(fs.drop_first(), names)
    }
}

impl Blacklist {
    /// Whether `path` lies under a physical root of a blacklisted
    /// library; nothing is suppressed while the cache is unresolved.
    pub open spec fn path_blacklisted(&self, path: Seq<char>) -> bool {
        match self.libraries {
            BlacklistedLibraries::Initialized(folders, _) => exists|i: int, j: int|
                0 <= i < folders@.len() && 0 <= j < folders@[i].locations@.len() && pat_at(
                    path,
                    0,
                    folders@[i].locations@[j]@,
                ),
            BlacklistedLibraries::Uninitialized => false,
        }
    }

    /// Check whether a path is in a blacklisted library.
    pub fn check_path(&self, item_path: &str) -> (r: bool)
        ensures
            r == self.path_blacklisted(item_path@),
    {
        let pv = chars_of(item_path);
        match &self.libraries {
            BlacklistedLibraries::Uninitialized => false,
            BlacklistedLibraries::Initialized(folders, _) => {
                let mut i: usize = 0;
                while i < folders.len()
                    invariant
                        i <= folders@.len(),
                        pv@ == item_path@,
                        (self.libraries matches BlacklistedLibraries::Initialized(fv, t1) && fv
                            == *folders),
                        forall|a: int, b: int|
                            0 <= a < i && 0 <= b < folders@[a].locations@.len() ==> !pat_at(
                                item_path@,
                                0,
                                folders@[a].locations@[b]@,
                            ),
                    decreases folders@.len() - i,
                {
                    let locs = &folders[i].locations;
                    let mut j: usize = 0;
                    while j < locs.len()
                        invariant
                            j <= locs@.len(),
                            pv@ == item_path@,
                            locs@ == folders@[i as int].locations@,
                            i < folders@.len(),
                            (self.libraries matches BlacklistedLibraries::Initialized(fv, t1) && fv
                                == *folders),
                            forall|b: int|
                                0 <= b < j ==> !pat_at(item_path@, 0, folders@[i as int].locations@[b]@),
                        decreases locs@.len() - j,
                    {
                        let lv = chars_of(locs[j].as_str());
                        if match_at(&pv, 0, &lv) {
                            proof {
                                assert(pat_at(
                                    item_path@,
                                    0,
                                    folders@[i as int].locations@[j as int]@,
                                ));
                            }
                            return true;
                        }
                        j = j + 1;
                    }
                    i = i + 1;
                }
                proof {
                    if self.path_blacklisted(item_path@) {
                        let (a, b): (int, int) = choose|a: int, b: int|
                            0 <= a < folders@.len() && 0 <= b < folders@[a].locations@.len()
                                && pat_at(item_path@, 0, folders@[a].locations@[b]@);
                        assert(false);
                    }
                }
                false
            },
        }
    }

    /// Check whether an item is in a blacklisted library, by its path.
    pub fn check_item(&self, playing_item: &NowPlayingItem) -> (r: bool)
        ensures
            r == self.path_blacklisted(item_path_view(*playing_item)),
    {
        match &playing_item.path {
            Some(p) => self.check_path(p.as_str()),
            None => {
                let r = self.check_path("");
                proof {
                    reveal_strlit("");
                    assert(""@ =~= Seq::<char>::empty());
                }
                r
            },
        }
    }
}

/// Whether `user` matches one of the configured usernames, ignoring
/// case.
pub open spec fn username_matches(user: Seq<char>, names: Seq<Seq<char>>) -> bool {
    exists|i: int| 0 <= i < names.len() && lower_of(user) == lower_of(names[i])
}

/// Whether a raw session is eligible: a matching username, a playing
/// item, a play state, and no theme-song marker.
pub open spec fn session_selectable(r: RawSession, names: Seq<Seq<char>>) -> bool {
    &&& r.user_name is Some
    &&& username_matches(r.user_name.unwrap()@, names)
    &&& r.now_playing_item is Some
    &&& r.play_state is Some
    &&& !(r.now_playing_item.unwrap().extra_type is Some
        && r.now_playing_item.unwrap().extra_type.unwrap()@ == "ThemeSong"@)
}

/// The position of the first eligible session, or `-1`.
pub open spec fn first_selectable(sessions: Seq<RawSession>, names: Seq<Seq<char>>) -> int
    decreases sessions.len(),
{
    if sessions.len() == 0 {
        -1
    } else if session_selectable(sessions[0], names) {
        0
    } else {
        let r = first_selectable(sessions.drop_first(), names);
        if r == -1 {
            -1
        } else {
            r + 1
        }
    }
}

/// `first_selectable` names the first eligible session, and `-1` exactly
/// when there is none.
pub proof fn lemma_first_selectable_props(sessions: Seq<RawSession>, names: Seq<Seq<char>>)
    ensures
        first_selectable(sessions, names) == -1 ==> (forall|i: int|
            0 <= i < sessions.len() ==> !session_selectable(sessions[i], names)),
        first_selectable(sessions, names) != -1 ==> 0 <= first_selectable(sessions, names)
            < sessions.len() && session_selectable(sessions[first_selectable(sessions, names)], names)
            && (forall|j: int|
            0 <= j < first_selectable(sessions, names) ==> !session_selectable(sessions[j], names)),
    decreases sessions.len(),
{
    if sessions.len() > 0 && !session_selectable(sessions[0], names) {
        lemma_first_selectable_props(sessions.drop_first(), names);
        let r = first_selectable(sessions.drop_first(), names);
        if r == -1 {
            assert forall|i: int|
                0 <= i < sessions.len() implies !session_selectable(sessions[i], names) by {
                if i > 0 {
                    assert(sessions.drop_first()[i - 1] == sessions[i]);
                }
            }
        } else {
            assert(sessions.drop_first()[r] == sessions[r + 1]);
            assert forall|j: int|
                0 <= j < r + 1 implies !session_selectable(sessions[j], names) by {
                if j > 0 {
                    assert(sessions.drop_first()[j - 1] == sessions[j]);
                }
            }
        }
    }
}

/// Whether a raw session is eligible for one of the given usernames.
fn is_session_selectable(s: &RawSession, usernames: &Vec<String>) -> (b: bool)
    ensures
        b == session_selectable(*s, usernames.deep_view()),
{
    let ghost names = usernames.deep_view();
    let user = match &s.user_name {
        Some(u) => u,
        None => {
            return false;
        },
    };
    let lu = lowercase(user.as_str());
    let mut matched = false;
    let mut i: usize = 0;
    while i < usernames.len() && !matched
        invariant
            i <= usernames@.len(),
            names == usernames.deep_view(),
            names.len() == usernames@.len(),
            lu@ == lower_of(user@),
            matched ==> username_matches(user@, names),
            !matched ==> (forall|j: int| 0 <= j < i ==> lower_of(user@) != lower_of(names[j])),
        decreases usernames@.len() - i,
    {
        let ln = lowercase(usernames[i].as_str());
        proof {
            assert(names[i as int] == usernames@[i as int]@);
        }
        if lu.eq(&ln) {
            matched = true;
        }
        i = i + 1;
    }
    if !matched {
        return false;
    }
    if s.now_playing_item.is_none() {
        return false;
    }
    if s.play_state.is_none() {
        return false;
    }
    match &s.now_playing_item {
        Some(item) => match &item.extra_type {
            Some(et) => !str_eq(et.as_str(), "ThemeSong"),
            None => true,
        },
        None => false,
    }
}

impl Client {
    /// Scans the sessions in server order and keeps the first eligible
    /// one, resolved; keeps none when no session is eligible.
    pub fn get_session(&mut self, sessions: Vec<RawSession>)
        ensures
            *final(self) == (Client { session: final(self).session, ..*old(self) }),
            ({
                let f = first_selectable(sessions@, old(self).usernames.deep_view());
                let sess = final(self).session;
                &&& (f == -1 ==> sess is None)
                &&& (f >= 0 ==> sess is Some && sess.unwrap().now_playing_item
                    == sessions@[f].now_playing_item.unwrap() && sess.unwrap().play_state
                    == sessions@[f].play_state.unwrap() && sess.unwrap().item_id@
                    == resolved_item_id(sessions@[f].now_playing_item.unwrap()))
            }),
    {
        let ghost orig = sessions@;
        let ghost names = self.usernames.deep_view();
        proof {
            lemma_first_selectable_props(orig, names);
        }
        let n = sessions.len();
        let mut rest = sessions;
        let mut k: usize = 0;
        proof {
            assert(orig.skip(0) =~= orig);
        }
        while rest.len() > 0
            invariant
                k <= n,
                n == orig.len(),
                orig == sessions@,
                rest@ == orig.skip(k as int),
                names == self.usernames.deep_view(),
                *self == *old(self),
                forall|j: int| 0 <= j < k ==> !session_selectable(orig[j], names),
            decreases rest@.len(),
        {
            let s = rest.remove(0);
            proof {
                assert(orig.skip(k as int)[0] == orig[k as int]);
                assert(orig.skip(k as int).remove(0) =~= orig.skip(k + 1));
            }
            if is_session_selectable(&s, &self.usernames) {
                proof {
                    lemma_first_selectable_props(orig, names);
                    let f = first_selectable(orig, names);
                    assert(f != -1);
                    assert(!(f < k) && !(k < f));
                }
                self.session = Some(s.build());
                return ;
            }
            k = k + 1;
        }
        proof {
            lemma_first_selectable_props(orig, names);
            if first_selectable(orig, names) != -1 {
                assert(false);
            }
        }
        self.session = None;
    }

    /// Whether the library cache must be refreshed before use: it is
    /// unresolved, or it was fetched over an hour ago.
    pub fn blacklist_stale(&self, now: i64) -> (r: bool)
        ensures
            r == blacklist_stale_spec(*self, now as int),
    {
        match &self.blacklist.libraries {
            BlacklistedLibraries::Uninitialized => true,
            BlacklistedLibraries::Initialized(_, t) => (now as i128) - (*t as i128) > 3600i128,
        }
    }

    /// Installs the outcome of a library fetch: kept folders with the
    /// fetch time on success, an unresolved cache on failure.
    pub fn reload_blacklist(&mut self, folders: Option<Vec<VirtualFolder>>, now: i64)
        ensures
            *final(self) == (Client { blacklist: final(self).blacklist, ..*old(self) }),
            final(self).blacklist.media_types == old(self).blacklist.media_types,
            final(self).blacklist.libraries_names == old(self).blacklist.libraries_names,
            (match folders {
                Option::Some(fs) => final(self).blacklist.libraries matches
                    BlacklistedLibraries::Initialized(kept, t) && t == now && kept@
                    == kept_folders(fs@, old(self).blacklist.libraries_names.deep_view()),
                Option::None => final(self).blacklist.libraries is Uninitialized,
            }),
    {
        match folders {
            None => {
                self.blacklist.libraries = BlacklistedLibraries::Uninitialized;
            },
            Some(fs) => {
                let ghost names = self.blacklist.libraries_names.deep_view();
                let ghost orig = fs@;
                let n = fs.len();
                let mut rest = fs;
                let mut out: Vec<VirtualFolder> = Vec::new();
                let mut k: usize = 0;
                proof {
                    assert(orig.skip(0) =~= orig);
                    assert(out@ + kept_folders(orig, names) =~= kept_folders(orig, names));
                }
                while rest.len() > 0
                    invariant
                        k <= n,
                        n == orig.len(),
                        (folders matches Option::Some(fsv) && orig == fsv@),
                        rest@ == orig.skip(k as int),
                        names == self.blacklist.libraries_names.deep_view(),
                        *self == *old(self),
                        kept_folders(orig, names) == out@ + kept_folders(orig.skip(k as int), names),
                    decreases rest@.len(),
                {
                    let f = rest.remove(0);
                    let ghost fs_rest = orig.skip(k as int);
                    proof {
                        assert(fs_rest[0] == orig[k as int]);
                        assert(fs_rest.drop_first() =~= orig.skip(k + 1));
                        assert(orig.skip(k as int).remove(0) =~= orig.skip(k + 1));
                    }
                    let ghost out0 = out@;
                    if folder_is_kept(&f, &self.blacklist.libraries_names) {
                        out.push(f);
                        proof {
                            assert(out@ =~= out0 + seq![fs_rest[0]]);
                            assert(kept_folders(fs_rest, names) == seq![fs_rest[0]] + kept_folders(
                                fs_rest.drop_first(),
                                names,
                            ));
                            assert(out@ + kept_folders(orig.skip(k + 1), names) =~= out0
                                + kept_folders(fs_rest, names));
                        }
                    } else {
                        proof {
                            assert(kept_folders(fs_rest, names) == kept_folders(
                                fs_rest.drop_first(),
                                names,
                            ));
                        }
                    }
                    k = k + 1;
                }
                proof {
                    assert(kept_folders(orig.skip(k as int), names) =~= Seq::<VirtualFolder>::empty());
                    assert(out@ + kept_folders(orig.skip(k as int), names) =~= out@);
                    assert(out@ == kept_folders(orig, names));
                }
                self.blacklist.libraries = BlacklistedLibraries::Initialized(out, now);
            },
        }
    }

    /// Whether the selected session's content must be suppressed: its
    /// media type is blacklisted, or its path lies in a blacklisted
    /// library.
    pub fn check_blacklist(&self) -> (r: bool)
        requires
            self.session is Some,
        ensures
            r == session_blacklisted(*self),
    {
        let session = match &self.session {
            Some(s) => s,
            None => {
                return false;
            },
        };
        let ghost m = self.session.unwrap().now_playing_item.media_type;
        let mut i: usize = 0;
        while i < self.blacklist.media_types.len()
            invariant
                i <= self.blacklist.media_types@.len(),
                self.session is Some,
                m == self.session.unwrap().now_playing_item.media_type,
                m == session.now_playing_item.media_type,
                forall|j: int| 0 <= j < i ==> self.blacklist.media_types@[j] != m,
            decreases self.blacklist.media_types@.len() - i,
        {
            if self.blacklist.media_types[i] == session.now_playing_item.media_type {
                proof {
                    assert(media_type_blacklisted(self.blacklist.media_types@, m));
                }
                return true;
            }
            i = i + 1;
        }
        proof {
            if media_type_blacklisted(self.blacklist.media_types@, m) {
                let w = choose|w: int|
                    0 <= w < self.blacklist.media_types@.len() && self.blacklist.media_types@[w]
                        == m;
                assert(false);
            }
        }
        self.blacklist.check_item(&session.now_playing_item)
    }
}

/// Whether the library cache must be refreshed at `now`.
pub open spec fn blacklist_stale_spec(c: Client, now: int) -> bool {
    match c.blacklist.libraries {
        BlacklistedLibraries::Uninitialized => true,
        BlacklistedLibraries::Initialized(_, t) => now - t > 3600,
    }
}

/// Whether some blacklisted media type equals `m`.
pub open spec fn media_type_blacklisted(types: Seq<MediaType>, m: MediaType) -> bool {
    exists|i: int| 0 <= i < types.len() && types[i] == m
}

/// Whether the selected session is suppressed, by media type or by
/// library path.
pub open spec fn session_blacklisted(c: Client) -> bool
    recommends
        c.session is Some,
{
    media_type_blacklisted(
        c.blacklist.media_types@,
        c.session.unwrap().now_playing_item.media_type,
    ) || c.blacklist.path_blacklisted(item_path_view(c.session.unwrap().now_playing_item))
}

/// Whether a folder's configured name is one of the given names.
fn folder_is_kept(f: &VirtualFolder, names: &Vec<String>) -> (b: bool)
    ensures
        b == folder_kept(*f, names.deep_view()),
{
    let ghost dv = names.deep_view();
    let name: &str = match &f.name {
        Some(n) => n.as_str(),
        None => "",
    };
    proof {
        reveal_strlit("");
        assert(""@ =~= Seq::<char>::empty());
        assert(name@ == folder_name_view(*f));
    }
    let mut i: usize = 0;
    while i < names.len()
        invariant
            i <= names@.len(),
            dv == names.deep_view(),
            dv.len() == names@.len(),
            name@ == folder_name_view(*f),
            forall|j: int| 0 <= j < i ==> dv[j] != folder_name_view(*f),
        decreases names@.len() - i,
    {
        proof {
            assert(dv[i as int] == names@[i as int]@);
        }
        if str_eq(names[i].as_str(), name) {
            return true;
        }
        i = i + 1;
    }
    false
}

/// The version text that the `{version}` placeholder renders as.
pub open spec fn version_text() -> Seq<char> {
    "0.1.0"@
}

/// The string an optional field renders as: its text, or nothing.
pub open spec fn opt_str_view(o: Option<String>) -> Seq<char> {
    match o {
        Option::Some(v) => v@,
        Option::None => Seq::empty(),
    }
}

/// The genre list of an item, joined with commas; a missing list renders
/// as nothing.
pub open spec fn genres_view(item: NowPlayingItem) -> Seq<char> {
    match item.genres {
        Option::Some(g) => join_comma_spec(g.deep_view()),
        Option::None => Seq::empty(),
    }
}

/// The production year of an item, in decimal; missing renders as
/// nothing.
pub open spec fn year_view(item: NowPlayingItem) -> Seq<char> {
    match item.production_year {
        Option::Some(y) => dec_int(y as int),
        Option::None => Seq::empty(),
    }
}

/// A rating in tenths of a point, rendered with one decimal place.
pub open spec fn tenths_text(t: int) -> Seq<char> {
    if t >= 0 {
        dec_digits(t / 10) + seq!['.', digit_char(t % 10)]
    } else {
        seq!['-'] + dec_digits((-t) / 10) + seq!['.', digit_char((-t) % 10)]
    }
}

/// The critic score of an item: a tomato, the score, out of one hundred;
/// missing renders as nothing.
pub open spec fn critic_view(item: NowPlayingItem) -> Seq<char> {
    match item.critic_rating {
        Option::Some(v) => seq!['\u{1f345}', ' '] + dec_int(v as int) + "/100"@,
        Option::None => Seq::empty(),
    }
}

/// The community score of an item: a star, the score with one decimal,
/// out of ten; missing renders as nothing.
pub open spec fn community_view(item: NowPlayingItem) -> Seq<char> {
    match item.community_rating {
        Option::Some(v) => seq!['\u{2b50}', ' '] + tenths_text(v as int) + "/10"@,
        Option::None => Seq::empty(),
    }
}

/// The episode number text: the first number, or a dash-joined range
/// where one file spans several episodes.
pub open spec fn episode_text(item: NowPlayingItem) -> Seq<char> {
    let first = match item.index_number {
        Option::Some(n) => n as int,
        Option::None => 0,
    };
    match item.index_number_end {
        Option::Some(last) => dec_int(first) + seq!['-'] + dec_int(last as int),
        Option::None => dec_int(first),
    }
}

/// The episode number text, zero-padded to two digits.
pub open spec fn episode_text_padded(item: NowPlayingItem) -> Seq<char> {
    let first = match item.index_number {
        Option::Some(n) => n as int,
        Option::None => 0,
    };
    match item.index_number_end {
        Option::Some(last) => dec_int_pad2(first) + seq!['-'] + dec_int_pad2(last as int),
        Option::None => dec_int_pad2(first),
    }
}

/// The season number of an episode; missing counts as zero.
pub open spec fn season_number(item: NowPlayingItem) -> int {
    match item.parent_index_number {
        Option::Some(n) => n as int,
        Option::None => 0,
    }
}

/// A music template rendered for the selected session: the placeholders
/// substituted in order, the text sanitized, and `{sep}` replaced with
/// the configured separator.
pub open spec fn music_render(c: Client, input: Seq<char>) -> Seq<char>
    recommends
        c.session is Some,
{
    let item = c.session.unwrap().now_playing_item;
    let t0 = crate::sanitize::trim_spec(input);
    let t1 = replace_spec(t0, "{track}"@, item.name@);
    let t2 = replace_spec(t1, "{album}"@, opt_str_view(item.album));
    let t3 = replace_spec(t2, "{artists}"@, join_artists_spec(artists_view(item.artists)));
    let t4 = replace_spec(t3, "{genres}"@, genres_view(item));
    let t5 = replace_spec(t4, "{year}"@, year_view(item));
    let t6 = replace_spec(t5, "{version}"@, version_text());
    replace_spec(sanitize_spec(t6), sep_seq(), c.music_display_options.separator@)
}

/// A movie template rendered for the selected session.
pub open spec fn movies_render(c: Client, input: Seq<char>) -> Seq<char>
    recommends
        c.session is Some,
{
    let item = c.session.unwrap().now_playing_item;
    let t0 = crate::sanitize::trim_spec(input);
    let t1 = replace_spec(t0, "{title}"@, item.name@);
    let t2 = replace_spec(t1, "{original-title}"@, opt_str_view(item.original_title));
    let t3 = replace_spec(t2, "{genres}"@, genres_view(item));
    let t4 = replace_spec(t3, "{year}"@, year_view(item));
    let t5 = replace_spec(t4, "{critic-score}"@, critic_view(item));
    let t6 = replace_spec(t5, "{community-score}"@, community_view(item));
    let t7 = replace_spec(t6, "{version}"@, version_text());
    replace_spec(sanitize_spec(t7), sep_seq(), c.movies_display_options.separator@)
}

/// An episode template rendered for the selected session.
pub open spec fn episodes_render(c: Client, input: Seq<char>) -> Seq<char>
    recommends
        c.session is Some,
{
    let item = c.session.unwrap().now_playing_item;
    let t0 = crate::sanitize::trim_spec(input);
    let t1 = replace_spec(t0, "{show-title}"@, opt_str_view(item.series_name));
    let t2 = replace_spec(t1, "{title}"@, item.name@);
    let t3 = replace_spec(t2, "{original-title}"@, opt_str_view(item.original_title));
    let t4 = replace_spec(t3, "{episode}"@, episode_text(item));
    let t5 = replace_spec(t4, "{episode-padded}"@, episode_text_padded(item));
    let t6 = replace_spec(t5, "{season}"@, dec_int(season_number(item)));
    let t7 = replace_spec(t6, "{season-padded}"@, dec_int_pad2(season_number(item)));
    let t8 = replace_spec(t7, "{year}"@, year_view(item));
    let t9 = replace_spec(t8, "{genres}"@, genres_view(item));
    let t10 = replace_spec(t9, "{studio}"@, opt_str_view(item.series_studio));
    let t11 = replace_spec(t10, "{version}"@, version_text());
    replace_spec(sanitize_spec(t11), sep_seq(), c.episodes_display_options.separator@)
}

/// The characters of an optional string.
fn opt_string_chars(o: &Option<String>) -> (r: Vec<char>)
    ensures
        r@ == opt_str_view(*o),
{
    match o {
        Some(v) => chars_of(v.as_str()),
        None => Vec::new(),
    }
}

/// The rendered genre list of an item.
fn genres_chars(item: &NowPlayingItem) -> (r: Vec<char>)
    ensures
        r@ == genres_view(*item),
{
    match &item.genres {
        Some(g) => {
            let joined = join_comma(g);
            chars_of(joined.as_str())
        },
        None => Vec::new(),
    }
}

/// The rendered production year of an item.
fn year_chars(item: &NowPlayingItem) -> (r: Vec<char>)
    ensures
        r@ == year_view(*item),
{
    match item.production_year {
        Some(y) => i64_to_chars(y),
        None => Vec::new(),
    }
}

/// A rating in tenths, rendered with one decimal place.
fn tenths_chars(t: i64) -> (r: Vec<char>)
    ensures
        r@ == tenths_text(t as int),
{
    let mut out: Vec<char> = Vec::new();
    if t >= 0 {
        push_u64_digits(&mut out, (t as u64) / 10);
        out.push('.');
        out.push(crate::text::digit_of((t as u64) % 10));
        proof {
            assert(out@ =~= dec_digits((t as int) / 10) + seq![
                '.',
                digit_char((t as int) % 10),
            ]);
        }
    } else {
        out.push('-');
        let m: u64 = ((-(t + 1)) as u64) + 1;
        proof {
            assert(m as int == -(t as int));
        }
        push_u64_digits(&mut out, m / 10);
        out.push('.');
        out.push(crate::text::digit_of(m % 10));
        proof {
            assert(out@ =~= seq!['-'] + dec_digits((m as int) / 10) + seq![
                '.',
                digit_char((m as int) % 10),
            ]);
        }
    }
    out
}

/// The rendered critic score of an item.
fn critic_chars(item: &NowPlayingItem) -> (r: Vec<char>)
    ensures
        r@ == critic_view(*item),
{
    match item.critic_rating {
        Some(v) => {
            let mut out: Vec<char> = Vec::new();
            out.push('\u{1f345}');
            out.push(' ');
            let d = i64_to_chars(v);
            extend_chars(&mut out, &d);
            let tail = chars_of("/100");
            extend_chars(&mut out, &tail);
            proof {
                assert(out@ =~= seq!['\u{1f345}', ' '] + dec_int(v as int) + "/100"@);
            }
            out
        },
        None => Vec::new(),
    }
}

/// The rendered community score of an item.
fn community_chars(item: &NowPlayingItem) -> (r: Vec<char>)
    ensures
        r@ == community_view(*item),
{
    match item.community_rating {
        Some(v) => {
            let mut out: Vec<char> = Vec::new();
            out.push('\u{2b50}');
            out.push(' ');
            let d = tenths_chars(v);
            extend_chars(&mut out, &d);
            let tail = chars_of("/10");
            extend_chars(&mut out, &tail);
            proof {
                assert(out@ =~= seq!['\u{2b50}', ' '] + tenths_text(v as int) + "/10"@);
            }
            out
        },
        None => Vec::new(),
    }
}

/// The rendered episode number, plain and padded.
fn episode_chars(item: &NowPlayingItem, padded: bool) -> (r: Vec<char>)
    ensures
        padded ==> r@ == episode_text_padded(*item),
        !padded ==> r@ == episode_text(*item),
{
    let first: i32 = match item.index_number {
        Some(n) => n,
        None => 0,
    };
    let mut out: Vec<char> = if padded {
        i32_to_chars_pad2(first)
    } else {
        i32_to_chars(first)
    };
    match item.index_number_end {
        Some(last) => {
            out.push('-');
            let d = if padded {
                i32_to_chars_pad2(last)
            } else {
                i32_to_chars(last)
            };
            extend_chars(&mut out, &d);
            proof {
                if padded {
                    assert(out@ =~= dec_int_pad2(first as int) + seq!['-'] + dec_int_pad2(
                        last as int,
                    ));
                } else {
                    assert(out@ =~= dec_int(first as int) + seq!['-'] + dec_int(last as int));
                }
            }
        },
        None => {},
    }
    out
}

/// The rendered artist list of an item.
fn artists_chars(item: &NowPlayingItem) -> (r: Vec<char>)
    ensures
        r@ == join_artists_spec(artists_view(item.artists)),
{
    match &item.artists {
        Some(names) => {
            let joined = join_artists(names);
            chars_of(joined.as_str())
        },
        None => {
            let default: Vec<String> = vec![String::new()];
            let joined = join_artists(&default);
            proof {
                assert(default.deep_view() =~= seq![Seq::<char>::empty()]);
            }
            chars_of(joined.as_str())
        },
    }
}

impl Client {
    /// Renders a music template, as [`music_render`] describes.
    pub fn parse_music_display(&self, input: &str) -> (r: String)
        requires
            self.session is Some,
        ensures
            r@ == music_render(*self, input@),
    {
        let session = self.session.as_ref().unwrap();
        let item = &session.now_playing_item;
        let v0 = chars_of(input);
        let v0 = trim_chars(&v0);
        let name_chars = chars_of(item.name.as_str());
        let v1 = replace_all(&v0, &chars_of("{track}"), &name_chars);
        let v2 = replace_all(&v1, &chars_of("{album}"), &opt_string_chars(&item.album));
        let v3 = replace_all(&v2, &chars_of("{artists}"), &artists_chars(item));
        let v4 = replace_all(&v3, &chars_of("{genres}"), &genres_chars(item));
        let v5 = replace_all(&v4, &chars_of("{year}"), &year_chars(item));
        let v6 = replace_all(&v5, &chars_of("{version}"), &chars_of("0.1.0"));
        let v7 = sanitize_vec(&v6);
        let sep_val = chars_of(self.music_display_options.separator.as_str());
        let v8 = replace_all(&v7, &sep_token(), &sep_val);
        string_of(&v8)
    }

    /// Renders a movie template, as [`movies_render`] describes.
    pub fn parse_movies_display(&self, input: &str) -> (r: String)
        requires
            self.session is Some,
        ensures
            r@ == movies_render(*self, input@),
    {
        let session = self.session.as_ref().unwrap();
        let item = &session.now_playing_item;
        let v0 = chars_of(input);
        let v0 = trim_chars(&v0);
        let name_chars = chars_of(item.name.as_str());
        let v1 = replace_all(&v0, &chars_of("{title}"), &name_chars);
        let v2 = replace_all(
            &v1,
            &chars_of("{original-title}"),
            &opt_string_chars(&item.original_title),
        );
        let v3 = replace_all(&v2, &chars_of("{genres}"), &genres_chars(item));
        let v4 = replace_all(&v3, &chars_of("{year}"), &year_chars(item));
        let v5 = replace_all(&v4, &chars_of("{critic-score}"), &critic_chars(item));
        let v6 = replace_all(&v5, &chars_of("{community-score}"), &community_chars(item));
        let v7 = replace_all(&v6, &chars_of("{version}"), &chars_of("0.1.0"));
        let v8 = sanitize_vec(&v7);
        let sep_val = chars_of(self.movies_display_options.separator.as_str());
        let v9 = replace_all(&v8, &sep_token(), &sep_val);
        string_of(&v9)
    }

    /// Renders an episode template, as [`episodes_render`] describes.
    pub fn parse_episodes_display(&self, input: &str) -> (r: String)
        requires
            self.session is Some,
        ensures
            r@ == episodes_render(*self, input@),
    {
        let session = self.session.as_ref().unwrap();
        let item = &session.now_playing_item;
        let v0 = chars_of(input);
        let v0 = trim_chars(&v0);
        let v1 = replace_all(
            &v0,
            &chars_of("{show-title}"),
            &opt_string_chars(&item.series_name),
        );
        let name_chars = chars_of(item.name.as_str());
        let v2 = replace_all(&v1, &chars_of("{title}"), &name_chars);
        let v3 = replace_all(
            &v2,
            &chars_of("{original-title}"),
            &opt_string_chars(&item.original_title),
        );
        let v4 = replace_all(&v3, &chars_of("{episode}"), &episode_chars(item, false));
        let v5 = replace_all(&v4, &chars_of("{episode-padded}"), &episode_chars(item, true));
        let season: i32 = match item.parent_index_number {
            Some(n) => n,
            None => 0,
        };
        let v6 = replace_all(&v5, &chars_of("{season}"), &i32_to_chars(season));
        let v7 = replace_all(&v6, &chars_of("{season-padded}"), &i32_to_chars_pad2(season));
        let v8 = replace_all(&v7, &chars_of("{year}"), &year_chars(item));
        let v9 = replace_all(&v8, &chars_of("{genres}"), &genres_chars(item));
        let v10 = replace_all(&v9, &chars_of("{studio}"), &opt_string_chars(&item.series_studio));
        let v11 = replace_all(&v10, &chars_of("{version}"), &chars_of("0.1.0"));
        let v12 = sanitize_vec(&v11);
        let sep_val = chars_of(self.episodes_display_options.separator.as_str());
        let v13 = replace_all(&v12, &sep_token(), &sep_val);
        string_of(&v13)
    }

    /// Sanitizes a template: whitespace runs collapsed, separator runs
    /// collapsed, separators stripped from the ends.
    pub fn sanitize_display_format(input: &str) -> (r: String)
        ensures
            r@ == sanitize_spec(input@),
    {
        let v = chars_of(input);
        let out = sanitize_vec(&v);
        string_of(&out)
    }
}

/// What the first line of the activity shows, by media type: the details
/// template for music, movies and episodes (its default filled in), the
/// album or name for audiobooks, the item's name otherwise.
pub open spec fn details_spec(c: Client) -> Seq<char>
    recommends
        c.session is Some,
{
    let item = c.session.unwrap().now_playing_item;
    match item.media_type {
        MediaType::Music => music_render(
            c,
            replace_spec(
                c.music_display_options.display.details_text.unwrap()@,
                "{__default}"@,
                "{track}"@,
            ),
        ),
        MediaType::Movie => movies_render(
            c,
            replace_spec(
                c.movies_display_options.display.details_text.unwrap()@,
                "{__default}"@,
                "{title}"@,
            ),
        ),
        MediaType::Episode => episodes_render(
            c,
            replace_spec(
                c.episodes_display_options.display.details_text.unwrap()@,
                "{__default}"@,
                "{show-title}"@,
            ),
        ),
        MediaType::AudioBook => match item.album {
            Option::Some(a) => a@,
            Option::None => item.name@,
        },
        _ => item.name@,
    }
}

/// What the second line of the activity shows, by media type.
pub open spec fn state_spec(c: Client) -> Seq<char>
    recommends
        c.session is Some,
{
    let item = c.session.unwrap().now_playing_item;
    match item.media_type {
        MediaType::Episode => episodes_render(
            c,
            replace_spec(
                c.episodes_display_options.display.state_text.unwrap()@,
                "{__default}"@,
                Seq::empty(),
            ),
        ),
        MediaType::LiveTv => "Live TV"@,
        MediaType::Music => music_render(
            c,
            replace_spec(
                c.music_display_options.display.state_text.unwrap()@,
                "{__default}"@,
                "By {artists} {sep} "@,
            ),
        ),
        MediaType::Book => match c.session.unwrap().play_state.position_ticks {
            Option::Some(t) => "Reading page "@ + dec_int(tdiv(t as int, 10000)),
            Option::None => Seq::empty(),
        },
        MediaType::AudioBook => audio_book_state(item),
        MediaType::Movie => movies_render(
            c,
            replace_spec(
                c.movies_display_options.display.state_text.unwrap()@,
                "{__default}"@,
                Seq::empty(),
            ),
        ),
        MediaType::Unknown => genres_view(item),
    }
}

/// The audiobook state line: the artists behind `By`, a dash, and the
/// genres, each part present only when it has text.
pub open spec fn audio_book_state(item: NowPlayingItem) -> Seq<char> {
    let artists = join_artists_spec(artists_view(item.artists));
    let genres = genres_view(item);
    if artists.len() > 0 && genres.len() > 0 {
        "By "@ + artists + " - "@ + genres
    } else if artists.len() > 0 {
        "By "@ + artists
    } else {
        genres
    }
}

/// What the image hover text shows, by media type: the image template for
/// music, movies and episodes, nothing otherwise.
pub open spec fn image_text_spec(c: Client) -> Seq<char>
    recommends
        c.session is Some,
{
    let item = c.session.unwrap().now_playing_item;
    match item.media_type {
        MediaType::Music => music_render(c, c.music_display_options.display.image_text.unwrap()@),
        MediaType::Movie => movies_render(
            c,
            c.movies_display_options.display.image_text.unwrap()@,
        ),
        MediaType::Episode => episodes_render(
            c,
            c.episodes_display_options.display.image_text.unwrap()@,
        ),
        _ => Seq::empty(),
    }
}

impl Client {
    /// The first line of the activity, as [`details_spec`] describes.
    pub fn get_details(&self) -> (r: String)
        requires
            self.session is Some,
            self.session.unwrap().now_playing_item.media_type == MediaType::Music
                ==> self.music_display_options.display.details_text is Some,
            self.session.unwrap().now_playing_item.media_type == MediaType::Movie
                ==> self.movies_display_options.display.details_text is Some,
            self.session.unwrap().now_playing_item.media_type == MediaType::Episode
                ==> self.episodes_display_options.display.details_text is Some,
        ensures
            r@ == details_spec(*self),
    {
        let session = self.session.as_ref().unwrap();
        match session.now_playing_item.media_type {
            MediaType::Music => {
                let t = self.music_display_options.display.details_text.as_ref().unwrap();
                let tv = chars_of(t.as_str());
                let filled = replace_all(&tv, &chars_of("{__default}"), &chars_of("{track}"));
                let filled_str = string_of(&filled);
                self.parse_music_display(filled_str.as_str())
            },
            MediaType::Movie => {
                let t = self.movies_display_options.display.details_text.as_ref().unwrap();
                let tv = chars_of(t.as_str());
                let filled = replace_all(&tv, &chars_of("{__default}"), &chars_of("{title}"));
                let filled_str = string_of(&filled);
                self.parse_movies_display(filled_str.as_str())
            },
            MediaType::Episode => {
                let t = self.episodes_display_options.display.details_text.as_ref().unwrap();
                let tv = chars_of(t.as_str());
                let filled = replace_all(&tv, &chars_of("{__default}"), &chars_of("{show-title}"));
                let filled_str = string_of(&filled);
                self.parse_episodes_display(filled_str.as_str())
            },
            MediaType::AudioBook => {
                match &session.now_playing_item.album {
                    Some(a) => a.clone(),
                    None => session.now_playing_item.name.clone(),
                }
            },
            _ => session.now_playing_item.name.clone(),
        }
    }

    /// The second line of the activity, as [`state_spec`] describes.
    pub fn get_state(&self) -> (r: String)
        requires
            self.session is Some,
            self.session.unwrap().now_playing_item.media_type == MediaType::Music
                ==> self.music_display_options.display.state_text is Some,
            self.session.unwrap().now_playing_item.media_type == MediaType::Movie
                ==> self.movies_display_options.display.state_text is Some,
            self.session.unwrap().now_playing_item.media_type == MediaType::Episode
                ==> self.episodes_display_options.display.state_text is Some,
        ensures
            r@ == state_spec(*self),
    {
        let session = self.session.as_ref().unwrap();
        match session.now_playing_item.media_type {
            MediaType::Episode => {
                let t = self.episodes_display_options.display.state_text.as_ref().unwrap();
                let tv = chars_of(t.as_str());
                let empty: Vec<char> = Vec::new();
                let filled = replace_all(&tv, &chars_of("{__default}"), &empty);
                let filled_str = string_of(&filled);
                self.parse_episodes_display(filled_str.as_str())
            },
            MediaType::LiveTv => String::from_str("Live TV"),
            MediaType::Music => {
                let t = self.music_display_options.display.state_text.as_ref().unwrap();
                let tv = chars_of(t.as_str());
                let filled = replace_all(
                    &tv,
                    &chars_of("{__default}"),
                    &chars_of("By {artists} {sep} "),
                );
                let filled_str = string_of(&filled);
                self.parse_music_display(filled_str.as_str())
            },
            MediaType::Book => {
                match session.play_state.position_ticks {
                    Some(t) => {
                        let page = ticks_div(t, 10000);
                        let mut out = chars_of("Reading page ");
                        let d = i64_to_chars(page);
                        extend_chars(&mut out, &d);
                        string_of(&out)
                    },
                    None => String::new(),
                }
            },
            MediaType::AudioBook => {
                let artists = artists_chars(&session.now_playing_item);
                let genres = genres_chars(&session.now_playing_item);
                if artists.len() > 0 && genres.len() > 0 {
                    let mut out = chars_of("By ");
                    extend_chars(&mut out, &artists);
                    let dash = chars_of(" - ");
                    extend_chars(&mut out, &dash);
                    extend_chars(&mut out, &genres);
                    string_of(&out)
                } else if artists.len() > 0 {
                    let mut out = chars_of("By ");
                    extend_chars(&mut out, &artists);
                    string_of(&out)
                } else {
                    string_of(&genres)
                }
            },
            MediaType::Movie => {
                let t = self.movies_display_options.display.state_text.as_ref().unwrap();
                let tv = chars_of(t.as_str());
                let empty: Vec<char> = Vec::new();
                let filled = replace_all(&tv, &chars_of("{__default}"), &empty);
                let filled_str = string_of(&filled);
                self.parse_movies_display(filled_str.as_str())
            },
            MediaType::Unknown => {
                let genres = genres_chars(&session.now_playing_item);
                string_of(&genres)
            },
        }
    }

    /// The image hover text, as [`image_text_spec`] describes.
    pub fn get_image_text(&self) -> (r: String)
        requires
            self.session is Some,
            self.session.unwrap().now_playing_item.media_type == MediaType::Music
                ==> self.music_display_options.display.image_text is Some,
            self.session.unwrap().now_playing_item.media_type == MediaType::Movie
                ==> self.movies_display_options.display.image_text is Some,
            self.session.unwrap().now_playing_item.media_type == MediaType::Episode
                ==> self.episodes_display_options.display.image_text is Some,
        ensures
            r@ == image_text_spec(*self),
    {
        let session = self.session.as_ref().unwrap();
        match session.now_playing_item.media_type {
            MediaType::Music => {
                let t = self.music_display_options.display.image_text.as_ref().unwrap();
                self.parse_music_display(t.as_str())
            },
            MediaType::Movie => {
                let t = self.movies_display_options.display.image_text.as_ref().unwrap();
                self.parse_movies_display(t.as_str())
            },
            MediaType::Episode => {
                let t = self.episodes_display_options.display.image_text.as_ref().unwrap();
                self.parse_episodes_display(t.as_str())
            },
            _ => String::new(),
        }
    }
}

/// Whether a button is the dynamic-button sentinel.
pub open spec fn is_dynamic_spec(b: Button) -> bool {
    b.name@ == "dynamic"@ && b.url@ == "dynamic"@
}

/// Whether an external link points at the local machine and is skipped.
pub open spec fn is_local_url(u: ExternalUrl) -> bool {
    pat_at(u.url@, 0, "http://localhost"@) || pat_at(u.url@, 0, "https://localhost"@)
}

/// The external links that do not point at the local machine, in order.
pub open spec fn non_local_urls(urls: Seq<ExternalUrl>) -> Seq<ExternalUrl>
    decreases urls.len(),
{
    if urls.len() == 0 {
        Seq::empty()
    } else if is_local_url(urls[0]) {
        non_local_urls(urls.drop_first())
    } else {
        seq![urls[0]] + non_local_urls(urls.drop_first())
    }
}

/// The button an external link becomes.
pub open spec fn url_button(u: ExternalUrl) -> Button {
    Button { name: u.name, url: u.url }
}

/// The buttons chosen from the configured list: fixed buttons stand as
/// they are, each dynamic slot takes the next unused external link, and
/// at most `k` buttons are taken.
pub open spec fn pick_buttons(bs: Seq<Button>, urls: Seq<ExternalUrl>, u: int, k: int) -> Seq<
    Button,
>
    decreases bs.len(),
{
    if k <= 0 || bs.len() == 0 {
        Seq::empty()
    } else if is_dynamic_spec(bs[0]) {
        if 0 <= u < urls.len() {
            seq![url_button(urls[u])] + pick_buttons(bs.drop_first(), urls, u + 1, k - 1)
        } else {
            pick_buttons(bs.drop_first(), urls, u, k)
        }
    } else {
        seq![bs[0]] + pick_buttons(bs.drop_first(), urls, u, k - 1)
    }
}

/// The first `k` external links, as buttons.
pub open spec fn take_url_buttons(urls: Seq<ExternalUrl>, k: int) -> Seq<Button>
    decreases urls.len(),
{
    if k <= 0 || urls.len() == 0 {
        Seq::empty()
    } else {
        seq![url_button(urls[0])] + take_url_buttons(urls.drop_first(), k - 1)
    }
}

/// What `get_buttons` returns: with configured buttons, the picked list
/// (dynamic slots filled from non-local links where any exist); with
/// links alone, the first two as buttons; with neither, nothing.
pub open spec fn buttons_spec(c: Client) -> Option<Seq<Button>>
    recommends
        c.session is Some,
{
    let ext = c.session.unwrap().now_playing_item.external_urls;
    match (ext, c.buttons) {
        (Option::Some(urls), Option::Some(bs)) => Option::Some(
            pick_buttons(bs@, non_local_urls(urls@), 0, 2),
        ),
        (Option::None, Option::Some(bs)) => Option::Some(
            pick_buttons(bs@, Seq::empty(), 0, 2),
        ),
        (Option::Some(urls), Option::None) => Option::Some(
            take_url_buttons(non_local_urls(urls@), 2),
        ),
        (Option::None, Option::None) => Option::None,
    }
}

/// Whether an external link points at the local machine.
fn is_local_url_exec(u: &ExternalUrl) -> (r: bool)
    ensures
        r == is_local_url(*u),
{
    let uv = chars_of(u.url.as_str());
    let h1 = chars_of("http://localhost");
    let h2 = chars_of("https://localhost");
    let a = match_at(&uv, 0, &h1);
    let b = match_at(&uv, 0, &h2);
    a || b
}

/// The non-local external links, cloned in order.
fn non_local_urls_exec(urls: &Vec<ExternalUrl>) -> (r: Vec<ExternalUrl>)
    ensures
        r@ == non_local_urls(urls@),
{
    let mut out: Vec<ExternalUrl> = Vec::new();
    let mut i: usize = 0;
    proof {
        assert(urls@.skip(0) =~= urls@);
        assert(out@ + non_local_urls(urls@) =~= non_local_urls(urls@));
    }
    while i < urls.len()
        invariant
            i <= urls@.len(),
            non_local_urls(urls@) == out@ + non_local_urls(urls@.skip(i as int)),
        decreases urls@.len() - i,
    {
        let ghost rest = urls@.skip(i as int);
        let ghost out0 = out@;
        proof {
            assert(rest[0] == urls@[i as int]);
            assert(rest.drop_first() =~= urls@.skip(i + 1));
        }
        let u = &urls[i];
        if !is_local_url_exec(u) {
            out.push(ExternalUrl { name: u.name.clone(), url: u.url.clone() });
            proof {
                assert(out@ =~= out0 + seq![rest[0]]);
                assert(non_local_urls(rest) == seq![rest[0]] + non_local_urls(rest.drop_first()));
                assert(out@ + non_local_urls(urls@.skip(i + 1)) =~= out0 + non_local_urls(rest));
            }
        } else {
            proof {
                assert(non_local_urls(rest) == non_local_urls(rest.drop_first()));
            }
        }
        i = i + 1;
    }
    proof {
        assert(urls@.skip(urls@.len() as int) =~= Seq::<ExternalUrl>::empty());
        assert(out@ + non_local_urls(Seq::<ExternalUrl>::empty()) =~= out@);
    }
    out
}

impl Client {
    /// The buttons for the activity, as [`buttons_spec`] describes; none
    /// while no session is selected.
    pub fn get_buttons(&self) -> (r: Option<Vec<Button>>)
        ensures
            self.session is None ==> r is None,
            self.session is Some ==> match (r, buttons_spec(*self)) {
                (Option::Some(v), Option::Some(sp)) => v@ == sp,
                (Option::None, Option::None) => true,
                _ => false,
            },
    {
        let session = match &self.session {
            Some(s) => s,
            None => {
                return None;
            },
        };
        let urls: Vec<ExternalUrl> = match &session.now_playing_item.external_urls {
            Some(raw) => non_local_urls_exec(raw),
            None => Vec::new(),
        };
        match &self.buttons {
            Some(bs) => {
                let picked = pick_buttons_exec(bs, &urls);
                proof {
                    if session.now_playing_item.external_urls is None {
                        assert(non_local_urls(Seq::<ExternalUrl>::empty())
                            =~= Seq::<ExternalUrl>::empty());
                        assert(urls@ =~= Seq::<ExternalUrl>::empty());
                    }
                }
                Some(picked)
            },
            None => {
                match &session.now_playing_item.external_urls {
                    Some(_) => {
                        let taken = take_url_buttons_exec(&urls);
                        Some(taken)
                    },
                    None => None,
                }
            },
        }
    }
}

/// Picks up to two buttons from the configured list, filling dynamic
/// slots from the links.
fn pick_buttons_exec(bs: &Vec<Button>, urls: &Vec<ExternalUrl>) -> (r: Vec<Button>)
    ensures
        r@ == pick_buttons(bs@, urls@, 0, 2),
{
    let mut out: Vec<Button> = Vec::new();
    let mut i: usize = 0;
    let mut u: usize = 0;
    proof {
        assert(bs@.skip(0) =~= bs@);
        assert(out@ + pick_buttons(bs@, urls@, 0, 2) =~= pick_buttons(bs@, urls@, 0, 2));
    }
    while i < bs.len() && out.len() < 2
        invariant
            i <= bs@.len(),
            u <= urls@.len(),
            out@.len() <= 2,
            pick_buttons(bs@, urls@, 0, 2) == out@ + pick_buttons(
                bs@.skip(i as int),
                urls@,
                u as int,
                2 - out@.len(),
            ),
        decreases bs@.len() - i,
    {
        let ghost rest = bs@.skip(i as int);
        let ghost out0 = out@;
        proof {
            assert(rest[0] == bs@[i as int]);
            assert(rest.drop_first() =~= bs@.skip(i + 1));
        }
        let b = &bs[i];
        if b.is_dynamic() {
            if u < urls.len() {
                let eu = &urls[u];
                out.push(Button { name: eu.name.clone(), url: eu.url.clone() });
                proof {
                    assert(out@ =~= out0 + seq![url_button(urls@[u as int])]);
                    assert(pick_buttons(rest, urls@, u as int, 2 - out0.len()) == seq![
                        url_button(urls@[u as int]),
                    ] + pick_buttons(rest.drop_first(), urls@, u + 1, 2 - out0.len() - 1));
                    assert(out@ + pick_buttons(bs@.skip(i + 1), urls@, u + 1, 2 - out@.len())
                        =~= out0 + pick_buttons(rest, urls@, u as int, 2 - out0.len()));
                }
                u = u + 1;
            } else {
                proof {
                    assert(pick_buttons(rest, urls@, u as int, 2 - out0.len()) == pick_buttons(
                        rest.drop_first(),
                        urls@,
                        u as int,
                        2 - out0.len(),
                    ));
                }
            }
        } else {
            out.push(Button { name: b.name.clone(), url: b.url.clone() });
            proof {
                assert(out@ =~= out0 + seq![rest[0]]);
                assert(pick_buttons(rest, urls@, u as int, 2 - out0.len()) == seq![rest[0]]
                    + pick_buttons(rest.drop_first(), urls@, u as int, 2 - out0.len() - 1));
                assert(out@ + pick_buttons(bs@.skip(i + 1), urls@, u as int, 2 - out@.len())
                    =~= out0 + pick_buttons(rest, urls@, u as int, 2 - out0.len()));
            }
        }
        i = i + 1;
    }
    proof {
        if i == bs@.len() {
            assert(bs@.skip(i as int) =~= Seq::<Button>::empty());
        }
        assert(pick_buttons(bs@.skip(i as int), urls@, u as int, 2 - out@.len())
            =~= Seq::<Button>::empty());
        assert(out@ + Seq::<Button>::empty() =~= out@);
    }
    out
}

/// The first two links, as buttons.
fn take_url_buttons_exec(urls: &Vec<ExternalUrl>) -> (r: Vec<Button>)
    ensures
        r@ == take_url_buttons(urls@, 2),
{
    let mut out: Vec<Button> = Vec::new();
    let mut i: usize = 0;
    proof {
        assert(urls@.skip(0) =~= urls@);
        assert(out@ + take_url_buttons(urls@, 2) =~= take_url_buttons(urls@, 2));
    }
    while i < urls.len() && out.len() < 2
        invariant
            i <= urls@.len(),
            out@.len() <= 2,
            take_url_buttons(urls@, 2) == out@ + take_url_buttons(
                urls@.skip(i as int),
                2 - out@.len(),
            ),
        decreases urls@.len() - i,
    {
        let ghost rest = urls@.skip(i as int);
        let ghost out0 = out@;
        proof {
            assert(rest[0] == urls@[i as int]);
            assert(rest.drop_first() =~= urls@.skip(i + 1));
        }
        let eu = &urls[i];
        out.push(Button { name: eu.name.clone(), url: eu.url.clone() });
        proof {
            assert(out@ =~= out0 + seq![url_button(rest[0])]);
            assert(take_url_buttons(rest, 2 - out0.len()) == seq![url_button(rest[0])]
                + take_url_buttons(rest.drop_first(), 2 - out0.len() - 1));
            assert(out@ + take_url_buttons(urls@.skip(i + 1), 2 - out@.len()) =~= out0
                + take_url_buttons(rest, 2 - out0.len()));
        }
        i = i + 1;
    }
    proof {
        if i == urls@.len() {
            assert(urls@.skip(i as int) =~= Seq::<ExternalUrl>::empty());
        }
        assert(take_url_buttons(urls@.skip(i as int), 2 - out@.len()) =~= Seq::<Button>::empty());
        assert(out@ + Seq::<Button>::empty() =~= out@);
    }
    out
}

/// The kind of activity shown for a media type: listening for audio,
/// plain playing for books, watching otherwise.
pub open spec fn activity_kind_spec(m: MediaType) -> ActivityKind {
    match m {
        MediaType::Book => ActivityKind::Playing,
        MediaType::Music => ActivityKind::Listening,
        MediaType::AudioBook => ActivityKind::Listening,
        _ => ActivityKind::Watching,
    }
}

/// The kind of an activity.
#[derive(Debug, PartialEq, Eq, Structural, Clone, Copy)]
pub enum ActivityKind {
    /// Shown as watching.
    Watching,
    /// Shown as listening.
    Listening,
    /// The plain default.
    Playing,
}

/// The assembled activity: everything the presence transport needs, as
/// plain values.
#[derive(Debug)]
pub struct Activity {
    /// First line, already clamped.
    pub details: String,
    /// Second line, already clamped.
    pub state: String,
    /// The large image URL.
    pub large_image: String,
    /// The large image hover text, already clamped.
    pub large_text: String,
    /// Whether the small paused badge is shown.
    pub show_paused_badge: bool,
    /// Start and end instants, when playback is running.
    pub timestamps: Option<(i64, i64)>,
    /// The buttons, where any were chosen.
    pub buttons: Option<Vec<Button>>,
    /// The kind of activity.
    pub kind: ActivityKind,
}

/// Where the activity image comes from, in priority order.
#[derive(Debug, PartialEq, Eq, Structural, Clone, Copy)]
pub enum ImageSource {
    /// Live TV uses a fixed default image, bypassing cache and backends.
    LiveTvDefault,
    /// The imgur backend, through the URL cache.
    Imgur,
    /// The litterbox backend, through the URL cache.
    Litterbox,
    /// The server's own primary-image endpoint.
    ServerProbe,
    /// The built-in default image.
    BuiltinDefault,
}

/// Which image source the configuration selects for the session.
pub open spec fn image_source_spec(c: Client) -> ImageSource
    recommends
        c.session is Some,
{
    if c.session.unwrap().now_playing_item.media_type == MediaType::LiveTv {
        ImageSource::LiveTvDefault
    } else if c.imgur_options.enabled && c.show_images {
        ImageSource::Imgur
    } else if c.litterbox_options.enabled && c.show_images {
        ImageSource::Litterbox
    } else if c.show_images {
        ImageSource::ServerProbe
    } else {
        ImageSource::BuiltinDefault
    }
}

/// The image URL the activity shows: the fixed live-TV image for live
/// TV, else what the image pipeline fetched, else the built-in default.
pub open spec fn image_url_spec(c: Client, fetched: Option<String>) -> Seq<char>
    recommends
        c.session is Some,
{
    if c.session.unwrap().now_playing_item.media_type == MediaType::LiveTv {
        "https://i.imgur.com/XxdHOqm.png"@
    } else {
        match fetched {
            Option::Some(u) => u@,
            Option::None => "https://i.imgur.com/oX6vcds.png"@,
        }
    }
}

/// The image hover text with its default: the rendered template, or the
/// standard text when the template renders to nothing.
pub open spec fn final_image_text(c: Client) -> Seq<char>
    recommends
        c.session is Some,
{
    if image_text_spec(c).len() == 0 {
        "Jellyfin-RPC v0.1.0"@
    } else {
        image_text_spec(c)
    }
}

/// What the loop does with a freshly rendered line: clear the presence
/// when the line went empty, log it when it changed, stay quiet
/// otherwise.
#[derive(Debug, PartialEq, Eq, Structural, Clone, Copy)]
pub enum TickAction {
    /// Clear the presence and forget the previous line.
    Clear,
    /// Log the new line and remember it.
    Log,
    /// Do nothing observable.
    Quiet,
}

/// The loop's decision for a rendered line, given the previous one.
pub open spec fn tick_action_spec(new_line: Seq<char>, prev_line: Seq<char>) -> TickAction {
    if new_line.len() == 0 && prev_line.len() > 0 {
        TickAction::Clear
    } else if new_line != prev_line {
        TickAction::Log
    } else {
        TickAction::Quiet
    }
}

/// The loop's decision for a rendered line, given the previous one: the
/// loop only prints when the rendered text changed.
pub fn tick_action(new_line: &str, prev_line: &str) -> (r: TickAction)
    ensures
        r == tick_action_spec(new_line@, prev_line@),
{
    let new_empty = new_line.unicode_len() == 0;
    let prev_empty = prev_line.unicode_len() == 0;
    if new_empty && !prev_empty {
        TickAction::Clear
    } else if !str_eq(new_line, prev_line) {
        TickAction::Log
    } else {
        TickAction::Quiet
    }
}

/// The composed log line: details, a separator bar, state.
pub fn activity_log_line(details: &str, state: &str) -> (r: String)
    ensures
        r@ == details@ + " | "@ + state@,
{
    let mut out = chars_of(details);
    let bar = chars_of(" | ");
    extend_chars(&mut out, &bar);
    let sv = chars_of(state);
    extend_chars(&mut out, &sv);
    let r = string_of(&out);
    proof {
        assert(out@ =~= details@ + " | "@ + state@);
    }
    r
}

impl Client {
    /// Which image source the configuration selects for the session.
    pub fn image_source(&self) -> (r: ImageSource)
        requires
            self.session is Some,
        ensures
            r == image_source_spec(*self),
    {
        let session = self.session.as_ref().unwrap();
        if session.now_playing_item.media_type == MediaType::LiveTv {
            ImageSource::LiveTvDefault
        } else if self.imgur_options.enabled && self.show_images {
            ImageSource::Imgur
        } else if self.litterbox_options.enabled && self.show_images {
            ImageSource::Litterbox
        } else if self.show_images {
            ImageSource::ServerProbe
        } else {
            ImageSource::BuiltinDefault
        }
    }

    /// The image URL the activity shows, as [`image_url_spec`]
    /// describes.
    pub fn resolve_image_url(&self, fetched: Option<String>) -> (r: String)
        requires
            self.session is Some,
        ensures
            r@ == image_url_spec(*self, fetched),
    {
        let session = self.session.as_ref().unwrap();
        if session.now_playing_item.media_type == MediaType::LiveTv {
            String::from_str("https://i.imgur.com/XxdHOqm.png")
        } else {
            match fetched {
                Some(u) => u,
                None => String::from_str("https://i.imgur.com/oX6vcds.png"),
            }
        }
    }

    /// Assembles the activity for the selected session: nothing to show
    /// without a session or for hidden paused playback; an error for an
    /// unrecognized media type or blacklisted content; otherwise the
    /// clamped texts, timestamps, badge, buttons and kind.
    pub fn build_activity(&self, now_secs: i64, image_url: String) -> (r: Result<
        Option<Activity>,
        JfError,
    >)
        requires
            0 <= now_secs <= 4_000_000_000_000,
            self.session is Some ==> ({
                let m = self.session.unwrap().now_playing_item.media_type;
                &&& (m == MediaType::Music ==> self.music_display_options.display.details_text
                    is Some && self.music_display_options.display.state_text is Some
                    && self.music_display_options.display.image_text is Some)
                &&& (m == MediaType::Movie ==> self.movies_display_options.display.details_text
                    is Some && self.movies_display_options.display.state_text is Some
                    && self.movies_display_options.display.image_text is Some)
                &&& (m == MediaType::Episode
                    ==> self.episodes_display_options.display.details_text is Some
                    && self.episodes_display_options.display.state_text is Some
                    && self.episodes_display_options.display.image_text is Some)
            }),
        ensures
            self.session is None ==> r == Result::<Option<Activity>, JfError>::Ok(
                Option::<Activity>::None,
            ),
            self.session is Some ==> ({
                let c = *self;
                let m = c.session.unwrap().now_playing_item.media_type;
                let t = play_time_spec(c.session.unwrap(), now_secs as int);
                if m == MediaType::Unknown {
                    r == Result::<Option<Activity>, JfError>::Err(JfError::UnrecognizedMediaType)
                } else if session_blacklisted(c) {
                    r == Result::<Option<Activity>, JfError>::Err(JfError::ContentBlacklist)
                } else if t == PlayTime::Paused && !c.show_paused {
                    r == Result::<Option<Activity>, JfError>::Ok(Option::<Activity>::None)
                } else {
                    &&& r is Ok
                    &&& r.unwrap() is Some
                    &&& ({
                        let a = r.unwrap().unwrap();
                        &&& a.details@ == clamp_spec(details_spec(c))
                        &&& a.state@ == clamp_spec(state_spec(c))
                        &&& a.large_image == image_url
                        &&& a.large_text@ == clamp_spec(final_image_text(c))
                        &&& a.show_paused_badge == (t == PlayTime::Paused && c.show_paused)
                        &&& a.timestamps == (match t {
                            PlayTime::Range(ts, te) => Option::Some((ts, te)),
                            _ => Option::<(i64, i64)>::None,
                        })
                        &&& (match (a.buttons, buttons_spec(c)) {
                            (Option::Some(v), Option::Some(sp)) => v@ == sp,
                            (Option::None, Option::None) => true,
                            _ => false,
                        })
                        &&& a.kind == activity_kind_spec(m)
                    })
                }
            }),
    {
        let session = match &self.session {
            Some(s) => s,
            None => {
                return Ok(None);
            },
        };
        if session.now_playing_item.media_type.is_none() {
            return Err(JfError::UnrecognizedMediaType);
        }
        if self.check_blacklist() {
            return Err(JfError::ContentBlacklist);
        }
        let t = session.get_time(now_secs);
        let mut show_paused_badge = false;
        let timestamps: Option<(i64, i64)> = match t {
            PlayTime::Range(ts, te) => Some((ts, te)),
            PlayTime::Absent => None,
            PlayTime::Paused => {
                if self.show_paused {
                    show_paused_badge = true;
                    None
                } else {
                    return Ok(None);
                }
            },
        };
        let details_raw = self.get_details();
        let dv = chars_of(details_raw.as_str());
        let dv = clamp_text(&dv);
        let details = string_of(&dv);
        let state_raw = self.get_state();
        let sv = chars_of(state_raw.as_str());
        let sv = clamp_text(&sv);
        let state = string_of(&sv);
        let image_text_raw = self.get_image_text();
        let mut iv = chars_of(image_text_raw.as_str());
        if iv.len() == 0 {
            iv = chars_of("Jellyfin-RPC v0.1.0");
        }
        let iv = clamp_text(&iv);
        let large_text = string_of(&iv);
        let buttons = self.get_buttons();
        let kind = match session.now_playing_item.media_type {
            MediaType::Book => ActivityKind::Playing,
            MediaType::Music => ActivityKind::Listening,
            MediaType::AudioBook => ActivityKind::Listening,
            _ => ActivityKind::Watching,
        };
        Ok(
            Some(
                Activity {
                    details,
                    state,
                    large_image: image_url,
                    large_text,
                    show_paused_badge,
                    timestamps,
                    buttons,
                    kind,
                },
            ),
        )
    }
}

/// The marker the server's reply holds when an item has no primary
/// image.
pub open spec fn no_image_marker() -> Seq<char> {
    "does not have an image of type Primary"@
}

/// The server path of an item's primary image, relative to the base
/// URL.
pub fn image_request_path(item_id: &str) -> (r: String)
    ensures
        r@ == "Items/"@ + item_id@ + "/Images/Primary"@,
{
    let mut out = chars_of("Items/");
    let idv = chars_of(item_id);
    extend_chars(&mut out, &idv);
    let tail = chars_of("/Images/Primary");
    extend_chars(&mut out, &tail);
    let r = string_of(&out);
    proof {
        assert(out@ =~= "Items/"@ + item_id@ + "/Images/Primary"@);
    }
    r
}

/// Whether the server's reply says the item has no primary image.
pub fn primary_image_missing(body: &str) -> (r: bool)
    ensures
        r == seq_contains(body@, no_image_marker()),
{
    let bv = chars_of(body);
    let marker = chars_of("does not have an image of type Primary");
    contains_pat(&bv, &marker)
}

} // verus!
