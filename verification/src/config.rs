//! The configuration as the caller's config file provides it, and its
//! normalization into one canonical shape: string-or-list fields become
//! lists, defaults are filled in, and the server URL gains its trailing
//! slash.

use vstd::prelude::*;
use crate::jellyfin::{Button, MediaType};
use crate::client::{
    DisplayFormat, legacy_state_text, split_commas, split_commas_exec,
};
use crate::text::{chars_of, string_of};

verus! {

/// Main struct containing every other struct in the file; the parsed
/// and normalized configuration.
pub struct Config {
    /// Jellyfin configuration.
    pub jellyfin: Jellyfin,
    /// Discord configuration.
    pub discord: Discord,
    /// Imgur configuration.
    pub imgur: Imgur,
    /// Images configuration.
    pub images: Images,
}

/// This struct contains every required part of the config.
pub struct Jellyfin {
    /// URL to the media server, with its trailing slash.
    pub url: String,
    /// API key used to gather what's being watched.
    pub api_key: String,
    /// Usernames of the people that info should be gathered from.
    pub username: Vec<String>,
    /// Configuration for music display.
    pub music: DisplayOptions,
    /// Configuration for movie display.
    pub movies: DisplayOptions,
    /// Configuration for episode display.
    pub episodes: DisplayOptions,
    /// Blacklist configuration.
    pub blacklist: Blacklist,
    /// Self-signed certificate option.
    pub self_signed_cert: bool,
    /// Simple episode name.
    pub show_simple: bool,
    /// Zero-pad season and episode numbers below ten.
    pub append_prefix: bool,
    /// Add a divider between numbers.
    pub add_divider: bool,
}

/// Contains configuration for one media category's display.
pub struct DisplayOptions {
    /// What should be displayed.
    pub display: Option<DisplayFormat>,
    /// What parts the displayed items.
    pub separator: Option<String>,
}

/// Discord configuration.
pub struct Discord {
    /// A custom application id to be used.
    pub application_id: Option<String>,
    /// Custom buttons to be displayed.
    pub buttons: Option<Vec<Button>>,
    /// Show status when media is paused.
    pub show_paused: bool,
}

/// Images configuration.
pub struct Images {
    /// Enables images.
    pub enable_images: bool,
    /// Enables imgur images.
    pub imgur_images: bool,
    /// Enables litterbox images.
    pub litterbox_images: bool,
}

/// The configuration as read from the file, before normalization.
pub struct ConfigBuilder {
    /// Jellyfin configuration.
    pub jellyfin: JellyfinBuilder,
    /// Discord configuration.
    pub discord: Option<DiscordBuilder>,
    /// Imgur configuration.
    pub imgur: Option<Imgur>,
    /// Images configuration.
    pub images: Option<ImagesBuilder>,
}

/// The Jellyfin section as read from the file.
pub struct JellyfinBuilder {
    /// URL to the media server.
    pub url: String,
    /// API key.
    pub api_key: String,
    /// One username, or several.
    pub username: Username,
    /// Music display, if configured.
    pub music: Option<DisplayOptionsBuilder>,
    /// Movie display, if configured.
    pub movies: Option<DisplayOptionsBuilder>,
    /// Episode display, if configured.
    pub episodes: Option<DisplayOptionsBuilder>,
    /// Blacklist, if configured.
    pub blacklist: Option<Blacklist>,
    /// Self-signed certificate option.
    pub self_signed_cert: Option<bool>,
    /// Simple episode name.
    pub show_simple: Option<bool>,
    /// Zero-pad season and episode numbers.
    pub append_prefix: Option<bool>,
    /// Add a divider between numbers.
    pub add_divider: Option<bool>,
}

/// A username field: one name, or a list of names.
pub enum Username {
    /// Several usernames.
    List(Vec<String>),
    /// A single username, possibly comma-separated.
    Single(String),
}

/// A display section as read from the file.
pub struct DisplayOptionsBuilder {
    /// What should be displayed.
    pub display: Option<Display>,
    /// What parts the displayed items.
    pub separator: Option<String>,
}

/// A display field: a list of items, a comma-separated string of items,
/// or a full custom format.
pub enum Display {
    /// A list of items.
    List(Vec<String>),
    /// A comma-separated string of items.
    Single(String),
    /// A full custom format.
    CustomFormat(DisplayFormat),
}

/// The legacy music section: the same shape as a display section.
pub struct Music {
    /// What should be displayed.
    pub display: Option<Display>,
    /// What parts the displayed items.
    pub separator: Option<String>,
}

/// Blacklist media types and libraries.
pub struct Blacklist {
    /// Media types to blacklist.
    pub media_types: Option<Vec<MediaType>>,
    /// Libraries to blacklist.
    pub libraries: Option<Vec<String>>,
}

/// The Discord section as read from the file.
pub struct DiscordBuilder {
    /// A custom application id.
    pub application_id: Option<String>,
    /// Custom buttons.
    pub buttons: Option<Vec<Button>>,
    /// Show status when media is paused.
    pub show_paused: Option<bool>,
}

/// Imgur configuration.
pub struct Imgur {
    /// The client id used to upload images to imgur.
    pub client_id: Option<String>,
}

/// The images section as read from the file.
pub struct ImagesBuilder {
    /// Enables images.
    pub enable_images: Option<bool>,
    /// Enables imgur images.
    pub imgur_images: Option<bool>,
    /// Enables litterbox images.
    pub litterbox_images: Option<bool>,
}

/// An optional flag with its default.
pub open spec fn opt_bool(o: Option<bool>, d: bool) -> bool {
    match o {
        Option::Some(b) => b,
        Option::None => d,
    }
}

/// The normalized username list: a list stands as it is, a single
/// string is split on commas.
pub open spec fn username_normalized(u: Username) -> Seq<Seq<char>> {
    match u {
        Username::List(v) => v.deep_view(),
        Username::Single(s) => split_commas(s@),
    }
}

/// Whether a built display format is the legacy format over `items`.
pub open spec fn legacy_format(f: DisplayFormat, items: Seq<Seq<char>>) -> bool {
    &&& f.details_text is Some
    &&& f.details_text.unwrap()@ == "{__default}"@
    &&& f.state_text is Some
    &&& f.state_text.unwrap()@ == legacy_state_text(items)
    &&& f.image_text is Some
    &&& f.image_text.unwrap()@ == "Jellyfin-RPC v{version}"@
}

/// How a display field is normalized: lists and comma-strings become
/// the legacy format, a custom format stands as it is.
pub open spec fn display_built(src: Option<Display>, out: Option<DisplayFormat>) -> bool {
    match src {
        Option::None => out is None,
        Option::Some(Display::List(v)) => out is Some && legacy_format(out.unwrap(), v.deep_view()),
        Option::Some(Display::Single(s)) => out is Some && legacy_format(
            out.unwrap(),
            split_commas(s@),
        ),
        Option::Some(Display::CustomFormat(f)) => out == Option::Some(f),
    }
}

/// How a display section is normalized: an absent section gives no
/// display and no separator.
pub open spec fn display_options_built(
    src: Option<DisplayOptionsBuilder>,
    out: DisplayOptions,
) -> bool {
    match src {
        Option::None => out.display is None && out.separator is None,
        Option::Some(d) => display_built(d.display, out.display) && out.separator == d.separator,
    }
}

/// The URL with its trailing slash appended, where one is missing.
pub open spec fn url_with_slash(u: Seq<char>) -> Seq<char> {
    if u.len() > 0 && u[u.len() - 1] == '/' {
        u
    } else {
        u + seq!['/']
    }
}

impl Config {
    /// Returns an empty builder to load a configuration into.
    pub fn builder() -> (r: ConfigBuilder)
        ensures
            config_builder_defaults(r),
    {
        ConfigBuilder::new()
    }
}

/// What `ConfigBuilder::new` promises of its fields.
pub open spec fn config_builder_defaults(r: ConfigBuilder) -> bool {
    &&& r.jellyfin.url@ == Seq::<char>::empty()
    &&& r.jellyfin.api_key@ == Seq::<char>::empty()
    &&& (r.jellyfin.username matches Username::Single(s) && s@ == Seq::<char>::empty())
    &&& r.jellyfin.music is None
    &&& r.jellyfin.movies is None
    &&& r.jellyfin.episodes is None
    &&& r.jellyfin.blacklist is None
    &&& r.jellyfin.self_signed_cert is None
    &&& r.jellyfin.show_simple == Option::Some(false)
    &&& r.jellyfin.append_prefix == Option::Some(false)
    &&& r.jellyfin.add_divider == Option::Some(false)
    &&& r.discord is None
    &&& r.imgur is None
    &&& r.images is None
}

impl ConfigBuilder {
    /// An empty builder, as a missing file section leaves it.
    pub fn new() -> (r: Self)
        ensures
            config_builder_defaults(r),
    {
        Self {
            jellyfin: JellyfinBuilder {
                url: String::new(),
                api_key: String::new(),
                username: Username::Single(String::new()),
                music: None,
                movies: None,
                episodes: None,
                blacklist: None,
                self_signed_cert: None,
                show_simple: Some(false),
                append_prefix: Some(false),
                add_divider: Some(false),
            },
            discord: None,
            imgur: None,
            images: None,
        }
    }

    /// Normalizes the configuration: usernames become one list, display
    /// fields become display formats, defaults are filled in, and the
    /// URL gains its trailing slash.
    pub fn build(self) -> (r: Config)
        ensures
            r.jellyfin.url@ == url_with_slash(self.jellyfin.url@),
            r.jellyfin.api_key == self.jellyfin.api_key,
            r.jellyfin.username.deep_view() == username_normalized(self.jellyfin.username),
            display_options_built(self.jellyfin.music, r.jellyfin.music),
            display_options_built(self.jellyfin.movies, r.jellyfin.movies),
            display_options_built(self.jellyfin.episodes, r.jellyfin.episodes),
            (match self.jellyfin.blacklist {
                Option::Some(b) => r.jellyfin.blacklist.media_types == b.media_types
                    && r.jellyfin.blacklist.libraries == b.libraries,
                Option::None => r.jellyfin.blacklist.media_types is None
                    && r.jellyfin.blacklist.libraries is None,
            }),
            r.jellyfin.self_signed_cert == opt_bool(self.jellyfin.self_signed_cert, false),
            r.jellyfin.show_simple == opt_bool(self.jellyfin.show_simple, false),
            r.jellyfin.append_prefix == opt_bool(self.jellyfin.append_prefix, false),
            r.jellyfin.add_divider == opt_bool(self.jellyfin.add_divider, false),
            (match self.discord {
                Option::Some(d) => r.discord.application_id == d.application_id && r.discord.buttons
                    == d.buttons && r.discord.show_paused == opt_bool(d.show_paused, true),
                Option::None => r.discord.application_id is None && r.discord.buttons is None
                    && r.discord.show_paused == true,
            }),
            (match self.imgur {
                Option::Some(im) => r.imgur.client_id == im.client_id,
                Option::None => r.imgur.client_id is None,
            }),
            (match self.images {
                Option::Some(im) => r.images.enable_images == opt_bool(im.enable_images, false)
                    && r.images.imgur_images == opt_bool(im.imgur_images, false)
                    && r.images.litterbox_images == opt_bool(im.litterbox_images, false),
                Option::None => r.images.enable_images == false && r.images.imgur_images == false
                    && r.images.litterbox_images == false,
            }),
    {
        let username: Vec<String> = match self.jellyfin.username {
            Username::List(usernames) => usernames,
            Username::Single(username) => split_commas_exec(username.as_str()),
        };
        let music = build_display_options(self.jellyfin.music);
        let movies = build_display_options(self.jellyfin.movies);
        let episodes = build_display_options(self.jellyfin.episodes);
        let blacklist: Blacklist = match self.jellyfin.blacklist {
            Some(b) => Blacklist { media_types: b.media_types, libraries: b.libraries },
            None => Blacklist { media_types: None, libraries: None },
        };
        let discord: Discord = match self.discord {
            Some(d) => Discord {
                application_id: d.application_id,
                buttons: d.buttons,
                show_paused: match d.show_paused {
                    Some(v) => v,
                    None => true,
                },
            },
            None => Discord { application_id: None, buttons: None, show_paused: true },
        };
        let imgur: Imgur = match self.imgur {
            Some(im) => im,
            None => Imgur { client_id: None },
        };
        let images: Images = match self.images {
            Some(im) => Images {
                enable_images: match im.enable_images {
                    Some(v) => v,
                    None => false,
                },
                imgur_images: match im.imgur_images {
                    Some(v) => v,
                    None => false,
                },
                litterbox_images: match im.litterbox_images {
                    Some(v) => v,
                    None => false,
                },
            },
            None => Images { enable_images: false, imgur_images: false, litterbox_images: false },
        };
        let url = append_slash(self.jellyfin.url);
        Config {
            jellyfin: Jellyfin {
                url,
                api_key: self.jellyfin.api_key,
                username,
                music,
                movies,
                episodes,
                blacklist,
                self_signed_cert: match self.jellyfin.self_signed_cert {
                    Some(v) => v,
                    None => false,
                },
                show_simple: match self.jellyfin.show_simple {
                    Some(v) => v,
                    None => false,
                },
                append_prefix: match self.jellyfin.append_prefix {
                    Some(v) => v,
                    None => false,
                },
                add_divider: match self.jellyfin.add_divider {
                    Some(v) => v,
                    None => false,
                },
            },
            discord,
            imgur,
            images,
        }
    }
}

/// Normalizes one display section, as [`display_options_built`]
/// describes.
fn build_display_options(src: Option<DisplayOptionsBuilder>) -> (r: DisplayOptions)
    ensures
        display_options_built(src, r),
{
    match src {
        None => DisplayOptions { display: None, separator: None },
        Some(d) => {
            let display: Option<DisplayFormat> = match d.display {
                None => None,
                Some(Display::List(v)) => Some(DisplayFormat::from_items(&v)),
                Some(Display::Single(s)) => Some(DisplayFormat::from_comma_string(s.as_str())),
                Some(Display::CustomFormat(f)) => Some(f),
            };
            DisplayOptions { display, separator: d.separator }
        },
    }
}

/// The URL with a trailing slash appended where one is missing.
fn append_slash(url: String) -> (r: String)
    ensures
        r@ == url_with_slash(url@),
{
    let v = chars_of(url.as_str());
    if v.len() > 0 && v[v.len() - 1] == '/' {
        url
    } else {
        let mut v2 = v;
        v2.push('/');
        string_of(&v2)
    }
}

} // verus!
