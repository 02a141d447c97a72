//! The assembled presence content, built step by step while a poll is
//! processed.

use vstd::prelude::*;
use crate::jellyfin::MediaType;
use crate::text::{join_artists, join_artists_spec};

verus! {

/// An external service the content links to.
#[derive(Debug, Clone)]
pub struct ExternalServices {
    /// Name of the service.
    pub name: String,
    /// URL pointing to the item on the external service.
    pub url: String,
}

/// Struct containing information about what's being played.
#[derive(Debug)]
pub struct Content {
    /// What type of content is currently playing.
    pub media_type: MediaType,
    /// The title of the content.
    pub details: String,
    /// Description of the content.
    pub state_message: String,
    /// When the content will end, as an epoch instant.
    pub endtime: Option<i64>,
    /// The image URL supplied by the media server.
    pub image_url: String,
    /// The id under which the content's image is cached.
    pub item_id: String,
    /// External services to display as buttons.
    pub external_services: Vec<ExternalServices>,
}

/// Used to build Content step by step.
#[derive(Debug)]
pub struct ContentBuilder {
    /// What type of content is currently playing.
    pub media_type: MediaType,
    /// The title of the content.
    pub details: String,
    /// Description of the content.
    pub state_message: String,
    /// When the content will end, as an epoch instant.
    pub endtime: Option<i64>,
    /// The image URL supplied by the media server.
    pub image_url: String,
    /// The id under which the content's image is cached.
    pub item_id: String,
    /// External services to display as buttons.
    pub external_services: Vec<ExternalServices>,
}

impl ContentBuilder {
    /// An empty builder: unrecognized type, empty texts, no end time,
    /// no services.
    pub fn new() -> (r: Self)
        ensures
            r.media_type == MediaType::Unknown,
            r.details@ == Seq::<char>::empty(),
            r.state_message@ == Seq::<char>::empty(),
            r.endtime is None,
            r.image_url@ == Seq::<char>::empty(),
            r.item_id@ == Seq::<char>::empty(),
            r.external_services@ == Seq::<ExternalServices>::empty(),
    {
        Self {
            media_type: MediaType::Unknown,
            details: String::new(),
            state_message: String::new(),
            endtime: None,
            image_url: String::new(),
            item_id: String::new(),
            external_services: Vec::new(),
        }
    }

    /// Sets the media type.
    pub fn media_type(&mut self, media_type: MediaType)
        ensures
            *final(self) == (ContentBuilder { media_type, ..*old(self) }),
    {
        self.media_type = media_type;
    }

    /// Sets the details line.
    pub fn details(&mut self, details: String)
        ensures
            *final(self) == (ContentBuilder { details: final(self).details, ..*old(self) }),
            final(self).details == details,
    {
        self.details = details;
    }

    /// Sets the state line.
    pub fn state_message(&mut self, state_message: String)
        ensures
            *final(self) == (ContentBuilder {
                state_message: final(self).state_message,
                ..*old(self)
            }),
            final(self).state_message == state_message,
    {
        self.state_message = state_message;
    }

    /// Sets the end instant.
    pub fn endtime(&mut self, endtime: Option<i64>)
        ensures
            *final(self) == (ContentBuilder { endtime, ..*old(self) }),
    {
        self.endtime = endtime;
    }

    /// Sets the server image URL.
    pub fn image_url(&mut self, image_url: String)
        ensures
            *final(self) == (ContentBuilder { image_url: final(self).image_url, ..*old(self) }),
            final(self).image_url == image_url,
    {
        self.image_url = image_url;
    }

    /// Sets the cache id.
    pub fn item_id(&mut self, item_id: String)
        ensures
            *final(self) == (ContentBuilder { item_id: final(self).item_id, ..*old(self) }),
            final(self).item_id == item_id,
    {
        self.item_id = item_id;
    }

    /// Sets the external services.
    pub fn external_services(&mut self, external_services: Vec<ExternalServices>)
        ensures
            *final(self) == (ContentBuilder {
                external_services: final(self).external_services,
                ..*old(self)
            }),
            final(self).external_services == external_services,
    {
        self.external_services = external_services;
    }

    /// The finished content, field for field.
    pub fn build(self) -> (r: Content)
        ensures
            r.media_type == self.media_type,
            r.details == self.details,
            r.state_message == self.state_message,
            r.endtime == self.endtime,
            r.image_url == self.image_url,
            r.item_id == self.item_id,
            r.external_services == self.external_services,
    {
        Content {
            media_type: self.media_type,
            details: self.details,
            state_message: self.state_message,
            endtime: self.endtime,
            image_url: self.image_url,
            item_id: self.item_id,
            external_services: self.external_services,
        }
    }
}

impl Content {
    /// Joins artist names: a comma between each pair, the word `and`
    /// before the last.
    pub fn get_artists(raw_artists: &Vec<String>) -> (r: String)
        ensures
            r@ == join_artists_spec(raw_artists.deep_view()),
    {
        join_artists(raw_artists)
    }
}

} // verus!
