//! The raw tweet payload: the backend's verbose response schema, reduced
//! to the fields the pipeline reads.  Values of these types arrive as
//! plain data; decoding the backend's wire format into them is the
//! caller's concern.

use vstd::prelude::*;

verus! {

/// One encoded rendition of a video or animated-image asset.
#[derive(Clone, Debug)]
pub struct ScrapedVariant {
    /// Bitrate of this rendition; absent on some renditions, in which
    /// case it counts as zero for quality comparison.
    pub bitrate: Option<u32>,
    /// MIME type of this rendition.
    pub content_type: String,
    /// Where this rendition can be fetched.
    pub url: String,
}

/// The variant list of a video or animated-image entity.
#[derive(Clone, Debug)]
pub struct ScrapedVideoInfo {
    pub variants: Vec<ScrapedVariant>,
}

/// One media entity of a tweet, with its kind tag as the backend sends it.
#[derive(Clone, Debug)]
pub struct ScrapedExtendedMedia {
    /// The backend's kind tag: `photo`, `video`, `animated_gif`, or
    /// anything newer.
    pub media_type: String,
    /// Present on video and animated-image entities.
    pub video_info: Option<ScrapedVideoInfo>,
    /// Base URL of the entity (for photos, the image itself).
    pub media_url_https: String,
}

/// The media list of a tweet in its extended form.
#[derive(Clone, Debug)]
pub struct ScrapedExtendedEntities {
    pub media: Vec<ScrapedExtendedMedia>,
}

/// One media entity of a tweet in its legacy, URL-only form.
#[derive(Clone, Debug)]
pub struct ScrapedMedia {
    pub media_url_https: String,
}

/// The media list of a tweet in its legacy form.
#[derive(Clone, Debug)]
pub struct ScrapedEntities {
    pub media: Vec<ScrapedMedia>,
}

/// The author of a tweet.
#[derive(Clone, Debug)]
pub struct ScrapedUser {
    pub screen_name: String,
}

/// A located tweet as the backend reports it.
#[derive(Clone, Debug)]
pub struct ScrapedTweet {
    pub full_text: String,
    pub user: ScrapedUser,
    /// Absent when the tweet carries no media.
    pub extended_entities: Option<ScrapedExtendedEntities>,
}

} // verus!
