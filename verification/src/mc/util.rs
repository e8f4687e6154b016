use crate::mc::user::UserID;
use crate::text::{normalize, normalized, str_eq, uuid_string, uuid_text};
use iso8601_timestamp::Timestamp;
use serde_json::Value;
use url::Url;
use uuid::Uuid;
use vstd::prelude::*;
use vstd::string::*;

verus! {

/// What an object carries where it came out of a cache.
#[derive(Clone, Debug, PartialEq)]
pub struct CacheDetails {
    pub cache_time: Timestamp,
    pub cache_status: String,
    pub cache_status_detail: String,
}

/// The audio codecs in which a song can be downloaded.
#[derive(Clone, Copy, Debug, PartialEq, Eq, Structural)]
pub enum Codec {
    MP3,
    FLAC,
    WAV,
}

impl Default for Codec {
    fn default() -> (codec: Codec)
        ensures
            codec == Codec::MP3,
    {
        Codec::MP3
    }
}

impl Codec {
    /// The name by which the service knows the codec.
    pub open spec fn text(self) -> Seq<char> {
        match self {
            Codec::MP3 => "mp3_320"@,
            Codec::FLAC => "flac"@,
            Codec::WAV => "wav"@,
        }
    }

    /// The codec that a name in normal form stands for. A name that is none
    /// of the three stands for MP3.
    pub open spec fn of_normalized(norm: Seq<char>) -> Codec {
        if norm == "flac"@ {
            Codec::FLAC
        } else if norm == "wav"@ {
            Codec::WAV
        } else {
            Codec::MP3
        }
    }

    /// The name by which the service knows the codec.
    pub fn to_string(&self) -> (s: String)
        ensures
            s@ == self.text(),
    {
        match self {
            Codec::MP3 => String::from_str("mp3_320"),
            Codec::FLAC => String::from_str("flac"),
            Codec::WAV => String::from_str("wav"),
        }
    }

    /// The codec that a name in normal form stands for.
    pub fn from_normalized(norm: &str) -> (codec: Codec)
        ensures
            codec == Codec::of_normalized(norm@),
    {
        if str_eq(norm, "flac") {
            Codec::FLAC
        } else if str_eq(norm, "wav") {
            Codec::WAV
        } else {
            Codec::MP3
        }
    }

    /// The codec that a name stands for, whatever its case and the
    /// whitespace in it.
    pub fn from_str(s: &str) -> (codec: Codec)
        ensures
            codec == Codec::of_normalized(normalized(s@)),
    {
        let norm = normalize(s);
        Codec::from_normalized(norm.as_str())
    }
}

/// A link to a resource on some platform.
#[derive(Clone, Debug)]
pub struct Link {
    /// The platform.
    pub platform: Platform,
    /// The address, HTTP or HTTPS.
    pub url: Url,
}

/// The platforms that a link can lead to.
#[derive(Clone, Debug, PartialEq)]
pub enum Platform {
    Amazon,
    AppleMusic,
    Audiomack,
    Audius,
    Bandcamp,
    Deezer,
    Facebook,
    GooglePlay,
    Instagram,
    Other(String),
    Patreon,
    SoundCloud,
    Spotify,
    Tidal,
    TikTok,
    Twitch,
    Twitter,
    Website,
    YouTube,
}

/// A [`Platform`] as a mathematical value.
pub ghost enum PlatformView {
    Amazon,
    AppleMusic,
    Audiomack,
    Audius,
    Bandcamp,
    Deezer,
    Facebook,
    GooglePlay,
    Instagram,
    Other(Seq<char>),
    Patreon,
    SoundCloud,
    Spotify,
    Tidal,
    TikTok,
    Twitch,
    Twitter,
    Website,
    YouTube,
}

impl View for Platform {
    type V = PlatformView;

    open spec fn view(&self) -> PlatformView {
        match *self {
            Platform::Amazon => PlatformView::Amazon,
            Platform::AppleMusic => PlatformView::AppleMusic,
            Platform::Audiomack => PlatformView::Audiomack,
            Platform::Audius => PlatformView::Audius,
            Platform::Bandcamp => PlatformView::Bandcamp,
            Platform::Deezer => PlatformView::Deezer,
            Platform::Facebook => PlatformView::Facebook,
            Platform::GooglePlay => PlatformView::GooglePlay,
            Platform::Instagram => PlatformView::Instagram,
            Platform::Other(name) => PlatformView::Other(name@),
            Platform::Patreon => PlatformView::Patreon,
            Platform::SoundCloud => PlatformView::SoundCloud,
            Platform::Spotify => PlatformView::Spotify,
            Platform::Tidal => PlatformView::Tidal,
            Platform::TikTok => PlatformView::TikTok,
            Platform::Twitch => PlatformView::Twitch,
            Platform::Twitter => PlatformView::Twitter,
            Platform::Website => PlatformView::Website,
            Platform::YouTube => PlatformView::YouTube,
        }
    }
}

impl PlatformView {
    /// The name of the platform as it is shown.
    pub open spec fn text(self) -> Seq<char> {
        match self {
            PlatformView::Amazon => "Amazon"@,
            PlatformView::AppleMusic => "Apple Music"@,
            PlatformView::Audiomack => "Audiomack"@,
            PlatformView::Audius => "Audius"@,
            PlatformView::Bandcamp => "Bandcamp"@,
            PlatformView::Deezer => "Deezer"@,
            PlatformView::Facebook => "Facebook"@,
            PlatformView::GooglePlay => "Google Play"@,
            PlatformView::Instagram => "Instagram"@,
            PlatformView::Other(name) => name,
            PlatformView::Patreon => "Patreon"@,
            PlatformView::SoundCloud => "SoundCloud"@,
            PlatformView::Spotify => "Spotify"@,
            PlatformView::Tidal => "Tidal"@,
            PlatformView::TikTok => "TikTok"@,
            PlatformView::Twitch => "Twitch"@,
            PlatformView::Twitter => "Twitter"@,
            PlatformView::Website => "Website"@,
            PlatformView::YouTube => "YouTube"@,
        }
    }

    /// The platform that a name in normal form stands for. A name that is
    /// none of the known ones stands for a platform of its own.
    pub open spec fn of_normalized(norm: Seq<char>) -> PlatformView {
        if norm == "amazon"@ {
            PlatformView::Amazon
        } else if norm == "applemusic"@ {
            PlatformView::AppleMusic
        } else if norm == "audiomack"@ {
            PlatformView::Audiomack
        } else if norm == "audius"@ {
            PlatformView::Audius
        } else if norm == "bandcamp"@ {
            PlatformView::Bandcamp
        } else if norm == "deezer"@ {
            PlatformView::Deezer
        } else if norm == "facebook"@ {
            PlatformView::Facebook
        } else if norm == "googleplay"@ {
            PlatformView::GooglePlay
        } else if norm == "ig"@ || norm == "instagram"@ {
            PlatformView::Instagram
        } else if norm == "patreon"@ {
            PlatformView::Patreon
        } else if norm == "soundcloud"@ {
            PlatformView::SoundCloud
        } else if norm == "spotify"@ {
            PlatformView::Spotify
        } else if norm == "tidal"@ {
            PlatformView::Tidal
        } else if norm == "tiktok"@ {
            PlatformView::TikTok
        } else if norm == "twitch"@ {
            PlatformView::Twitch
        } else if norm == "twitter"@ {
            PlatformView::Twitter
        } else if norm == "website"@ {
            PlatformView::Website
        } else if norm == "youtube"@ {
            PlatformView::YouTube
        } else {
            PlatformView::Other(norm)
        }
    }
}

impl Platform {
    /// The name of the platform as it is shown.
    pub fn to_string(&self) -> (s: String)
        ensures
            s@ == self@.text(),
    {
        match self {
            Platform::Amazon => String::from_str("Amazon"),
            Platform::AppleMusic => String::from_str("Apple Music"),
            Platform::Audiomack => String::from_str("Audiomack"),
            Platform::Audius => String::from_str("Audius"),
            Platform::Bandcamp => String::from_str("Bandcamp"),
            Platform::Deezer => String::from_str("Deezer"),
            Platform::Facebook => String::from_str("Facebook"),
            Platform::GooglePlay => String::from_str("Google Play"),
            Platform::Instagram => String::from_str("Instagram"),
            Platform::Other(unk) => unk.clone(),
            Platform::Patreon => String::from_str("Patreon"),
            Platform::SoundCloud => String::from_str("SoundCloud"),
            Platform::Spotify => String::from_str("Spotify"),
            Platform::Tidal => String::from_str("Tidal"),
            Platform::TikTok => String::from_str("TikTok"),
            Platform::Twitch => String::from_str("Twitch"),
            Platform::Twitter => String::from_str("Twitter"),
            Platform::Website => String::from_str("Website"),
            Platform::YouTube => String::from_str("YouTube"),
        }
    }

    /// The platform that a name in normal form stands for.
    pub fn from_normalized(norm: String) -> (platform: Platform)
        ensures
            platform@ == PlatformView::of_normalized(norm@),
    {
        let name = norm.as_str();
        if str_eq(name, "amazon") {
            Platform::Amazon
        } else if str_eq(name, "applemusic") {
            Platform::AppleMusic
        } else if str_eq(name, "audiomack") {
            Platform::Audiomack
        } else if str_eq(name, "audius") {
            Platform::Audius
        } else if str_eq(name, "bandcamp") {
            Platform::Bandcamp
        } else if str_eq(name, "deezer") {
            Platform::Deezer
        } else if str_eq(name, "facebook") {
            Platform::Facebook
        } else if str_eq(name, "googleplay") {
            Platform::GooglePlay
        } else if str_eq(name, "ig") {
            Platform::Instagram
        } else if str_eq(name, "instagram") {
            Platform::Instagram
        } else if str_eq(name, "patreon") {
            Platform::Patreon
        } else if str_eq(name, "soundcloud") {
            Platform::SoundCloud
        } else if str_eq(name, "spotify") {
            Platform::Spotify
        } else if str_eq(name, "tidal") {
            Platform::Tidal
        } else if str_eq(name, "tiktok") {
            Platform::TikTok
        } else if str_eq(name, "twitch") {
            Platform::Twitch
        } else if str_eq(name, "twitter") {
            Platform::Twitter
        } else if str_eq(name, "website") {
            Platform::Website
        } else if str_eq(name, "youtube") {
            Platform::YouTube
        } else {
            Platform::Other(norm)
        }
    }

    /// The platform that a name stands for, whatever its case and the
    /// whitespace in it.
    pub fn from_str(s: &str) -> (platform: Platform)
        ensures
            platform@ == PlatformView::of_normalized(normalized(s@)),
    {
        Platform::from_normalized(normalize(s))
    }
}

/// The identifier of a license: the 128-bit value of its UUID.
#[derive(Clone, Copy, Debug, PartialEq, Eq, Structural)]
pub struct LicenseID(pub u128);

impl LicenseID {
    /// The identifier as the service writes it.
    pub fn to_string(&self) -> (s: String)
        ensures
            s@ == uuid_text(self.0),
    {
        uuid_string(self.0)
    }
}

/// A license that lets a creator use songs in published content.
#[derive(Clone, Debug, PartialEq)]
pub struct License {
    pub active_times: Vec<LicenseActiveTimes>,
    pub allow_listed: Option<Value>,
    pub archived: bool,
    pub created_at: Timestamp,
    pub free: bool,
    pub free_at: Option<Timestamp>,
    pub free_reason: String,
    pub has_active_period: bool,
    pub id: LicenseID,
    pub identity: String,
    pub invalid: bool,
    pub last_sync: Timestamp,
    pub notes: Option<String>,
    pub oauth_id: Uuid,
    pub sanitized: Option<bool>,
    pub scheduled_sync: Option<Timestamp>,
    pub state: String,
    pub sync_failures: Option<u32>,
    pub sync_state: Option<String>,
    pub updated_at: Timestamp,
    pub user_archived: bool,
    pub user_email: String,
    pub user_id: UserID,
    pub vendor: Platform,
    pub whitelisted: Option<bool>,
    pub youtube_stats_date: Option<Timestamp>,
    pub youtube_subscribers: usize,
    pub youtube_title: String,
    pub youtube_url: String,
    pub youtube_views: usize,
}

/// A span of time in which a license is active.
#[derive(Clone, Debug, PartialEq)]
pub struct LicenseActiveTimes {
    pub created_at: Timestamp,
    pub finish: Timestamp,
    pub gold_time_range_id: Uuid,
    pub id: Uuid,
    pub license_id: Uuid,
    pub source: String,
    pub start: Timestamp,
}

/// The body of the request that withdraws a copyright claim on a video.
#[derive(Clone, Debug, PartialEq)]
pub struct ClaimVideoId {
    pub video_id: String,
}

} // verus!
