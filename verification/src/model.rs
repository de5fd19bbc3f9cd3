//! The records that the server sends back and the values that describe a
//! session, as the library holds them.
//!
//! Numbers that the server reports as floating point are kept as their
//! IEEE-754 bit patterns (`f64::to_bits`), so that a value passes through
//! the library unchanged.

use vstd::prelude::*;

verus! {

/// Where the server is and which signed-in user the client acts for.
#[derive(Clone, Debug)]
pub struct ServerInfo {
    /// Scheme and host, such as `http://media.example`.
    pub domain: String,
    /// The server's port, as written in the address.
    pub port: String,
    /// The id of the signed-in user.
    pub user_id: String,
    /// The access token the server issued at sign-in.
    pub access_token: String,
}

/// How this client introduces itself to the server.
#[derive(Clone, Debug)]
pub struct ClientIdentity {
    /// A human-readable name of this device.
    pub device_name: String,
    /// A stable identifier of this installation.
    pub device_id: String,
    /// The client's version.
    pub client_version: String,
}

/// Watch state of an item for the signed-in user.
#[derive(Clone, Debug)]
pub struct UserData {
    /// Bit pattern of the played percentage, when the server reports one.
    pub played_percentage_bits: Option<u64>,
    pub playback_position_ticks: Option<u64>,
    pub played: bool,
    pub unplayed_item_count: Option<u32>,
}

/// One hit of a search, or an item similar to another.
#[derive(Clone, Debug)]
pub struct SearchResult {
    pub name: String,
    pub result_type: String,
    pub id: String,
    pub user_data: Option<UserData>,
    pub production_year: Option<i16>,
}

/// One episode of a series.
#[derive(Clone, Debug)]
pub struct SeriesInfo {
    pub name: String,
    pub id: String,
    pub overview: Option<String>,
    pub index_number: u32,
    pub parent_index_number: u32,
    pub user_data: Option<UserData>,
}

/// One audio, video or subtitle stream of a media source.
#[derive(Clone, Debug)]
pub struct MediaStream {
    pub display_title: Option<String>,
    pub stream_type: String,
    pub delivery_url: Option<String>,
    pub is_external: bool,
    pub title: Option<String>,
    pub display_language: Option<String>,
    pub codec: Option<String>,
    pub bit_rate: Option<u64>,
    pub bit_depth: Option<u64>,
    /// Bit pattern of the average frame rate, when the server reports one.
    pub average_frame_rate_bits: Option<u64>,
    pub height: Option<u64>,
    pub width: Option<u64>,
    pub pixel_format: Option<String>,
    pub color_space: Option<String>,
    pub sample_rate: Option<u64>,
    pub channels: Option<u64>,
    pub channel_layout: Option<String>,
}

/// One playable file of an item.
#[derive(Clone, Debug)]
pub struct MediaSource {
    pub id: String,
    pub name: String,
    pub size: u64,
    pub container: String,
    pub direct_stream_url: Option<String>,
    pub media_streams: Vec<MediaStream>,
}

/// The playable files of an item, and the session that plays them.
#[derive(Clone, Debug)]
pub struct Media {
    pub media_sources: Vec<MediaSource>,
    pub play_session_id: Option<String>,
}

/// An external link of an item.
#[derive(Clone, Debug)]
pub struct Urls {
    pub name: String,
    pub url: String,
}

/// A person credited on an item.
#[derive(Clone, Debug)]
pub struct People {
    pub name: String,
    pub id: String,
    pub role: Option<String>,
    pub people_type: Option<String>,
}

/// A studio, genre or tag of an item.
#[derive(Clone, Debug)]
pub struct SGTitem {
    pub name: String,
    pub id: i32,
}

/// The full description of an item.
#[derive(Clone, Debug)]
pub struct Item {
    pub name: String,
    pub id: String,
    pub series_id: Option<String>,
    pub series_name: Option<String>,
    pub parent_index_number: Option<u32>,
    pub index_number: Option<u32>,
    pub production_year: Option<u16>,
    pub external_urls: Option<Vec<Urls>>,
    pub overview: Option<String>,
    pub people: Option<Vec<People>>,
    pub studios: Option<Vec<SGTitem>>,
    pub genres: Option<Vec<SGTitem>>,
    pub tags: Option<Vec<SGTitem>>,
    pub user_data: Option<UserData>,
    /// Bit pattern of the community rating, when the server reports one.
    pub community_rating_bits: Option<u64>,
    pub official_rating: Option<String>,
    pub run_time_ticks: Option<u64>,
    pub taglines: Option<Vec<String>>,
    pub backdrop_image_tags: Option<Vec<String>>,
}

/// An item whose playback can be resumed.
#[derive(Clone, Debug)]
pub struct Resume {
    pub name: String,
    pub resume_type: String,
    pub id: String,
    pub series_id: Option<String>,
    pub index_number: Option<u32>,
    pub parent_index_number: Option<u32>,
    pub parent_thumb_item_id: Option<String>,
    pub series_name: Option<String>,
    pub user_data: Option<UserData>,
}

/// A library (a top-level view) of the user.
#[derive(Clone, Debug)]
pub struct LibraryView {
    pub name: String,
    pub id: String,
    pub collection_type: Option<String>,
}

/// An item of a listing: the latest additions or one page of a library.
#[derive(Clone, Debug)]
pub struct Latest {
    pub name: String,
    pub id: String,
    pub latest_type: String,
    pub user_data: Option<UserData>,
    pub production_year: Option<u32>,
}

/// One page of a listing, and the number of items in the whole listing.
#[derive(Clone, Debug)]
pub struct List {
    pub total_record_count: u32,
    pub items: Vec<Latest>,
}

impl Default for List {
    /// The empty listing.
    fn default() -> (list: List)
        ensures
            list.total_record_count == 0,
            list.items@.len() == 0,
    {
        List { total_record_count: 0, items: Vec::new() }
    }
}

/// Where playback of an item stands, as reported back to the server.
#[derive(Clone, Debug)]
pub struct Back {
    pub id: String,
    pub playsessionid: Option<String>,
    pub mediasourceid: String,
    pub tick: u64,
}

} // verus!
