//! The JSON bodies that the client posts, as records.
//!
//! Each record here is rendered field by field (in the order given, under
//! the JSON names noted on each field) by whoever sends the request.

use vstd::prelude::*;

verus! {

/// The view of an optional string.
pub open spec fn opt_str(o: Option<String>) -> Option<Seq<char>> {
    match o {
        Some(s) => Some(s@),
        None => None,
    }
}

/// Credentials for signing in (`Username`, `Pw`).
#[derive(Clone, Debug)]
pub struct LoginBody {
    pub username: String,
    pub password: String,
}

/// Announces that the user is playing an item (`UserId`, `Id`, `MediaSourceId`).
#[derive(Clone, Debug)]
pub struct PlayingItemBody {
    pub user_id: String,
    pub id: String,
    pub media_source_id: String,
}

/// A container and codecs that the client plays without transcoding
/// (`Container`, `Type`, `VideoCodec`, `AudioCodec`; an absent codec is left out).
#[derive(Clone, Debug)]
pub struct DirectPlayProfile {
    pub container: String,
    pub media_type: String,
    pub video_codec: Option<String>,
    pub audio_codec: Option<String>,
}

impl View for DirectPlayProfile {
    type V = (Seq<char>, Seq<char>, Option<Seq<char>>, Option<Seq<char>>);

    open spec fn view(&self) -> Self::V {
        (self.container@, self.media_type@, opt_str(self.video_codec), opt_str(self.audio_codec))
    }
}

/// A subtitle format and how the client takes it
/// (`Format`, `Method`, `Protocol`; an absent protocol is left out).
#[derive(Clone, Debug)]
pub struct SubtitleProfile {
    pub format: String,
    pub method: String,
    pub protocol: Option<String>,
}

impl View for SubtitleProfile {
    type V = (Seq<char>, Seq<char>, Option<Seq<char>>);

    open spec fn view(&self) -> Self::V {
        (self.format@, self.method@, opt_str(self.protocol))
    }
}

/// What the client can play, sent when asking for playback information
/// (wrapped as `{"DeviceProfile": ...}`; `Name`, `MaxStaticBitrate`,
/// `MaxStreamingBitrate`, `MusicStreamingTranscodingBitrate`,
/// `DirectPlayProfiles`, `SubtitleProfiles`, and the empty lists
/// `TranscodingProfiles`, `ContainerProfiles`, `CodecProfiles`, `ResponseProfiles`).
#[derive(Clone, Debug)]
pub struct DeviceProfile {
    pub name: String,
    pub max_static_bitrate: u64,
    pub max_streaming_bitrate: u64,
    pub music_streaming_transcoding_bitrate: u64,
    pub direct_play_profiles: Vec<DirectPlayProfile>,
    pub subtitle_profiles: Vec<SubtitleProfile>,
}

/// A report on playback (`VolumeLevel`, `IsMuted`, `IsPaused`, `RepeatMode`,
/// `SubtitleOffset`, `PlaybackRate`, `MaxStreamingBitrate`, `PositionTicks`,
/// `PlaybackStartTimeTicks`, `SubtitleStreamIndex`, `AudioStreamIndex`,
/// the empty list `BufferedRanges`, `PlayMethod`, `PlaySessionId`,
/// `MediaSourceId`, `CanSeek`, `ItemId`, `PlaylistIndex`, `PlaylistLength`,
/// `NextMediaType`).
#[derive(Clone, Debug)]
pub struct PlaybackReport {
    pub volume_level: u32,
    pub is_muted: bool,
    pub is_paused: bool,
    pub repeat_mode: String,
    pub subtitle_offset: u32,
    pub playback_rate: u32,
    pub max_streaming_bitrate: u64,
    pub position_ticks: u64,
    pub playback_start_time_ticks: u64,
    pub subtitle_stream_index: u32,
    pub audio_stream_index: u32,
    pub play_method: String,
    pub play_session_id: Option<String>,
    pub media_source_id: String,
    pub can_seek: bool,
    pub item_id: String,
    pub playlist_index: u32,
    pub playlist_length: u32,
    pub next_media_type: String,
}

/// The direct-play table that the client announces, in order:
/// container, media type, video codecs, audio codecs.
pub open spec fn direct_play_table() -> Seq<(Seq<char>, Seq<char>, Option<Seq<char>>, Option<Seq<char>>)> {
    seq![
        ("mkv"@, "Video"@, Some("hevc,h264,av1,vp8,vp9,mp4"@), Some("aac,ac3,alac,eac3,dts,flac,mp3,opus,truehd,vorbis"@)),
        ("mp4,m4v"@, "Video"@, Some("hevc,h264,av1,vp8,vp9"@), Some("aac,alac,opus,mp3,flac,vorbis"@)),
        ("flv"@, "Video"@, Some("h264"@), Some("aac,mp3"@)),
        ("mov"@, "Video"@, Some("h264"@), Some("aac,opus,flac,vorbis"@)),
        ("opus"@, "Audio"@, None, None),
        ("mp3"@, "Audio"@, None, Some("mp3"@)),
        ("mp2,mp3"@, "Audio"@, None, Some("mp2"@)),
        ("m4a"@, "Audio"@, None, Some("aac"@)),
        ("mp4"@, "Audio"@, None, Some("aac"@)),
        ("flac"@, "Audio"@, None, None),
        ("webma,webm"@, "Audio"@, None, None),
        ("wav"@, "Audio"@, None, Some("PCM_S16LE,PCM_S24LE"@)),
        ("ogg"@, "Audio"@, None, None),
        ("webm"@, "Video"@, Some("av1,VP8,VP9"@), Some("vorbis,opus"@)),
    ]
}

/// The subtitle table that the client announces, in order:
/// format, method, protocol.
pub open spec fn subtitle_table() -> Seq<(Seq<char>, Seq<char>, Option<Seq<char>>)> {
    seq![
        ("vtt"@, "Hls"@, None),
        ("eia_608"@, "VideoSideData"@, Some("hls"@)),
        ("eia_708"@, "VideoSideData"@, Some("hls"@)),
        ("vtt"@, "External"@, None),
        ("ass"@, "External"@, None),
        ("ssa"@, "External"@, None),
    ]
}

fn owned_opt(s: Option<&str>) -> (r: Option<String>)
    ensures
        opt_str(r) == (match s {
            Some(t) => Some(t@),
            None => None::<Seq<char>>,
        }),
{
    match s {
        Some(t) => Some(t.to_owned()),
        None => None,
    }
}

fn direct_play(
    profiles: &mut Vec<DirectPlayProfile>,
    container: &str,
    media_type: &str,
    video_codec: Option<&str>,
    audio_codec: Option<&str>,
)
    ensures
        final(profiles)@.len() == old(profiles)@.len() + 1,
        forall|i: int| 0 <= i < old(profiles)@.len() ==> final(profiles)@[i] == old(profiles)@[i],
        final(profiles)@[old(profiles)@.len() as int]@ == (
            container@,
            media_type@,
            match video_codec {
                Some(t) => Some(t@),
                None => None::<Seq<char>>,
            },
            match audio_codec {
                Some(t) => Some(t@),
                None => None::<Seq<char>>,
            },
        ),
{
    profiles.push(
        DirectPlayProfile {
            container: container.to_owned(),
            media_type: media_type.to_owned(),
            video_codec: owned_opt(video_codec),
            audio_codec: owned_opt(audio_codec),
        },
    );
}

fn subtitle(profiles: &mut Vec<SubtitleProfile>, format: &str, method: &str, protocol: Option<&str>)
    ensures
        final(profiles)@.len() == old(profiles)@.len() + 1,
        forall|i: int| 0 <= i < old(profiles)@.len() ==> final(profiles)@[i] == old(profiles)@[i],
        final(profiles)@[old(profiles)@.len() as int]@ == (
            format@,
            method@,
            match protocol {
                Some(t) => Some(t@),
                None => None::<Seq<char>>,
            },
        ),
{
    profiles.push(
        SubtitleProfile {
            format: format.to_owned(),
            method: method.to_owned(),
            protocol: owned_opt(protocol),
        },
    );
}

/// The profile of a client that plays everything directly.
pub fn direct_play_profile() -> (p: DeviceProfile)
    ensures
        p.name@ == "Direct play all"@,
        p.max_static_bitrate == 1000000000,
        p.max_streaming_bitrate == 1000000000,
        p.music_streaming_transcoding_bitrate == 1500000,
        p.direct_play_profiles@.map_values(|d: DirectPlayProfile| d@) == direct_play_table(),
        p.subtitle_profiles@.map_values(|s: SubtitleProfile| s@) == subtitle_table(),
{
    let mut d: Vec<DirectPlayProfile> = Vec::new();
    direct_play(&mut d, "mkv", "Video", Some("hevc,h264,av1,vp8,vp9,mp4"), Some("aac,ac3,alac,eac3,dts,flac,mp3,opus,truehd,vorbis"));
    direct_play(&mut d, "mp4,m4v", "Video", Some("hevc,h264,av1,vp8,vp9"), Some("aac,alac,opus,mp3,flac,vorbis"));
    direct_play(&mut d, "flv", "Video", Some("h264"), Some("aac,mp3"));
    direct_play(&mut d, "mov", "Video", Some("h264"), Some("aac,opus,flac,vorbis"));
    direct_play(&mut d, "opus", "Audio", None, None);
    direct_play(&mut d, "mp3", "Audio", None, Some("mp3"));
    direct_play(&mut d, "mp2,mp3", "Audio", None, Some("mp2"));
    direct_play(&mut d, "m4a", "Audio", None, Some("aac"));
    direct_play(&mut d, "mp4", "Audio", None, Some("aac"));
    direct_play(&mut d, "flac", "Audio", None, None);
    direct_play(&mut d, "webma,webm", "Audio", None, None);
    direct_play(&mut d, "wav", "Audio", None, Some("PCM_S16LE,PCM_S24LE"));
    direct_play(&mut d, "ogg", "Audio", None, None);
    direct_play(&mut d, "webm", "Video", Some("av1,VP8,VP9"), Some("vorbis,opus"));
    let mut s: Vec<SubtitleProfile> = Vec::new();
    subtitle(&mut s, "vtt", "Hls", None);
    subtitle(&mut s, "eia_608", "VideoSideData", Some("hls"));
    subtitle(&mut s, "eia_708", "VideoSideData", Some("hls"));
    subtitle(&mut s, "vtt", "External", None);
    subtitle(&mut s, "ass", "External", None);
    subtitle(&mut s, "ssa", "External", None);
    assert(d@.map_values(|x: DirectPlayProfile| x@) =~= direct_play_table());
    assert(s@.map_values(|x: SubtitleProfile| x@) =~= subtitle_table());
    DeviceProfile {
        name: "Direct play all".to_owned(),
        max_static_bitrate: 1000000000,
        max_streaming_bitrate: 1000000000,
        music_streaming_transcoding_bitrate: 1500000,
        direct_play_profiles: d,
        subtitle_profiles: s,
    }
}


/// The playback report for the position in `back`: a direct stream at full
/// volume, unmuted and playing, first audio and subtitle streams, nothing
/// buffered, seekable, entry 0 of a playlist of 23, followed by video.
pub fn playback_report(back: &crate::model::Back) -> (r: PlaybackReport)
    ensures
        r.volume_level == 100,
        !r.is_muted,
        !r.is_paused,
        r.repeat_mode@ == "RepeatNone"@,
        r.subtitle_offset == 0,
        r.playback_rate == 1,
        r.max_streaming_bitrate == 4000000,
        r.position_ticks == back.tick,
        r.playback_start_time_ticks == 0,
        r.subtitle_stream_index == 1,
        r.audio_stream_index == 1,
        r.play_method@ == "DirectStream"@,
        opt_str(r.play_session_id) == opt_str(back.playsessionid),
        r.media_source_id@ == back.mediasourceid@,
        r.can_seek,
        r.item_id@ == back.id@,
        r.playlist_index == 0,
        r.playlist_length == 23,
        r.next_media_type@ == "Video"@,
{
    let play_session_id = match &back.playsessionid {
        Some(s) => Some(s.clone()),
        None => None,
    };
    PlaybackReport {
        volume_level: 100,
        is_muted: false,
        is_paused: false,
        repeat_mode: "RepeatNone".to_owned(),
        subtitle_offset: 0,
        playback_rate: 1,
        max_streaming_bitrate: 4000000,
        position_ticks: back.tick,
        playback_start_time_ticks: 0,
        subtitle_stream_index: 1,
        audio_stream_index: 1,
        play_method: "DirectStream".to_owned(),
        play_session_id,
        media_source_id: back.mediasourceid.clone(),
        can_seek: true,
        item_id: back.id.clone(),
        playlist_index: 0,
        playlist_length: 23,
        next_media_type: "Video".to_owned(),
    }
}

} // verus!
