use tsukimi::body::direct_play_profile;
use tsukimi::endpoints::{
    item_overview_request, latest_request, library_request, list_request, login_request, markwatched_request,
    mediainfo_request, person_item_request, playback_info_request, report_request, resume_request,
    search_recommend_request, search_request, series_info_request, similar_request, sub_request, PlaybackEvent,
};
use tsukimi::model::{Back, ClientIdentity, ServerInfo};
use tsukimi::request::{ApiRequest, Method, Param, Payload, Reply};

fn server() -> ServerInfo {
    ServerInfo {
        domain: "http://media.example".to_string(),
        port: "8096".to_string(),
        user_id: "u42".to_string(),
        access_token: "tok".to_string(),
    }
}

fn identity() -> ClientIdentity {
    ClientIdentity {
        device_name: "desk".to_string(),
        device_id: "uuid-1".to_string(),
        client_version: "0.3.0".to_string(),
    }
}

fn pairs(ps: &[Param]) -> Vec<(String, String)> {
    ps.iter().map(|p| (p.key.clone(), p.value.clone())).collect()
}

fn expect(prefix: &[(&str, &str)], suffix: &[(&str, &str)]) -> Vec<(String, String)> {
    prefix.iter().chain(suffix.iter()).map(|(k, v)| (k.to_string(), v.to_string())).collect()
}

const SESSION: [(&str, &str); 6] = [
    ("X-Emby-Client", "Tsukimi"),
    ("X-Emby-Device-Name", "desk"),
    ("X-Emby-Device-Id", "uuid-1"),
    ("X-Emby-Client-Version", "0.3.0"),
    ("X-Emby-Token", "tok"),
    ("X-Emby-Language", "zh-cn"),
];

const SESSION_JSON: [(&str, &str); 7] = [
    ("X-Emby-Client", "Tsukimi"),
    ("X-Emby-Device-Name", "desk"),
    ("X-Emby-Device-Id", "uuid-1"),
    ("X-Emby-Client-Version", "0.3.0"),
    ("X-Emby-Token", "tok"),
    ("X-Emby-Language", "zh-cn"),
    ("reqformat", "json"),
];

fn assert_get(r: &ApiRequest, url: &str, reply: Reply) {
    assert_eq!(r.method, Method::Get);
    assert_eq!(r.url, url);
    assert!(r.headers.is_empty());
    assert!(matches!(r.body, Payload::Empty));
    assert_eq!(r.reply, reply);
}

fn carries_token(r: &ApiRequest, token: &str) -> bool {
    r.query.iter().any(|p| p.key == "X-Emby-Token" && p.value == token)
}

#[test]
fn login_call() {
    let r = login_request("http://media.example", "8096", "alice", "secret", &identity());
    assert_eq!(r.method, Method::Post);
    assert_eq!(r.url, "http://media.example:8096/emby/Users/authenticatebyname");
    assert!(r.query.is_empty());
    assert_eq!(
        pairs(&r.headers),
        expect(
            &[
                ("X-Emby-Client", "Tsukimi"),
                ("X-Emby-Device-Name", "desk"),
                ("X-Emby-Device-Id", "uuid-1"),
                ("X-Emby-Client-Version", "0.3.0"),
                ("X-Emby-Language", "zh-cn"),
            ],
            &[]
        )
    );
    match &r.body {
        Payload::Login(b) => {
            assert_eq!(b.username, "alice");
            assert_eq!(b.password, "secret");
        }
        _ => panic!("login body expected"),
    }
    assert_eq!(r.reply, Reply::WholeBody);
}

#[test]
fn search_call() {
    let r = search_request(&server(), &identity(), "lain");
    assert_get(&r, "http://media.example:8096/emby/Users/u42/Items", Reply::ItemsField);
    assert_eq!(
        pairs(&r.query),
        expect(
            &[
                ("Fields", "BasicSyncInfo,CanDelete,PrimaryImageAspectRatio,ProductionYear,Status,EndDate"),
                ("IncludeItemTypes", "Movie,Series"),
                ("StartIndex", "0"),
                ("SortBy", "SortName"),
                ("SortOrder", "Ascending"),
                ("EnableImageTypes", "Primary,Backdrop,Thumb"),
                ("ImageTypeLimit", "1"),
                ("Recursive", "true"),
                ("SearchTerm", "lain"),
                ("GroupProgramsBySeries", "true"),
                ("Limit", "50"),
            ],
            &SESSION
        )
    );
}

#[test]
fn series_info_call() {
    let r = series_info_request(&server(), &identity(), "s1");
    assert_get(&r, "http://media.example:8096/emby/Shows/s1/Episodes", Reply::ItemsField);
    assert_eq!(
        pairs(&r.query),
        expect(
            &[
                ("Fields", "Overview"),
                ("EnableTotalRecordCount", "true"),
                ("EnableImages", "true"),
                ("UserId", "u42"),
            ],
            &SESSION
        )
    );
}

#[test]
fn item_overview_and_mediainfo_calls_coincide() {
    let a = item_overview_request(&server(), &identity(), "i9");
    let b = mediainfo_request(&server(), &identity(), "i9");
    assert_get(&a, "http://media.example:8096/emby/Users/u42/Items/i9", Reply::WholeBody);
    assert_get(&b, "http://media.example:8096/emby/Users/u42/Items/i9", Reply::WholeBody);
    assert_eq!(pairs(&a.query), expect(&[("Fields", "ShareLevel")], &SESSION));
    assert_eq!(pairs(&a.query), pairs(&b.query));
}

#[test]
fn markwatched_call() {
    let r = markwatched_request(&server(), &identity(), "i9", "src3");
    assert_eq!(r.method, Method::Post);
    assert_eq!(r.url, "http://media.example:8096/emby/Users/u42/PlayingItems/i9");
    assert_eq!(pairs(&r.query), expect(&[], &SESSION_JSON));
    match &r.body {
        Payload::PlayingItem(b) => {
            assert_eq!(b.user_id, "u42");
            assert_eq!(b.id, "i9");
            assert_eq!(b.media_source_id, "src3");
        }
        _ => panic!("playing-item body expected"),
    }
    assert_eq!(r.reply, Reply::Text);
}

#[test]
fn resume_call() {
    let r = resume_request(&server(), &identity());
    assert_get(&r, "http://media.example:8096/emby/Users/u42/Items/Resume", Reply::ItemsField);
    assert_eq!(
        pairs(&r.query),
        expect(
            &[
                ("Recursive", "true"),
                ("Fields", "BasicSyncInfo,CanDelete,PrimaryImageAspectRatio,ProductionYear"),
                ("EnableImageTypes", "Primary,Backdrop,Thumb"),
                ("ImageTypeLimit", "1"),
                ("MediaTypes", "Video"),
                ("Limit", "8"),
            ],
            &SESSION
        )
    );
}

#[test]
fn playback_info_call() {
    let r = playback_info_request(&server(), &identity(), "i9");
    assert_eq!(r.method, Method::Post);
    assert_eq!(r.url, "http://media.example:8096/emby/Items/i9/PlaybackInfo");
    assert_eq!(
        pairs(&r.query),
        expect(
            &[
                ("StartTimeTicks", "0"),
                ("UserId", "u42"),
                ("AutoOpenLiveStream", "false"),
                ("IsPlayback", "false"),
                ("AudioStreamIndex", "1"),
                ("SubtitleStreamIndex", "1"),
                ("MaxStreamingBitrate", "160000000"),
            ],
            &SESSION_JSON
        )
    );
    match &r.body {
        Payload::Profile(p) => assert_eq!(p.name, "Direct play all"),
        _ => panic!("device profile expected"),
    }
    assert_eq!(r.reply, Reply::WholeBody);
}

#[test]
fn sub_call() {
    let r = sub_request(&server(), &identity(), "i9", "src3");
    assert_eq!(r.method, Method::Post);
    assert_eq!(r.url, "http://media.example:8096/emby/Items/i9/PlaybackInfo");
    assert_eq!(
        pairs(&r.query),
        expect(
            &[
                ("StartTimeTicks", "0"),
                ("UserId", "u42"),
                ("AutoOpenLiveStream", "true"),
                ("IsPlayback", "true"),
                ("AudioStreamIndex", "1"),
                ("SubtitleStreamIndex", "1"),
                ("MediaSourceId", "src3"),
                ("MaxStreamingBitrate", "4000000"),
            ],
            &SESSION_JSON
        )
    );
    assert!(matches!(r.body, Payload::Profile(_)));
    assert_eq!(r.reply, Reply::WholeBody);
}

#[test]
fn library_latest_and_list_calls() {
    let r = library_request(&server(), &identity());
    assert_get(&r, "http://media.example:8096/emby/Users/u42/Views", Reply::ItemsField);
    assert_eq!(pairs(&r.query), expect(&[], &SESSION));

    let r = latest_request(&server(), &identity(), "lib7");
    assert_get(&r, "http://media.example:8096/emby/Users/u42/Items/Latest", Reply::WholeBody);
    assert_eq!(
        pairs(&r.query),
        expect(
            &[
                ("Limit", "16"),
                ("Fields", "BasicSyncInfo,CanDelete,PrimaryImageAspectRatio,ProductionYear"),
                ("ParentId", "lib7"),
                ("ImageTypeLimit", "1"),
                ("EnableImageTypes", "Primary,Backdrop,Thumb"),
            ],
            &SESSION
        )
    );

    let r = list_request(&server(), &identity(), "lib7", "100");
    assert_get(&r, "http://media.example:8096/emby/Users/u42/Items", Reply::WholeBody);
    assert_eq!(
        pairs(&r.query),
        expect(
            &[
                ("Limit", "50"),
                ("Fields", "BasicSyncInfo,CanDelete,PrimaryImageAspectRatio,ProductionYear,Status,EndDate"),
                ("ParentId", "lib7"),
                ("ImageTypeLimit", "1"),
                ("StartIndex", "100"),
                ("Recursive", "True"),
                ("IncludeItemTypes", "Movie,Series,MusicAlbum"),
                ("SortBy", "DateCreated,SortName"),
                ("SortOrder", "Descending"),
                ("EnableImageTypes", "Primary,Backdrop,Thumb"),
            ],
            &SESSION
        )
    );
}

#[test]
fn similar_person_and_recommend_calls() {
    let r = similar_request(&server(), &identity(), "i9");
    assert_get(&r, "http://media.example:8096/emby/Items/i9/Similar", Reply::ItemsField);
    assert_eq!(
        pairs(&r.query),
        expect(
            &[
                ("Fields", "BasicSyncInfo,CanDelete,PrimaryImageAspectRatio,ProductionYear,Status,EndDate"),
                ("UserId", "u42"),
                ("ImageTypeLimit", "1"),
                ("Limit", "12"),
            ],
            &SESSION
        )
    );

    let r = person_item_request(&server(), &identity(), "p5", "Movie");
    assert_get(&r, "http://media.example:8096/emby/Users/u42/Items", Reply::ItemsField);
    assert_eq!(
        pairs(&r.query),
        expect(
            &[
                ("Fields", "PrimaryImageAspectRatio,ProductionYear"),
                ("PersonIds", "p5"),
                ("Recursive", "true"),
                ("CollapseBoxSetItems", "false"),
                ("SortBy", "SortName"),
                ("SortOrder", "Ascending"),
                ("IncludeItemTypes", "Movie"),
                ("ImageTypeLimit", "1"),
                ("Limit", "12"),
            ],
            &SESSION
        )
    );

    let r = search_recommend_request(&server(), &identity());
    assert_get(&r, "http://media.example:8096/emby/Users/u42/Items", Reply::WholeBody);
    assert_eq!(
        pairs(&r.query),
        expect(
            &[
                ("Limit", "20"),
                ("EnableTotalRecordCount", "false"),
                ("ImageTypeLimit", "0"),
                ("Recursive", "true"),
                ("IncludeItemTypes", "Movie,Series"),
                ("SortBy", "IsFavoriteOrLiked,Random"),
                ("Recursive", "true"),
            ],
            &SESSION
        )
    );
}

#[test]
fn playback_report_calls() {
    let back = Back {
        id: "i9".to_string(),
        playsessionid: Some("ps1".to_string()),
        mediasourceid: "src3".to_string(),
        tick: 123456789,
    };
    let s = server();
    let c = identity();
    let urls = [
        (PlaybackEvent::Started, "http://media.example:8096/emby/Sessions/Playing"),
        (PlaybackEvent::Progress, "http://media.example:8096/emby/Sessions/Playing/Progress"),
        (PlaybackEvent::Stopped, "http://media.example:8096/emby/Sessions/Playing/Stopped"),
    ];
    for (event, url) in urls {
        let r = report_request(&s, &c, event, &back);
        assert_eq!(r.method, Method::Post);
        assert_eq!(r.url, url);
        assert_eq!(
            pairs(&r.query),
            expect(
                &[
                    ("X-Emby-Client-Version", "0.3.0"),
                    ("X-Emby-Device-Name", "desk"),
                    ("X-Emby-Device-Id", "uuid-1"),
                    ("X-Emby-Token", "tok"),
                    ("X-Emby-Language", "zh-cn"),
                    ("reqformat", "json"),
                ],
                &[]
            )
        );
        match &r.body {
            Payload::Report(p) => {
                assert_eq!(p.volume_level, 100);
                assert!(!p.is_muted);
                assert!(!p.is_paused);
                assert_eq!(p.repeat_mode, "RepeatNone");
                assert_eq!(p.subtitle_offset, 0);
                assert_eq!(p.playback_rate, 1);
                assert_eq!(p.max_streaming_bitrate, 4000000);
                assert_eq!(p.position_ticks, 123456789);
                assert_eq!(p.playback_start_time_ticks, 0);
                assert_eq!(p.subtitle_stream_index, 1);
                assert_eq!(p.audio_stream_index, 1);
                assert_eq!(p.play_method, "DirectStream");
                assert_eq!(p.play_session_id.as_deref(), Some("ps1"));
                assert_eq!(p.media_source_id, "src3");
                assert!(p.can_seek);
                assert_eq!(p.item_id, "i9");
                assert_eq!(p.playlist_index, 0);
                assert_eq!(p.playlist_length, 23);
                assert_eq!(p.next_media_type, "Video");
            }
            _ => panic!("report body expected"),
        }
        assert_eq!(r.reply, Reply::Ignored);
    }
}

#[test]
fn every_session_call_carries_the_token() {
    let s = server();
    let c = identity();
    let back = Back { id: "i".into(), playsessionid: None, mediasourceid: "m".into(), tick: 0 };
    let calls = vec![
        search_request(&s, &c, "x"),
        series_info_request(&s, &c, "x"),
        item_overview_request(&s, &c, "x"),
        mediainfo_request(&s, &c, "x"),
        markwatched_request(&s, &c, "x", "y"),
        resume_request(&s, &c),
        playback_info_request(&s, &c, "x"),
        sub_request(&s, &c, "x", "y"),
        library_request(&s, &c),
        latest_request(&s, &c, "x"),
        list_request(&s, &c, "x", "0"),
        search_recommend_request(&s, &c),
        person_item_request(&s, &c, "x", "Movie"),
        similar_request(&s, &c, "x"),
        report_request(&s, &c, PlaybackEvent::Progress, &back),
    ];
    for r in &calls {
        assert!(carries_token(r, "tok"));
        assert!(r.url.starts_with("http://media.example:8096/emby/"));
    }
}

#[test]
fn device_profile_tables() {
    let p = direct_play_profile();
    assert_eq!(p.name, "Direct play all");
    assert_eq!(p.max_static_bitrate, 1000000000);
    assert_eq!(p.max_streaming_bitrate, 1000000000);
    assert_eq!(p.music_streaming_transcoding_bitrate, 1500000);
    assert_eq!(p.direct_play_profiles.len(), 14);
    assert_eq!(p.direct_play_profiles[0].container, "mkv");
    assert_eq!(p.direct_play_profiles[0].video_codec.as_deref(), Some("hevc,h264,av1,vp8,vp9,mp4"));
    assert_eq!(p.direct_play_profiles[4].container, "opus");
    assert_eq!(p.direct_play_profiles[4].audio_codec, None);
    assert_eq!(p.direct_play_profiles[11].audio_codec.as_deref(), Some("PCM_S16LE,PCM_S24LE"));
    assert_eq!(p.direct_play_profiles[13].video_codec.as_deref(), Some("av1,VP8,VP9"));
    assert_eq!(p.subtitle_profiles.len(), 6);
    assert_eq!(p.subtitle_profiles[1].format, "eia_608");
    assert_eq!(p.subtitle_profiles[1].protocol.as_deref(), Some("hls"));
    assert_eq!(p.subtitle_profiles[5].format, "ssa");
    assert_eq!(p.subtitle_profiles[5].method, "External");
}
