//! The calls that the client makes, one builder per call.
//!
//! Every builder states the exact method, URL, query, headers, body and
//! reply handling of its call. Calls made for the signed-in user go to that
//! user's server and carry the session's access token.

use vstd::prelude::*;
use crate::body::{direct_play_profile, direct_play_table, opt_str, playback_report, subtitle_table, LoginBody, PlayingItemBody};
use crate::model::{Back, ClientIdentity, ServerInfo};
use crate::request::{
    api_root, api_root_url, has_param, login_header_list, login_headers, params_view, push_param,
    push_session_params, push_session_params_json, report_params, report_query, session_params,
    ApiRequest, Method, Param, Payload, Reply,
};

verus! {

/// `r` is addressed to the API of the server of `s` and carries the access
/// token of `s`.
pub open spec fn session_call(r: ApiRequest, s: ServerInfo) -> bool {
    &&& api_root(s.domain@, s.port@).is_prefix_of(r.url@)
    &&& has_param(params_view(r.query@), "X-Emby-Token"@, s.access_token@)
}

/// Any query that ends with the session parameters carries the token.
pub proof fn lemma_session_params_carry_token(
    prefix: Seq<(Seq<char>, Seq<char>)>,
    c: ClientIdentity,
    token: Seq<char>,
    suffix: Seq<(Seq<char>, Seq<char>)>,
)
    ensures
        has_param(prefix + session_params(c, token) + suffix, "X-Emby-Token"@, token),
{
    let all = prefix + session_params(c, token) + suffix;
    assert(all[prefix.len() as int + 4] == ("X-Emby-Token"@, token));
}

/// The report parameters carry the token.
pub proof fn lemma_report_params_carry_token(c: ClientIdentity, token: Seq<char>)
    ensures
        has_param(report_params(c, token), "X-Emby-Token"@, token),
{
    assert(report_params(c, token)[3] == ("X-Emby-Token"@, token));
}

/// A URL built on the API root stays under it.
pub proof fn lemma_root_prefix(domain: Seq<char>, port: Seq<char>, rest: Seq<char>)
    ensures
        api_root(domain, port).is_prefix_of(api_root(domain, port) + rest),
{
    let root = api_root(domain, port);
    assert((root + rest).subrange(0, root.len() as int) =~= root);
}

/// A call whose URL is the API root followed by `rest`, and whose query
/// holds the session parameters, is a session call.
pub proof fn lemma_session_call(
    r: ApiRequest,
    s: ServerInfo,
    c: ClientIdentity,
    rest: Seq<char>,
    prefix: Seq<(Seq<char>, Seq<char>)>,
    suffix: Seq<(Seq<char>, Seq<char>)>,
)
    requires
        r.url@ == api_root(s.domain@, s.port@) + rest,
        params_view(r.query@) == prefix + session_params(c, s.access_token@) + suffix,
    ensures
        session_call(r, s),
{
    lemma_root_prefix(s.domain@, s.port@, rest);
    lemma_session_params_carry_token(prefix, c, s.access_token@, suffix);
}

/// The fields asked for in item listings that show series status.
pub open spec fn listing_fields() -> Seq<char> {
    "BasicSyncInfo,CanDelete,PrimaryImageAspectRatio,ProductionYear,Status,EndDate"@
}

/// The fields asked for in the shorter listings.
pub open spec fn short_listing_fields() -> Seq<char> {
    "BasicSyncInfo,CanDelete,PrimaryImageAspectRatio,ProductionYear"@
}

/// The image types asked for in listings.
pub open spec fn listing_images() -> Seq<char> {
    "Primary,Backdrop,Thumb"@
}

// ---------------------------------------------------------------- sign-in

/// The address of the sign-in call.
pub open spec fn login_url(server: Seq<char>, port: Seq<char>) -> Seq<char> {
    api_root(server, port) + "Users/authenticatebyname"@
}

/// Signs in as `username` with `password` at the server `server:port`.
/// The reply's `User.Id` and `AccessToken` open the session.
pub fn login_request(server: &str, port: &str, username: &str, password: &str, c: &ClientIdentity) -> (r: ApiRequest)
    ensures
        r.method == Method::Post,
        r.url@ == login_url(server@, port@),
        r.query@.len() == 0,
        params_view(r.headers@) == login_headers(*c),
        r.body matches Payload::Login(b) && b.username@ == username@ && b.password@ == password@,
        r.reply == Reply::WholeBody,
{
    let mut url = api_root_url(server, port);
    url.append("Users/authenticatebyname");
    ApiRequest {
        method: Method::Post,
        url,
        query: Vec::new(),
        headers: login_header_list(c),
        body: Payload::Login(LoginBody { username: username.to_owned(), password: password.to_owned() }),
        reply: Reply::WholeBody,
    }
}

// ---------------------------------------------------------------- search

/// The address of the user's item listing.
pub open spec fn user_items_url(s: ServerInfo) -> Seq<char> {
    api_root(s.domain@, s.port@) + "Users/"@ + s.user_id@ + "/Items"@
}

fn user_items(s: &ServerInfo) -> (url: String)
    ensures
        url@ == user_items_url(*s),
{
    let mut url = api_root_url(s.domain.as_str(), s.port.as_str());
    url.append("Users/");
    url.append(s.user_id.as_str());
    url.append("/Items");
    url
}

/// A call to the user's item listing with the session parameters last is
/// a session call.
proof fn lemma_user_items_call(r: ApiRequest, s: ServerInfo, c: ClientIdentity, prefix: Seq<(Seq<char>, Seq<char>)>)
    requires
        r.url@ == user_items_url(s),
        params_view(r.query@) == prefix + session_params(c, s.access_token@),
    ensures
        session_call(r, s),
{
    let rest = "Users/"@ + s.user_id@ + "/Items"@;
    assert(r.url@ =~= api_root(s.domain@, s.port@) + rest);
    assert(params_view(r.query@) =~= prefix + session_params(c, s.access_token@) + seq![]);
    lemma_session_call(r, s, c, rest, prefix, seq![]);
}

/// The query of a search for `term`, before the session parameters.
pub open spec fn search_query(term: Seq<char>) -> Seq<(Seq<char>, Seq<char>)> {
    seq![
        ("Fields"@, listing_fields()),
        ("IncludeItemTypes"@, "Movie,Series"@),
        ("StartIndex"@, "0"@),
        ("SortBy"@, "SortName"@),
        ("SortOrder"@, "Ascending"@),
        ("EnableImageTypes"@, listing_images()),
        ("ImageTypeLimit"@, "1"@),
        ("Recursive"@, "true"@),
        ("SearchTerm"@, term),
        ("GroupProgramsBySeries"@, "true"@),
        ("Limit"@, "50"@),
    ]
}

/// Searches the user's movies and series for `searchinfo`, at most 50 hits
/// by name; the hits are under `Items`.
pub fn search_request(s: &ServerInfo, c: &ClientIdentity, searchinfo: &str) -> (r: ApiRequest)
    ensures
        r.method == Method::Get,
        r.url@ == user_items_url(*s),
        params_view(r.query@) == search_query(searchinfo@) + session_params(*c, s.access_token@),
        r.headers@.len() == 0,
        r.body is Empty,
        r.reply == Reply::ItemsField,
        session_call(r, *s),
{
    let mut q: Vec<Param> = Vec::new();
    push_param(&mut q, "Fields", "BasicSyncInfo,CanDelete,PrimaryImageAspectRatio,ProductionYear,Status,EndDate");
    push_param(&mut q, "IncludeItemTypes", "Movie,Series");
    push_param(&mut q, "StartIndex", "0");
    push_param(&mut q, "SortBy", "SortName");
    push_param(&mut q, "SortOrder", "Ascending");
    push_param(&mut q, "EnableImageTypes", "Primary,Backdrop,Thumb");
    push_param(&mut q, "ImageTypeLimit", "1");
    push_param(&mut q, "Recursive", "true");
    push_param(&mut q, "SearchTerm", searchinfo);
    push_param(&mut q, "GroupProgramsBySeries", "true");
    push_param(&mut q, "Limit", "50");
    assert(params_view(q@) =~= search_query(searchinfo@));
    push_session_params(&mut q, c, s.access_token.as_str());
    let r = ApiRequest {
        method: Method::Get,
        url: user_items(s),
        query: q,
        headers: Vec::new(),
        body: Payload::Empty,
        reply: Reply::ItemsField,
    };
    proof {
        lemma_user_items_call(r, *s, *c, search_query(searchinfo@));
    }
    r
}

// ---------------------------------------------------------------- episodes

/// The address of the episode listing of a series.
pub open spec fn episodes_url(s: ServerInfo, id: Seq<char>) -> Seq<char> {
    api_root(s.domain@, s.port@) + "Shows/"@ + id + "/Episodes"@
}

/// The query of an episode listing, before the session parameters.
pub open spec fn series_info_query(user_id: Seq<char>) -> Seq<(Seq<char>, Seq<char>)> {
    seq![
        ("Fields"@, "Overview"@),
        ("EnableTotalRecordCount"@, "true"@),
        ("EnableImages"@, "true"@),
        ("UserId"@, user_id),
    ]
}

/// Lists the episodes, with overviews, of the series `id`; the episodes are
/// under `Items`.
pub fn series_info_request(s: &ServerInfo, c: &ClientIdentity, id: &str) -> (r: ApiRequest)
    ensures
        r.method == Method::Get,
        r.url@ == episodes_url(*s, id@),
        params_view(r.query@) == series_info_query(s.user_id@) + session_params(*c, s.access_token@),
        r.headers@.len() == 0,
        r.body is Empty,
        r.reply == Reply::ItemsField,
        session_call(r, *s),
{
    let mut url = api_root_url(s.domain.as_str(), s.port.as_str());
    url.append("Shows/");
    url.append(id);
    url.append("/Episodes");
    let mut q: Vec<Param> = Vec::new();
    push_param(&mut q, "Fields", "Overview");
    push_param(&mut q, "EnableTotalRecordCount", "true");
    push_param(&mut q, "EnableImages", "true");
    push_param(&mut q, "UserId", s.user_id.as_str());
    assert(params_view(q@) =~= series_info_query(s.user_id@));
    push_session_params(&mut q, c, s.access_token.as_str());
    let r = ApiRequest { method: Method::Get, url, query: q, headers: Vec::new(), body: Payload::Empty, reply: Reply::ItemsField };
    proof {
        let rest = "Shows/"@ + id@ + "/Episodes"@;
        assert(r.url@ =~= api_root(s.domain@, s.port@) + rest);
        assert(params_view(r.query@) =~= series_info_query(s.user_id@) + session_params(*c, s.access_token@) + seq![]);
        lemma_session_call(r, *s, *c, rest, series_info_query(s.user_id@), seq![]);
    }
    r
}

// ---------------------------------------------------------------- one item

/// The address of one item of the user.
pub open spec fn user_item_url(s: ServerInfo, id: Seq<char>) -> Seq<char> {
    api_root(s.domain@, s.port@) + "Users/"@ + s.user_id@ + "/Items/"@ + id
}

/// The query of an item's description, before the session parameters.
pub open spec fn item_query() -> Seq<(Seq<char>, Seq<char>)> {
    seq![("Fields"@, "ShareLevel"@)]
}

/// Asks for the full description of the item `id`, read from the whole reply.
pub fn item_overview_request(s: &ServerInfo, c: &ClientIdentity, id: &str) -> (r: ApiRequest)
    ensures
        r.method == Method::Get,
        r.url@ == user_item_url(*s, id@),
        params_view(r.query@) == item_query() + session_params(*c, s.access_token@),
        r.headers@.len() == 0,
        r.body is Empty,
        r.reply == Reply::WholeBody,
        session_call(r, *s),
{
    let mut url = api_root_url(s.domain.as_str(), s.port.as_str());
    url.append("Users/");
    url.append(s.user_id.as_str());
    url.append("/Items/");
    url.append(id);
    let mut q: Vec<Param> = Vec::new();
    push_param(&mut q, "Fields", "ShareLevel");
    assert(params_view(q@) =~= item_query());
    push_session_params(&mut q, c, s.access_token.as_str());
    let r = ApiRequest { method: Method::Get, url, query: q, headers: Vec::new(), body: Payload::Empty, reply: Reply::WholeBody };
    proof {
        let rest = "Users/"@ + s.user_id@ + "/Items/"@ + id@;
        assert(r.url@ =~= api_root(s.domain@, s.port@) + rest);
        assert(params_view(r.query@) =~= item_query() + session_params(*c, s.access_token@) + seq![]);
        lemma_session_call(r, *s, *c, rest, item_query(), seq![]);
    }
    r
}

/// Asks for the media sources of the item `id`: the same call as
/// [`item_overview_request`], whose reply is read for its media sources.
pub fn mediainfo_request(s: &ServerInfo, c: &ClientIdentity, id: &str) -> (r: ApiRequest)
    ensures
        r.method == Method::Get,
        r.url@ == user_item_url(*s, id@),
        params_view(r.query@) == item_query() + session_params(*c, s.access_token@),
        r.headers@.len() == 0,
        r.body is Empty,
        r.reply == Reply::WholeBody,
        session_call(r, *s),
{
    item_overview_request(s, c, id)
}

// ---------------------------------------------------------------- now playing

/// The address that announces that the user plays the item `id`.
pub open spec fn playing_item_url(s: ServerInfo, id: Seq<char>) -> Seq<char> {
    api_root(s.domain@, s.port@) + "Users/"@ + s.user_id@ + "/PlayingItems/"@ + id
}

/// Announces that the user plays the source `sourceid` of the item `id`;
/// the reply is kept as text.
pub fn markwatched_request(s: &ServerInfo, c: &ClientIdentity, id: &str, sourceid: &str) -> (r: ApiRequest)
    ensures
        r.method == Method::Post,
        r.url@ == playing_item_url(*s, id@),
        params_view(r.query@) == session_params(*c, s.access_token@) + seq![("reqformat"@, "json"@)],
        r.headers@.len() == 0,
        r.body matches Payload::PlayingItem(b) && b.user_id@ == s.user_id@ && b.id@ == id@
            && b.media_source_id@ == sourceid@,
        r.reply == Reply::Text,
        session_call(r, *s),
{
    let mut url = api_root_url(s.domain.as_str(), s.port.as_str());
    url.append("Users/");
    url.append(s.user_id.as_str());
    url.append("/PlayingItems/");
    url.append(id);
    let mut q: Vec<Param> = Vec::new();
    push_session_params_json(&mut q, c, s.access_token.as_str());
    let body = PlayingItemBody { user_id: s.user_id.clone(), id: id.to_owned(), media_source_id: sourceid.to_owned() };
    let r = ApiRequest { method: Method::Post, url, query: q, headers: Vec::new(), body: Payload::PlayingItem(body), reply: Reply::Text };
    proof {
        let rest = "Users/"@ + s.user_id@ + "/PlayingItems/"@ + id@;
        assert(r.url@ =~= api_root(s.domain@, s.port@) + rest);
        assert(params_view(r.query@) =~= seq![] + session_params(*c, s.access_token@) + seq![("reqformat"@, "json"@)]);
        lemma_session_call(r, *s, *c, rest, seq![], seq![("reqformat"@, "json"@)]);
    }
    r
}

// ---------------------------------------------------------------- resume

/// The address of the items whose playback can be resumed.
pub open spec fn resume_url(s: ServerInfo) -> Seq<char> {
    api_root(s.domain@, s.port@) + "Users/"@ + s.user_id@ + "/Items/Resume"@
}

/// The query of the resume listing, before the session parameters.
pub open spec fn resume_query() -> Seq<(Seq<char>, Seq<char>)> {
    seq![
        ("Recursive"@, "true"@),
        ("Fields"@, short_listing_fields()),
        ("EnableImageTypes"@, listing_images()),
        ("ImageTypeLimit"@, "1"@),
        ("MediaTypes"@, "Video"@),
        ("Limit"@, "8"@),
    ]
}

/// Lists at most 8 videos whose playback can be resumed; they are under `Items`.
pub fn resume_request(s: &ServerInfo, c: &ClientIdentity) -> (r: ApiRequest)
    ensures
        r.method == Method::Get,
        r.url@ == resume_url(*s),
        params_view(r.query@) == resume_query() + session_params(*c, s.access_token@),
        r.headers@.len() == 0,
        r.body is Empty,
        r.reply == Reply::ItemsField,
        session_call(r, *s),
{
    let mut url = api_root_url(s.domain.as_str(), s.port.as_str());
    url.append("Users/");
    url.append(s.user_id.as_str());
    url.append("/Items/Resume");
    let mut q: Vec<Param> = Vec::new();
    push_param(&mut q, "Recursive", "true");
    push_param(&mut q, "Fields", "BasicSyncInfo,CanDelete,PrimaryImageAspectRatio,ProductionYear");
    push_param(&mut q, "EnableImageTypes", "Primary,Backdrop,Thumb");
    push_param(&mut q, "ImageTypeLimit", "1");
    push_param(&mut q, "MediaTypes", "Video");
    push_param(&mut q, "Limit", "8");
    assert(params_view(q@) =~= resume_query());
    push_session_params(&mut q, c, s.access_token.as_str());
    let r = ApiRequest { method: Method::Get, url, query: q, headers: Vec::new(), body: Payload::Empty, reply: Reply::ItemsField };
    proof {
        let rest = "Users/"@ + s.user_id@ + "/Items/Resume"@;
        assert(r.url@ =~= api_root(s.domain@, s.port@) + rest);
        assert(params_view(r.query@) =~= resume_query() + session_params(*c, s.access_token@) + seq![]);
        lemma_session_call(r, *s, *c, rest, resume_query(), seq![]);
    }
    r
}

// ---------------------------------------------------------------- playback information

/// The address of the playback information of the item `id`.
pub open spec fn playback_info_url(s: ServerInfo, id: Seq<char>) -> Seq<char> {
    api_root(s.domain@, s.port@) + "Items/"@ + id + "/PlaybackInfo"@
}

/// The query that asks how the item would play, before the session parameters.
pub open spec fn playback_info_query(user_id: Seq<char>) -> Seq<(Seq<char>, Seq<char>)> {
    seq![
        ("StartTimeTicks"@, "0"@),
        ("UserId"@, user_id),
        ("AutoOpenLiveStream"@, "false"@),
        ("IsPlayback"@, "false"@),
        ("AudioStreamIndex"@, "1"@),
        ("SubtitleStreamIndex"@, "1"@),
        ("MaxStreamingBitrate"@, "160000000"@),
    ]
}

/// The query that opens playback of the source `sourceid`, before the
/// session parameters.
pub open spec fn sub_query(user_id: Seq<char>, sourceid: Seq<char>) -> Seq<(Seq<char>, Seq<char>)> {
    seq![
        ("StartTimeTicks"@, "0"@),
        ("UserId"@, user_id),
        ("AutoOpenLiveStream"@, "true"@),
        ("IsPlayback"@, "true"@),
        ("AudioStreamIndex"@, "1"@),
        ("SubtitleStreamIndex"@, "1"@),
        ("MediaSourceId"@, sourceid),
        ("MaxStreamingBitrate"@, "4000000"@),
    ]
}

/// The body carries the direct-play device profile.
pub open spec fn carries_direct_play_profile(body: Payload) -> bool {
    body matches Payload::Profile(p) && {
        &&& p.name@ == "Direct play all"@
        &&& p.max_static_bitrate == 1000000000
        &&& p.max_streaming_bitrate == 1000000000
        &&& p.music_streaming_transcoding_bitrate == 1500000
        &&& p.direct_play_profiles@.map_values(|d: crate::body::DirectPlayProfile| d@) == direct_play_table()
        &&& p.subtitle_profiles@.map_values(|t: crate::body::SubtitleProfile| t@) == subtitle_table()
    }
}

fn playback_info_url_of(s: &ServerInfo, id: &str) -> (url: String)
    ensures
        url@ == playback_info_url(*s, id@),
{
    let mut url = api_root_url(s.domain.as_str(), s.port.as_str());
    url.append("Items/");
    url.append(id);
    url.append("/PlaybackInfo");
    url
}

/// Asks how the item `id` would play on a client that plays everything
/// directly, without starting playback; read from the whole reply.
pub fn playback_info_request(s: &ServerInfo, c: &ClientIdentity, id: &str) -> (r: ApiRequest)
    ensures
        r.method == Method::Post,
        r.url@ == playback_info_url(*s, id@),
        params_view(r.query@) == playback_info_query(s.user_id@) + session_params(*c, s.access_token@)
            + seq![("reqformat"@, "json"@)],
        r.headers@.len() == 0,
        carries_direct_play_profile(r.body),
        r.reply == Reply::WholeBody,
        session_call(r, *s),
{
    let mut q: Vec<Param> = Vec::new();
    push_param(&mut q, "StartTimeTicks", "0");
    push_param(&mut q, "UserId", s.user_id.as_str());
    push_param(&mut q, "AutoOpenLiveStream", "false");
    push_param(&mut q, "IsPlayback", "false");
    push_param(&mut q, "AudioStreamIndex", "1");
    push_param(&mut q, "SubtitleStreamIndex", "1");
    push_param(&mut q, "MaxStreamingBitrate", "160000000");
    assert(params_view(q@) =~= playback_info_query(s.user_id@));
    push_session_params_json(&mut q, c, s.access_token.as_str());
    let r = ApiRequest {
        method: Method::Post,
        url: playback_info_url_of(s, id),
        query: q,
        headers: Vec::new(),
        body: Payload::Profile(direct_play_profile()),
        reply: Reply::WholeBody,
    };
    proof {
        let rest = "Items/"@ + id@ + "/PlaybackInfo"@;
        assert(r.url@ =~= api_root(s.domain@, s.port@) + rest);
        lemma_session_call(r, *s, *c, rest, playback_info_query(s.user_id@), seq![("reqformat"@, "json"@)]);
    }
    r
}

/// Opens playback of the source `sourceid` of the item `id`, at most
/// 4 Mbit/s, on a client that plays everything directly; read from the
/// whole reply (which lists the subtitle streams).
pub fn sub_request(s: &ServerInfo, c: &ClientIdentity, id: &str, sourceid: &str) -> (r: ApiRequest)
    ensures
        r.method == Method::Post,
        r.url@ == playback_info_url(*s, id@),
        params_view(r.query@) == sub_query(s.user_id@, sourceid@) + session_params(*c, s.access_token@)
            + seq![("reqformat"@, "json"@)],
        r.headers@.len() == 0,
        carries_direct_play_profile(r.body),
        r.reply == Reply::WholeBody,
        session_call(r, *s),
{
    let mut q: Vec<Param> = Vec::new();
    push_param(&mut q, "StartTimeTicks", "0");
    push_param(&mut q, "UserId", s.user_id.as_str());
    push_param(&mut q, "AutoOpenLiveStream", "true");
    push_param(&mut q, "IsPlayback", "true");
    push_param(&mut q, "AudioStreamIndex", "1");
    push_param(&mut q, "SubtitleStreamIndex", "1");
    push_param(&mut q, "MediaSourceId", sourceid);
    push_param(&mut q, "MaxStreamingBitrate", "4000000");
    assert(params_view(q@) =~= sub_query(s.user_id@, sourceid@));
    push_session_params_json(&mut q, c, s.access_token.as_str());
    let r = ApiRequest {
        method: Method::Post,
        url: playback_info_url_of(s, id),
        query: q,
        headers: Vec::new(),
        body: Payload::Profile(direct_play_profile()),
        reply: Reply::WholeBody,
    };
    proof {
        let rest = "Items/"@ + id@ + "/PlaybackInfo"@;
        assert(r.url@ =~= api_root(s.domain@, s.port@) + rest);
        lemma_session_call(r, *s, *c, rest, sub_query(s.user_id@, sourceid@), seq![("reqformat"@, "json"@)]);
    }
    r
}

// ---------------------------------------------------------------- libraries

/// The address of the user's libraries.
pub open spec fn views_url(s: ServerInfo) -> Seq<char> {
    api_root(s.domain@, s.port@) + "Users/"@ + s.user_id@ + "/Views"@
}

/// Lists the user's libraries; they are under `Items`.
pub fn library_request(s: &ServerInfo, c: &ClientIdentity) -> (r: ApiRequest)
    ensures
        r.method == Method::Get,
        r.url@ == views_url(*s),
        params_view(r.query@) == session_params(*c, s.access_token@),
        r.headers@.len() == 0,
        r.body is Empty,
        r.reply == Reply::ItemsField,
        session_call(r, *s),
{
    let mut url = api_root_url(s.domain.as_str(), s.port.as_str());
    url.append("Users/");
    url.append(s.user_id.as_str());
    url.append("/Views");
    let mut q: Vec<Param> = Vec::new();
    push_session_params(&mut q, c, s.access_token.as_str());
    assert(params_view(q@) =~= session_params(*c, s.access_token@));
    let r = ApiRequest { method: Method::Get, url, query: q, headers: Vec::new(), body: Payload::Empty, reply: Reply::ItemsField };
    proof {
        let rest = "Users/"@ + s.user_id@ + "/Views"@;
        assert(r.url@ =~= api_root(s.domain@, s.port@) + rest);
        assert(params_view(r.query@) =~= seq![] + session_params(*c, s.access_token@) + seq![]);
        lemma_session_call(r, *s, *c, rest, seq![], seq![]);
    }
    r
}

/// The address of the latest additions.
pub open spec fn latest_url(s: ServerInfo) -> Seq<char> {
    api_root(s.domain@, s.port@) + "Users/"@ + s.user_id@ + "/Items/Latest"@
}

/// The query of the latest additions to the library `id`, before the
/// session parameters.
pub open spec fn latest_query(id: Seq<char>) -> Seq<(Seq<char>, Seq<char>)> {
    seq![
        ("Limit"@, "16"@),
        ("Fields"@, short_listing_fields()),
        ("ParentId"@, id),
        ("ImageTypeLimit"@, "1"@),
        ("EnableImageTypes"@, listing_images()),
    ]
}

/// Lists at most 16 latest additions to the library `id`; the reply is the list.
pub fn latest_request(s: &ServerInfo, c: &ClientIdentity, id: &str) -> (r: ApiRequest)
    ensures
        r.method == Method::Get,
        r.url@ == latest_url(*s),
        params_view(r.query@) == latest_query(id@) + session_params(*c, s.access_token@),
        r.headers@.len() == 0,
        r.body is Empty,
        r.reply == Reply::WholeBody,
        session_call(r, *s),
{
    let mut url = api_root_url(s.domain.as_str(), s.port.as_str());
    url.append("Users/");
    url.append(s.user_id.as_str());
    url.append("/Items/Latest");
    let mut q: Vec<Param> = Vec::new();
    push_param(&mut q, "Limit", "16");
    push_param(&mut q, "Fields", "BasicSyncInfo,CanDelete,PrimaryImageAspectRatio,ProductionYear");
    push_param(&mut q, "ParentId", id);
    push_param(&mut q, "ImageTypeLimit", "1");
    push_param(&mut q, "EnableImageTypes", "Primary,Backdrop,Thumb");
    assert(params_view(q@) =~= latest_query(id@));
    push_session_params(&mut q, c, s.access_token.as_str());
    let r = ApiRequest { method: Method::Get, url, query: q, headers: Vec::new(), body: Payload::Empty, reply: Reply::WholeBody };
    proof {
        let rest = "Users/"@ + s.user_id@ + "/Items/Latest"@;
        assert(r.url@ =~= api_root(s.domain@, s.port@) + rest);
        assert(params_view(r.query@) =~= latest_query(id@) + session_params(*c, s.access_token@) + seq![]);
        lemma_session_call(r, *s, *c, rest, latest_query(id@), seq![]);
    }
    r
}

/// The query of one page of the library `id` from `start`, before the
/// session parameters.
pub open spec fn list_query(id: Seq<char>, start: Seq<char>) -> Seq<(Seq<char>, Seq<char>)> {
    seq![
        ("Limit"@, "50"@),
        ("Fields"@, listing_fields()),
        ("ParentId"@, id),
        ("ImageTypeLimit"@, "1"@),
        ("StartIndex"@, start),
        ("Recursive"@, "True"@),
        ("IncludeItemTypes"@, "Movie,Series,MusicAlbum"@),
        ("SortBy"@, "DateCreated,SortName"@),
        ("SortOrder"@, "Descending"@),
        ("EnableImageTypes"@, listing_images()),
    ]
}

/// Lists a page of at most 50 movies, series and albums of the library
/// `id`, newest first, from position `start`; the reply is the page.
pub fn list_request(s: &ServerInfo, c: &ClientIdentity, id: &str, start: &str) -> (r: ApiRequest)
    ensures
        r.method == Method::Get,
        r.url@ == user_items_url(*s),
        params_view(r.query@) == list_query(id@, start@) + session_params(*c, s.access_token@),
        r.headers@.len() == 0,
        r.body is Empty,
        r.reply == Reply::WholeBody,
        session_call(r, *s),
{
    let mut q: Vec<Param> = Vec::new();
    push_param(&mut q, "Limit", "50");
    push_param(&mut q, "Fields", "BasicSyncInfo,CanDelete,PrimaryImageAspectRatio,ProductionYear,Status,EndDate");
    push_param(&mut q, "ParentId", id);
    push_param(&mut q, "ImageTypeLimit", "1");
    push_param(&mut q, "StartIndex", start);
    push_param(&mut q, "Recursive", "True");
    push_param(&mut q, "IncludeItemTypes", "Movie,Series,MusicAlbum");
    push_param(&mut q, "SortBy", "DateCreated,SortName");
    push_param(&mut q, "SortOrder", "Descending");
    push_param(&mut q, "EnableImageTypes", "Primary,Backdrop,Thumb");
    assert(params_view(q@) =~= list_query(id@, start@));
    push_session_params(&mut q, c, s.access_token.as_str());
    let r = ApiRequest { method: Method::Get, url: user_items(s), query: q, headers: Vec::new(), body: Payload::Empty, reply: Reply::WholeBody };
    proof {
        lemma_user_items_call(r, *s, *c, list_query(id@, start@));
    }
    r
}

/// The query of the search suggestions, before the session parameters.
pub open spec fn search_recommend_query() -> Seq<(Seq<char>, Seq<char>)> {
    seq![
        ("Limit"@, "20"@),
        ("EnableTotalRecordCount"@, "false"@),
        ("ImageTypeLimit"@, "0"@),
        ("Recursive"@, "true"@),
        ("IncludeItemTypes"@, "Movie,Series"@),
        ("SortBy"@, "IsFavoriteOrLiked,Random"@),
        ("Recursive"@, "true"@),
    ]
}

/// Lists 20 movies and series to suggest for a search, favourites first
/// and otherwise at random; the reply is the list.
pub fn search_recommend_request(s: &ServerInfo, c: &ClientIdentity) -> (r: ApiRequest)
    ensures
        r.method == Method::Get,
        r.url@ == user_items_url(*s),
        params_view(r.query@) == search_recommend_query() + session_params(*c, s.access_token@),
        r.headers@.len() == 0,
        r.body is Empty,
        r.reply == Reply::WholeBody,
        session_call(r, *s),
{
    let mut q: Vec<Param> = Vec::new();
    push_param(&mut q, "Limit", "20");
    push_param(&mut q, "EnableTotalRecordCount", "false");
    push_param(&mut q, "ImageTypeLimit", "0");
    push_param(&mut q, "Recursive", "true");
    push_param(&mut q, "IncludeItemTypes", "Movie,Series");
    push_param(&mut q, "SortBy", "IsFavoriteOrLiked,Random");
    push_param(&mut q, "Recursive", "true");
    assert(params_view(q@) =~= search_recommend_query());
    push_session_params(&mut q, c, s.access_token.as_str());
    let r = ApiRequest { method: Method::Get, url: user_items(s), query: q, headers: Vec::new(), body: Payload::Empty, reply: Reply::WholeBody };
    proof {
        lemma_user_items_call(r, *s, *c, search_recommend_query());
    }
    r
}

/// The query of the works of a person, before the session parameters.
pub open spec fn person_item_query(id: Seq<char>, types: Seq<char>) -> Seq<(Seq<char>, Seq<char>)> {
    seq![
        ("Fields"@, "PrimaryImageAspectRatio,ProductionYear"@),
        ("PersonIds"@, id),
        ("Recursive"@, "true"@),
        ("CollapseBoxSetItems"@, "false"@),
        ("SortBy"@, "SortName"@),
        ("SortOrder"@, "Ascending"@),
        ("IncludeItemTypes"@, types),
        ("ImageTypeLimit"@, "1"@),
        ("Limit"@, "12"@),
    ]
}

/// Lists at most 12 items of the kinds `types` in which the person `id`
/// appears, by name; they are under `Items`.
pub fn person_item_request(s: &ServerInfo, c: &ClientIdentity, id: &str, types: &str) -> (r: ApiRequest)
    ensures
        r.method == Method::Get,
        r.url@ == user_items_url(*s),
        params_view(r.query@) == person_item_query(id@, types@) + session_params(*c, s.access_token@),
        r.headers@.len() == 0,
        r.body is Empty,
        r.reply == Reply::ItemsField,
        session_call(r, *s),
{
    let mut q: Vec<Param> = Vec::new();
    push_param(&mut q, "Fields", "PrimaryImageAspectRatio,ProductionYear");
    push_param(&mut q, "PersonIds", id);
    push_param(&mut q, "Recursive", "true");
    push_param(&mut q, "CollapseBoxSetItems", "false");
    push_param(&mut q, "SortBy", "SortName");
    push_param(&mut q, "SortOrder", "Ascending");
    push_param(&mut q, "IncludeItemTypes", types);
    push_param(&mut q, "ImageTypeLimit", "1");
    push_param(&mut q, "Limit", "12");
    assert(params_view(q@) =~= person_item_query(id@, types@));
    push_session_params(&mut q, c, s.access_token.as_str());
    let r = ApiRequest { method: Method::Get, url: user_items(s), query: q, headers: Vec::new(), body: Payload::Empty, reply: Reply::ItemsField };
    proof {
        lemma_user_items_call(r, *s, *c, person_item_query(id@, types@));
    }
    r
}

/// The address of the items similar to the item `id`.
pub open spec fn similar_url(s: ServerInfo, id: Seq<char>) -> Seq<char> {
    api_root(s.domain@, s.port@) + "Items/"@ + id + "/Similar"@
}

/// The query of the similar items, before the session parameters.
pub open spec fn similar_query(user_id: Seq<char>) -> Seq<(Seq<char>, Seq<char>)> {
    seq![
        ("Fields"@, listing_fields()),
        ("UserId"@, user_id),
        ("ImageTypeLimit"@, "1"@),
        ("Limit"@, "12"@),
    ]
}

/// Lists at most 12 items similar to the item `id`; they are under `Items`.
pub fn similar_request(s: &ServerInfo, c: &ClientIdentity, id: &str) -> (r: ApiRequest)
    ensures
        r.method == Method::Get,
        r.url@ == similar_url(*s, id@),
        params_view(r.query@) == similar_query(s.user_id@) + session_params(*c, s.access_token@),
        r.headers@.len() == 0,
        r.body is Empty,
        r.reply == Reply::ItemsField,
        session_call(r, *s),
{
    let mut url = api_root_url(s.domain.as_str(), s.port.as_str());
    url.append("Items/");
    url.append(id);
    url.append("/Similar");
    let mut q: Vec<Param> = Vec::new();
    push_param(&mut q, "Fields", "BasicSyncInfo,CanDelete,PrimaryImageAspectRatio,ProductionYear,Status,EndDate");
    push_param(&mut q, "UserId", s.user_id.as_str());
    push_param(&mut q, "ImageTypeLimit", "1");
    push_param(&mut q, "Limit", "12");
    assert(params_view(q@) =~= similar_query(s.user_id@));
    push_session_params(&mut q, c, s.access_token.as_str());
    let r = ApiRequest { method: Method::Get, url, query: q, headers: Vec::new(), body: Payload::Empty, reply: Reply::ItemsField };
    proof {
        let rest = "Items/"@ + id@ + "/Similar"@;
        assert(r.url@ =~= api_root(s.domain@, s.port@) + rest);
        assert(params_view(r.query@) =~= similar_query(s.user_id@) + session_params(*c, s.access_token@) + seq![]);
        lemma_session_call(r, *s, *c, rest, similar_query(s.user_id@), seq![]);
    }
    r
}

// ---------------------------------------------------------------- playback reports

/// The moment of playback that a report is about.
#[derive(Clone, Copy, Debug, PartialEq, Eq)]
pub enum PlaybackEvent {
    /// Playback has started.
    Started,
    /// Playback goes on at the reported position.
    Progress,
    /// Playback has stopped at the reported position.
    Stopped,
}

/// The address that a report on `event` goes to.
pub open spec fn report_url(s: ServerInfo, event: PlaybackEvent) -> Seq<char> {
    api_root(s.domain@, s.port@) + "Sessions/Playing"@ + match event {
        PlaybackEvent::Started => Seq::<char>::empty(),
        PlaybackEvent::Progress => "/Progress"@,
        PlaybackEvent::Stopped => "/Stopped"@,
    }
}

/// Reports `event` for the playback described by `back`; the reply is dropped.
pub fn report_request(s: &ServerInfo, c: &ClientIdentity, event: PlaybackEvent, back: &Back) -> (r: ApiRequest)
    ensures
        r.method == Method::Post,
        r.url@ == report_url(*s, event),
        params_view(r.query@) == report_params(*c, s.access_token@),
        r.headers@.len() == 0,
        r.body matches Payload::Report(p) && {
            &&& p.volume_level == 100
            &&& !p.is_muted
            &&& !p.is_paused
            &&& p.repeat_mode@ == "RepeatNone"@
            &&& p.subtitle_offset == 0
            &&& p.playback_rate == 1
            &&& p.max_streaming_bitrate == 4000000
            &&& p.position_ticks == back.tick
            &&& p.playback_start_time_ticks == 0
            &&& p.subtitle_stream_index == 1
            &&& p.audio_stream_index == 1
            &&& p.play_method@ == "DirectStream"@
            &&& opt_str(p.play_session_id) == opt_str(back.playsessionid)
            &&& p.media_source_id@ == back.mediasourceid@
            &&& p.can_seek
            &&& p.item_id@ == back.id@
            &&& p.playlist_index == 0
            &&& p.playlist_length == 23
            &&& p.next_media_type@ == "Video"@
        },
        r.reply == Reply::Ignored,
        session_call(r, *s),
{
    let mut url = api_root_url(s.domain.as_str(), s.port.as_str());
    url.append("Sessions/Playing");
    match event {
        PlaybackEvent::Started => {},
        PlaybackEvent::Progress => url.append("/Progress"),
        PlaybackEvent::Stopped => url.append("/Stopped"),
    }
    let r = ApiRequest {
        method: Method::Post,
        url,
        query: report_query(c, s.access_token.as_str()),
        headers: Vec::new(),
        body: Payload::Report(playback_report(back)),
        reply: Reply::Ignored,
    };
    proof {
        let rest = "Sessions/Playing"@ + match event {
            PlaybackEvent::Started => Seq::<char>::empty(),
            PlaybackEvent::Progress => "/Progress"@,
            PlaybackEvent::Stopped => "/Stopped"@,
        };
        assert(r.url@ =~= api_root(s.domain@, s.port@) + rest);
        lemma_root_prefix(s.domain@, s.port@, rest);
        lemma_report_params_carry_token(*c, s.access_token@);
    }
    r
}

/// Each moment of playback is reported to its own address.
pub proof fn lemma_report_urls_distinct(s: ServerInfo, e1: PlaybackEvent, e2: PlaybackEvent)
    requires
        e1 != e2,
    ensures
        report_url(s, e1) != report_url(s, e2),
{
    reveal_strlit("/Progress");
    reveal_strlit("/Stopped");
    let base = api_root(s.domain@, s.port@) + "Sessions/Playing"@;
    let t1 = match e1 {
        PlaybackEvent::Started => Seq::<char>::empty(),
        PlaybackEvent::Progress => "/Progress"@,
        PlaybackEvent::Stopped => "/Stopped"@,
    };
    let t2 = match e2 {
        PlaybackEvent::Started => Seq::<char>::empty(),
        PlaybackEvent::Progress => "/Progress"@,
        PlaybackEvent::Stopped => "/Stopped"@,
    };
    if base + t1 == base + t2 {
        assert(t1 =~= (base + t1).subrange(base.len() as int, (base + t1).len() as int));
        assert(t2 =~= (base + t2).subrange(base.len() as int, (base + t2).len() as int));
        assert(t1[1] != t2[1] || t1.len() != t2.len());
    }
}

/// The profile posted to ask how an item plays, or to open its playback,
/// announces exactly these direct-play entries (container, media type,
/// video codecs, audio codecs) and subtitle entries (format, method,
/// protocol), in this order.
pub proof fn law_direct_play_profile_tables(body: Payload)
    requires
        carries_direct_play_profile(body),
    ensures
        body matches Payload::Profile(p) && {
            &&& p.direct_play_profiles@.len() == 14
            &&& p.direct_play_profiles@[0]@ == ("mkv"@, "Video"@, Some("hevc,h264,av1,vp8,vp9,mp4"@), Some("aac,ac3,alac,eac3,dts,flac,mp3,opus,truehd,vorbis"@))
            &&& p.direct_play_profiles@[1]@ == ("mp4,m4v"@, "Video"@, Some("hevc,h264,av1,vp8,vp9"@), Some("aac,alac,opus,mp3,flac,vorbis"@))
            &&& p.direct_play_profiles@[2]@ == ("flv"@, "Video"@, Some("h264"@), Some("aac,mp3"@))
            &&& p.direct_play_profiles@[3]@ == ("mov"@, "Video"@, Some("h264"@), Some("aac,opus,flac,vorbis"@))
            &&& p.direct_play_profiles@[4]@ == ("opus"@, "Audio"@, None::<Seq<char>>, None::<Seq<char>>)
            &&& p.direct_play_profiles@[5]@ == ("mp3"@, "Audio"@, None::<Seq<char>>, Some("mp3"@))
            &&& p.direct_play_profiles@[6]@ == ("mp2,mp3"@, "Audio"@, None::<Seq<char>>, Some("mp2"@))
            &&& p.direct_play_profiles@[7]@ == ("m4a"@, "Audio"@, None::<Seq<char>>, Some("aac"@))
            &&& p.direct_play_profiles@[8]@ == ("mp4"@, "Audio"@, None::<Seq<char>>, Some("aac"@))
            &&& p.direct_play_profiles@[9]@ == ("flac"@, "Audio"@, None::<Seq<char>>, None::<Seq<char>>)
            &&& p.direct_play_profiles@[10]@ == ("webma,webm"@, "Audio"@, None::<Seq<char>>, None::<Seq<char>>)
            &&& p.direct_play_profiles@[11]@ == ("wav"@, "Audio"@, None::<Seq<char>>, Some("PCM_S16LE,PCM_S24LE"@))
            &&& p.direct_play_profiles@[12]@ == ("ogg"@, "Audio"@, None::<Seq<char>>, None::<Seq<char>>)
            &&& p.direct_play_profiles@[13]@ == ("webm"@, "Video"@, Some("av1,VP8,VP9"@), Some("vorbis,opus"@))
            &&& p.subtitle_profiles@.len() == 6
            &&& p.subtitle_profiles@[0]@ == ("vtt"@, "Hls"@, None::<Seq<char>>)
            &&& p.subtitle_profiles@[1]@ == ("eia_608"@, "VideoSideData"@, Some("hls"@))
            &&& p.subtitle_profiles@[2]@ == ("eia_708"@, "VideoSideData"@, Some("hls"@))
            &&& p.subtitle_profiles@[3]@ == ("vtt"@, "External"@, None::<Seq<char>>)
            &&& p.subtitle_profiles@[4]@ == ("ass"@, "External"@, None::<Seq<char>>)
            &&& p.subtitle_profiles@[5]@ == ("ssa"@, "External"@, None::<Seq<char>>)
        },
{
    if let Payload::Profile(p) = body {
        let d = p.direct_play_profiles@;
        let t = p.subtitle_profiles@;
        assert(d.map_values(|x: crate::body::DirectPlayProfile| x@).len() == d.len());
        assert(t.map_values(|x: crate::body::SubtitleProfile| x@).len() == t.len());
        assert forall|i: int| 0 <= i < d.len() implies d[i]@ == direct_play_table()[i] by {
            assert(d.map_values(|x: crate::body::DirectPlayProfile| x@)[i] == d[i]@);
        }
        assert forall|i: int| 0 <= i < t.len() implies t[i]@ == subtitle_table()[i] by {
            assert(t.map_values(|x: crate::body::SubtitleProfile| x@)[i] == t[i]@);
        }
    }
}

/// A search sends the same query whatever the term, except that the term
/// itself is the `SearchTerm` (the ninth pair): in particular it always asks
/// for at most 50 hits, and the term appears in no other pair.
pub proof fn law_search_query_fixed(t1: Seq<char>, t2: Seq<char>)
    ensures
        search_query(t1).len() == 11,
        search_query(t1)[8] == ("SearchTerm"@, t1),
        search_query(t1)[10] == ("Limit"@, "50"@),
        search_query(t1)[1] == ("IncludeItemTypes"@, "Movie,Series"@),
        forall|i: int| 0 <= i < 11 && i != 8 ==> #[trigger] search_query(t1)[i] == search_query(t2)[i],
{
}

/// A page of a library asks for at most 50 items (the first pair) whatever
/// the library and the start, sends the start as `StartIndex` (the fifth
/// pair) and the library as `ParentId` (the third pair), and nothing else
/// depends on either.
pub proof fn law_list_query_fixed(id1: Seq<char>, s1: Seq<char>, id2: Seq<char>, s2: Seq<char>)
    ensures
        list_query(id1, s1).len() == 10,
        list_query(id1, s1)[0] == ("Limit"@, "50"@),
        list_query(id1, s1)[2] == ("ParentId"@, id1),
        list_query(id1, s1)[4] == ("StartIndex"@, s1),
        list_query(id1, s1)[8] == ("SortOrder"@, "Descending"@),
        forall|i: int| 0 <= i < 10 && i != 2 && i != 4 ==> #[trigger] list_query(id1, s1)[i] == list_query(id2, s2)[i],
{
}

/// The other listings and playback queries send the same pairs whatever
/// their arguments, except the pairs that carry those arguments.
pub proof fn law_queries_fixed(a1: Seq<char>, b1: Seq<char>, a2: Seq<char>, b2: Seq<char>)
    ensures
        series_info_query(a1).len() == 4,
        series_info_query(a1)[3] == ("UserId"@, a1),
        forall|i: int| 0 <= i < 3 ==> #[trigger] series_info_query(a1)[i] == series_info_query(a2)[i],
        latest_query(a1).len() == 5,
        latest_query(a1)[0] == ("Limit"@, "16"@),
        latest_query(a1)[2] == ("ParentId"@, a1),
        forall|i: int| 0 <= i < 5 && i != 2 ==> #[trigger] latest_query(a1)[i] == latest_query(a2)[i],
        playback_info_query(a1).len() == 7,
        playback_info_query(a1)[1] == ("UserId"@, a1),
        playback_info_query(a1)[3] == ("IsPlayback"@, "false"@),
        forall|i: int| 0 <= i < 7 && i != 1 ==> #[trigger] playback_info_query(a1)[i] == playback_info_query(a2)[i],
        sub_query(a1, b1).len() == 8,
        sub_query(a1, b1)[1] == ("UserId"@, a1),
        sub_query(a1, b1)[3] == ("IsPlayback"@, "true"@),
        sub_query(a1, b1)[6] == ("MediaSourceId"@, b1),
        sub_query(a1, b1)[7] == ("MaxStreamingBitrate"@, "4000000"@),
        forall|i: int| 0 <= i < 8 && i != 1 && i != 6 ==> #[trigger] sub_query(a1, b1)[i] == sub_query(a2, b2)[i],
        similar_query(a1).len() == 4,
        similar_query(a1)[1] == ("UserId"@, a1),
        similar_query(a1)[3] == ("Limit"@, "12"@),
        forall|i: int| 0 <= i < 4 && i != 1 ==> #[trigger] similar_query(a1)[i] == similar_query(a2)[i],
        person_item_query(a1, b1).len() == 9,
        person_item_query(a1, b1)[1] == ("PersonIds"@, a1),
        person_item_query(a1, b1)[6] == ("IncludeItemTypes"@, b1),
        person_item_query(a1, b1)[8] == ("Limit"@, "12"@),
        forall|i: int| 0 <= i < 9 && i != 1 && i != 6 ==> #[trigger] person_item_query(a1, b1)[i] == person_item_query(a2, b2)[i],
{
}

} // verus!
