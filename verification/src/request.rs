//! The shape of a call to the server, and the parts that calls share.

use vstd::prelude::*;
use crate::body::{DeviceProfile, LoginBody, PlaybackReport, PlayingItemBody};
use crate::model::ClientIdentity;

verus! {

/// One `key=value` pair of a query string or one header.
#[derive(Clone, Debug)]
pub struct Param {
    pub key: String,
    pub value: String,
}

impl View for Param {
    type V = (Seq<char>, Seq<char>);

    open spec fn view(&self) -> (Seq<char>, Seq<char>) {
        (self.key@, self.value@)
    }
}

/// The pairs of a list of parameters, in order.
pub open spec fn params_view(ps: Seq<Param>) -> Seq<(Seq<char>, Seq<char>)> {
    ps.map_values(|p: Param| p@)
}

/// The HTTP method of a call.
#[derive(Clone, Copy, Debug, PartialEq, Eq)]
pub enum Method {
    Get,
    Post,
}

/// The JSON body posted with a call.
#[derive(Clone, Debug)]
pub enum Payload {
    /// No body.
    Empty,
    Login(LoginBody),
    PlayingItem(PlayingItemBody),
    /// The profile, sent as `{"DeviceProfile": ...}`.
    Profile(DeviceProfile),
    Report(PlaybackReport),
}

/// What the caller takes from the server's reply.
#[derive(Clone, Copy, Debug, PartialEq, Eq)]
pub enum Reply {
    /// The JSON array under the reply's `Items` field.
    ItemsField,
    /// The whole reply, as one JSON value.
    WholeBody,
    /// The reply as text.
    Text,
    /// The reply as raw bytes.
    Bytes,
    /// Nothing: the reply is dropped once it has arrived.
    Ignored,
}

/// A complete description of one call to the server.
#[derive(Clone, Debug)]
pub struct ApiRequest {
    pub method: Method,
    pub url: String,
    pub query: Vec<Param>,
    pub headers: Vec<Param>,
    pub body: Payload,
    pub reply: Reply,
}

/// The root of the server's API: `{domain}:{port}/emby/`.
pub open spec fn api_root(domain: Seq<char>, port: Seq<char>) -> Seq<char> {
    domain + ":"@ + port + "/emby/"@
}

/// The parameters that identify the client and the session, appended to
/// every query made on behalf of the signed-in user.
pub open spec fn session_params(c: ClientIdentity, token: Seq<char>) -> Seq<(Seq<char>, Seq<char>)> {
    seq![
        ("X-Emby-Client"@, "Tsukimi"@),
        ("X-Emby-Device-Name"@, c.device_name@),
        ("X-Emby-Device-Id"@, c.device_id@),
        ("X-Emby-Client-Version"@, c.client_version@),
        ("X-Emby-Token"@, token),
        ("X-Emby-Language"@, "zh-cn"@),
    ]
}

/// The parameters of the playback reports, which ask for a JSON reply.
pub open spec fn report_params(c: ClientIdentity, token: Seq<char>) -> Seq<(Seq<char>, Seq<char>)> {
    seq![
        ("X-Emby-Client-Version"@, c.client_version@),
        ("X-Emby-Device-Name"@, c.device_name@),
        ("X-Emby-Device-Id"@, c.device_id@),
        ("X-Emby-Token"@, token),
        ("X-Emby-Language"@, "zh-cn"@),
        ("reqformat"@, "json"@),
    ]
}

/// The headers that introduce the client when it signs in.
pub open spec fn login_headers(c: ClientIdentity) -> Seq<(Seq<char>, Seq<char>)> {
    seq![
        ("X-Emby-Client"@, "Tsukimi"@),
        ("X-Emby-Device-Name"@, c.device_name@),
        ("X-Emby-Device-Id"@, c.device_id@),
        ("X-Emby-Client-Version"@, c.client_version@),
        ("X-Emby-Language"@, "zh-cn"@),
    ]
}

/// Whether the pair `(key, value)` occurs in `ps`.
pub open spec fn has_param(ps: Seq<(Seq<char>, Seq<char>)>, key: Seq<char>, value: Seq<char>) -> bool {
    exists|i: int| 0 <= i < ps.len() && #[trigger] ps[i] == (key, value)
}

/// Appends `key=value` to `q`.
pub fn push_param(q: &mut Vec<Param>, key: &str, value: &str)
    ensures
        params_view(final(q)@) == params_view(old(q)@).push((key@, value@)),
{
    q.push(Param { key: key.to_owned(), value: value.to_owned() });
    assert(params_view(q@) =~= params_view(old(q)@).push((key@, value@)));
}

/// Appends the session parameters of `c` and `token` to `q`.
pub fn push_session_params(q: &mut Vec<Param>, c: &ClientIdentity, token: &str)
    ensures
        params_view(final(q)@) == params_view(old(q)@) + session_params(*c, token@),
{
    push_param(q, "X-Emby-Client", "Tsukimi");
    push_param(q, "X-Emby-Device-Name", c.device_name.as_str());
    push_param(q, "X-Emby-Device-Id", c.device_id.as_str());
    push_param(q, "X-Emby-Client-Version", c.client_version.as_str());
    push_param(q, "X-Emby-Token", token);
    push_param(q, "X-Emby-Language", "zh-cn");
    assert(params_view(q@) =~= params_view(old(q)@) + session_params(*c, token@));
}

/// The session parameters, followed by a request for a JSON reply.
pub fn push_session_params_json(q: &mut Vec<Param>, c: &ClientIdentity, token: &str)
    ensures
        params_view(final(q)@) == params_view(old(q)@) + session_params(*c, token@) + seq![(
            "reqformat"@,
            "json"@,
        )],
{
    push_session_params(q, c, token);
    push_param(q, "reqformat", "json");
}

/// The parameters of a playback report.
pub fn report_query(c: &ClientIdentity, token: &str) -> (q: Vec<Param>)
    ensures
        params_view(q@) == report_params(*c, token@),
{
    let mut q: Vec<Param> = Vec::new();
    push_param(&mut q, "X-Emby-Client-Version", c.client_version.as_str());
    push_param(&mut q, "X-Emby-Device-Name", c.device_name.as_str());
    push_param(&mut q, "X-Emby-Device-Id", c.device_id.as_str());
    push_param(&mut q, "X-Emby-Token", token);
    push_param(&mut q, "X-Emby-Language", "zh-cn");
    push_param(&mut q, "reqformat", "json");
    assert(params_view(q@) =~= report_params(*c, token@));
    q
}

/// The headers sent when signing in.
pub fn login_header_list(c: &ClientIdentity) -> (h: Vec<Param>)
    ensures
        params_view(h@) == login_headers(*c),
{
    let mut h: Vec<Param> = Vec::new();
    push_param(&mut h, "X-Emby-Client", "Tsukimi");
    push_param(&mut h, "X-Emby-Device-Name", c.device_name.as_str());
    push_param(&mut h, "X-Emby-Device-Id", c.device_id.as_str());
    push_param(&mut h, "X-Emby-Client-Version", c.client_version.as_str());
    push_param(&mut h, "X-Emby-Language", "zh-cn");
    assert(params_view(h@) =~= login_headers(*c));
    h
}

/// The root of the API of the server at `domain` and `port`.
pub fn api_root_url(domain: &str, port: &str) -> (s: String)
    ensures
        s@ == api_root(domain@, port@),
{
    let mut s = domain.to_owned();
    s.append(":");
    s.append(port);
    s.append("/emby/");
    s
}

} // verus!
