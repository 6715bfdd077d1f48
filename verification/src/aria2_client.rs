//! The aria2 JSON-RPC exchanges: which calls are made, and what is made of
//! the replies. Sending the requests and decoding the JSON is the caller's.

use vstd::prelude::*;

verus! {

/// The torrent metadata that aria2 reports.
#[derive(Debug, Clone)]
pub struct BittorrentInfo {
    pub name: Option<String>,
}

/// The BitTorrent part of an aria2 download status.
#[derive(Debug, Clone)]
pub struct Bittorrent {
    pub info: Option<BittorrentInfo>,
}

/// One download as `aria2.tellActive` and `aria2.tellWaiting` report it.
#[derive(Debug, Clone)]
pub struct TorrentStatus {
    pub gid: String,
    pub status: String,
    pub total_length: String,
    pub completed_length: String,
    pub download_speed: String,
    pub info_hash: Option<String>,
    pub bittorrent: Option<Bittorrent>,
}

/// One positional parameter of a JSON-RPC call.
pub enum RpcParam {
    Text(String),
    Number(u64),
    TextList(Vec<String>),
}

/// A JSON-RPC 2.0 call to aria2; `params` is `None` where the call has no
/// `params` member.
pub struct RpcRequest {
    pub method: String,
    pub id: String,
    pub params: Option<Vec<RpcParam>>,
}

/// The `error` member of a JSON-RPC reply; `message` is its `message`
/// member when that is a string.
pub struct RpcError {
    pub message: Option<String>,
}

/// What is read of a JSON-RPC reply: its `error` member if it has one, and
/// its `result` member when that is a string.
pub struct RpcReply {
    pub error: Option<RpcError>,
    pub result: Option<String>,
}

/// The text in `text`, or `default` when there is none.
pub open spec fn text_or(text: Option<String>, default: Seq<char>) -> Seq<char> {
    match text {
        Some(t) => t@,
        None => default,
    }
}

/// The statuses in a decoded list, or none when the list could not be decoded.
pub open spec fn listed(statuses: Option<Vec<TorrentStatus>>) -> Seq<TorrentStatus> {
    match statuses {
        Some(v) => v@,
        None => Seq::empty(),
    }
}

/// `request` calls `method` with the id `id` and no parameters.
pub open spec fn calls_without_params(request: RpcRequest, method: Seq<char>, id: Seq<char>) -> bool {
    &&& request.method@ == method
    &&& request.id@ == id
    &&& request.params is None
}

/// `request` calls `method` with the id `id` and the one text parameter `text`.
pub open spec fn calls_with_text(
    request: RpcRequest,
    method: Seq<char>,
    id: Seq<char>,
    text: Seq<char>,
) -> bool {
    &&& request.method@ == method
    &&& request.id@ == id
    &&& request.params matches Some(params)
    &&& params@.len() == 1
    &&& params@[0] matches RpcParam::Text(t)
    &&& t@ == text
}

/// The call that lists the active downloads.
pub fn tell_active_request() -> (request: RpcRequest)
    ensures
        calls_without_params(request, "aria2.tellActive"@, "active"@),
{
    RpcRequest {
        method: "aria2.tellActive".to_owned(),
        id: "active".to_owned(),
        params: None,
    }
}

/// The call that lists the waiting and paused downloads, from offset 0, at
/// most 1000 of them.
pub fn tell_waiting_request() -> (request: RpcRequest)
    ensures
        request.method@ == "aria2.tellWaiting"@,
        request.id@ == "waiting"@,
        ({
            &&& request.params matches Some(params)
            &&& params@.len() == 2
            &&& params@[0] matches RpcParam::Number(offset)
            &&& offset == 0
            &&& params@[1] matches RpcParam::Number(count)
            &&& count == 1000
        }),
{
    let mut params: Vec<RpcParam> = Vec::new();
    params.push(RpcParam::Number(0));
    params.push(RpcParam::Number(1000));
    RpcRequest {
        method: "aria2.tellWaiting".to_owned(),
        id: "waiting".to_owned(),
        params: Some(params),
    }
}

/// The call that pauses the download `gid`.
pub fn pause_request(gid: &str) -> (request: RpcRequest)
    ensures
        calls_with_text(request, "aria2.pause"@, "pause"@, gid@),
{
    let mut params: Vec<RpcParam> = Vec::new();
    params.push(RpcParam::Text(gid.to_owned()));
    RpcRequest { method: "aria2.pause".to_owned(), id: "pause".to_owned(), params: Some(params) }
}

/// The call that resumes the paused download `gid`.
pub fn unpause_request(gid: &str) -> (request: RpcRequest)
    ensures
        calls_with_text(request, "aria2.unpause"@, "unpause"@, gid@),
{
    let mut params: Vec<RpcParam> = Vec::new();
    params.push(RpcParam::Text(gid.to_owned()));
    RpcRequest {
        method: "aria2.unpause".to_owned(),
        id: "unpause".to_owned(),
        params: Some(params),
    }
}

/// The call that adds a download of `magnet_link`: its one parameter is a
/// list holding just the link.
pub fn add_uri_request(magnet_link: &str) -> (request: RpcRequest)
    ensures
        request.method@ == "aria2.addUri"@,
        request.id@ == "1"@,
        ({
            &&& request.params matches Some(params)
            &&& params@.len() == 1
            &&& params@[0] matches RpcParam::TextList(uris)
            &&& uris@.len() == 1
            &&& uris@[0]@ == magnet_link@
        }),
{
    let mut uris: Vec<String> = Vec::new();
    uris.push(magnet_link.to_owned());
    let mut params: Vec<RpcParam> = Vec::new();
    params.push(RpcParam::TextList(uris));
    RpcRequest { method: "aria2.addUri".to_owned(), id: "1".to_owned(), params: Some(params) }
}

/// All downloads: the active ones, then the waiting ones. A list that could
/// not be decoded counts as empty.
pub fn collect_downloads(
    active: Option<Vec<TorrentStatus>>,
    waiting: Option<Vec<TorrentStatus>>,
) -> (downloads: Vec<TorrentStatus>)
    ensures
        downloads@ == listed(active) + listed(waiting),
{
    let mut downloads: Vec<TorrentStatus> = match active {
        Some(v) => v,
        None => Vec::new(),
    };
    match waiting {
        Some(mut v) => {
            downloads.append(&mut v);
        },
        None => {},
    }
    assert(downloads@ =~= listed(active) + listed(waiting));
    downloads
}

/// What a pause or unpause reply means: the error's message (or
/// "Unknown error") when the reply has an `error` member, the result text
/// (or the empty text) otherwise.
pub fn control_outcome(reply: RpcReply) -> (outcome: Result<String, String>)
    ensures
        match reply.error {
            Some(err) => outcome matches Err(msg) && msg@ == text_or(err.message, "Unknown error"@),
            None => outcome matches Ok(res) && res@ == text_or(reply.result, ""@),
        },
{
    match reply.error {
        Some(err) => match err.message {
            Some(msg) => Err(msg),
            None => Err("Unknown error".to_owned()),
        },
        None => match reply.result {
            Some(res) => Ok(res),
            None => Ok("".to_owned()),
        },
    }
}

/// The GID that an `aria2.addUri` reply gives the new download, or
/// "unknown" when its result is not a string.
pub fn added_gid(reply: RpcReply) -> (gid: String)
    ensures
        gid@ == text_or(reply.result, "unknown"@),
{
    match reply.result {
        Some(gid) => gid,
        None => "unknown".to_owned(),
    }
}

} // verus!
