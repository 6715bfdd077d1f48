use tui_torrent::aria2_client::{
    add_uri_request, added_gid, collect_downloads, control_outcome, pause_request, tell_active_request,
    tell_waiting_request, unpause_request, Bittorrent, BittorrentInfo, RpcError, RpcParam, RpcReply,
    TorrentStatus,
};

fn status(gid: &str, state: &str) -> TorrentStatus {
    TorrentStatus {
        gid: gid.to_string(),
        status: state.to_string(),
        total_length: "100".to_string(),
        completed_length: "50".to_string(),
        download_speed: "10".to_string(),
        info_hash: None,
        bittorrent: Some(Bittorrent { info: Some(BittorrentInfo { name: Some(format!("file-{}", gid)) }) }),
    }
}

fn text_param(p: &RpcParam) -> String {
    match p {
        RpcParam::Text(t) => t.clone(),
        _ => panic!("expected a text parameter"),
    }
}

#[test]
fn tell_active_has_no_params() {
    let req = tell_active_request();
    assert_eq!(req.method, "aria2.tellActive");
    assert_eq!(req.id, "active");
    assert!(req.params.is_none());
}

#[test]
fn tell_waiting_asks_for_first_thousand() {
    let req = tell_waiting_request();
    assert_eq!(req.method, "aria2.tellWaiting");
    assert_eq!(req.id, "waiting");
    let params = req.params.expect("params");
    assert_eq!(params.len(), 2);
    assert!(matches!(params[0], RpcParam::Number(0)));
    assert!(matches!(params[1], RpcParam::Number(1000)));
}

#[test]
fn pause_and_unpause_carry_gid() {
    let req = pause_request("2089b05ecca3d829");
    assert_eq!(req.method, "aria2.pause");
    assert_eq!(req.id, "pause");
    let params = req.params.expect("params");
    assert_eq!(params.len(), 1);
    assert_eq!(text_param(&params[0]), "2089b05ecca3d829");

    let req = unpause_request("abc");
    assert_eq!(req.method, "aria2.unpause");
    assert_eq!(req.id, "unpause");
    let params = req.params.expect("params");
    assert_eq!(text_param(&params[0]), "abc");
}

#[test]
fn add_uri_wraps_link_in_list() {
    let req = add_uri_request("magnet:?xt=urn:btih:abc");
    assert_eq!(req.method, "aria2.addUri");
    assert_eq!(req.id, "1");
    let params = req.params.expect("params");
    assert_eq!(params.len(), 1);
    match &params[0] {
        RpcParam::TextList(uris) => assert_eq!(uris, &vec!["magnet:?xt=urn:btih:abc".to_string()]),
        _ => panic!("expected a list parameter"),
    }
}

#[test]
fn collect_downloads_active_then_waiting() {
    let all = collect_downloads(
        Some(vec![status("a1", "active"), status("a2", "active")]),
        Some(vec![status("w1", "paused")]),
    );
    let gids: Vec<String> = all.iter().map(|s| s.gid.clone()).collect();
    assert_eq!(gids, vec!["a1", "a2", "w1"]);
    assert_eq!(all[2].status, "paused");
}

#[test]
fn collect_downloads_undecodable_lists_are_empty() {
    let all = collect_downloads(None, Some(vec![status("w1", "waiting")]));
    assert_eq!(all.len(), 1);
    assert_eq!(all[0].gid, "w1");
    let all = collect_downloads(Some(vec![status("a1", "active")]), None);
    assert_eq!(all.len(), 1);
    assert!(collect_downloads(None, None).is_empty());
}

#[test]
fn control_outcome_error_with_message() {
    let reply = RpcReply {
        error: Some(RpcError { message: Some("GID 42 is not found".to_string()) }),
        result: None,
    };
    assert_eq!(control_outcome(reply), Err("GID 42 is not found".to_string()));
}

#[test]
fn control_outcome_error_without_message() {
    let reply = RpcReply { error: Some(RpcError { message: None }), result: Some("OK".to_string()) };
    assert_eq!(control_outcome(reply), Err("Unknown error".to_string()));
}

#[test]
fn control_outcome_success() {
    let reply = RpcReply { error: None, result: Some("2089b05ecca3d829".to_string()) };
    assert_eq!(control_outcome(reply), Ok("2089b05ecca3d829".to_string()));
    let reply = RpcReply { error: None, result: None };
    assert_eq!(control_outcome(reply), Ok(String::new()));
}

#[test]
fn added_gid_from_result() {
    assert_eq!(added_gid(RpcReply { error: None, result: Some("g7".to_string()) }), "g7");
    assert_eq!(added_gid(RpcReply { error: None, result: None }), "unknown");
    assert_eq!(
        added_gid(RpcReply { error: Some(RpcError { message: None }), result: None }),
        "unknown"
    );
}
