use replay_recorder::catalog;
use replay_recorder::error::RecordingError;
use replay_recorder::models::{ChunkInfo, SpectatorEndpoint};
use replay_recorder::replay::{file_reply, largest_id, last_chunk_info, respond, ReplayReply, ReplayRequest};
use replay_recorder::session::Record;

fn finished() -> catalog::Record {
    let mut s = Record::new(
        "2.0.0".to_string(),
        SpectatorEndpoint::new("http://127.0.0.1:1".to_string(), "KR".to_string()),
        "6654667050".to_string(),
        "key".to_string(),
        "/data",
    );
    for id in [3u32, 1, 2] {
        s.insert_game_data_chunk(id);
    }
    s.insert_keyframe(1);
    catalog::Record::from_session("x".to_string(), &s, "{\"gameKey\":1}".to_string(), 0)
}

fn game_routes(game: &str) -> Vec<ReplayRequest> {
    let p = "KR".to_string();
    let g = game.to_string();
    vec![
        ReplayRequest::GameMetaData { platform_id: p.clone(), game_id: g.clone() },
        ReplayRequest::LastChunkInfo { platform_id: p.clone(), game_id: g.clone() },
        ReplayRequest::GameDataChunk { platform_id: p.clone(), game_id: g.clone(), chunk_id: 1 },
        ReplayRequest::KeyFrame { platform_id: p, game_id: g, keyframe_id: 1 },
    ]
}

#[test]
fn unknown_game_is_not_found_on_every_route() {
    for req in game_routes("42") {
        assert_eq!(respond(&req, None), ReplayReply::NotFound);
    }
    assert_eq!(respond(&ReplayRequest::Version, None), ReplayReply::Text("2.0.0".to_string()));
}

#[test]
fn known_game_routes() {
    let r = finished();
    let reqs = game_routes("6654667050");
    assert_eq!(respond(&reqs[0], Some(&r)), ReplayReply::Json("{\"gameKey\":1}".to_string()));
    assert_eq!(
        respond(&reqs[2], Some(&r)),
        ReplayReply::ReadFile("/data/KR_6654667050/chunks/1".to_string())
    );
    assert_eq!(
        respond(&reqs[3], Some(&r)),
        ReplayReply::ReadFile("/data/KR_6654667050/keyframes/1".to_string())
    );
    assert_eq!(reqs[1].game_id(), Some("6654667050".to_string()));
    assert_eq!(ReplayRequest::Version.game_id(), None);
}

#[test]
fn last_chunk_info_reflects_capture() {
    let r = finished();
    let expected = ChunkInfo {
        chunk_id: 3,
        available_since: 30000,
        next_available_chunk: 0,
        key_frame_id: 1,
        next_chunk_id: 3,
        end_startup_chunk_id: 1,
        start_game_chunk_id: 2,
        end_game_chunk_id: 3,
        duration: 3000,
    };
    assert_eq!(last_chunk_info(&r), expected);
    let req = ReplayRequest::LastChunkInfo { platform_id: "KR".to_string(), game_id: "6654667050".to_string() };
    assert_eq!(respond(&req, Some(&r)), ReplayReply::ChunkInfo(expected));
    assert_eq!(largest_id(&vec![]), 0);
    assert_eq!(largest_id(&vec![4, 9, 2]), 9);
}

#[test]
fn stored_chunk_path_is_served_path() {
    let mut s = Record::new(
        "2.0.0".to_string(),
        SpectatorEndpoint::new("http://127.0.0.1:1".to_string(), "KR".to_string()),
        "7".to_string(),
        "".to_string(),
        "/data/",
    );
    s.complete_store(replay_recorder::session::MediaKind::GameDataChunk, 12, true);
    let written = s.game_data_chunk_path(12);
    let c = catalog::Record::from_session("x".to_string(), &s, "null".to_string(), 0);
    let req = ReplayRequest::GameDataChunk { platform_id: "KR".to_string(), game_id: "7".to_string(), chunk_id: 12 };
    assert_eq!(respond(&req, Some(&c)), ReplayReply::ReadFile(written));
    let bytes = vec![0u8, 255, 7, 42];
    assert_eq!(file_reply(Some(bytes.clone())), ReplayReply::Bytes(bytes));
    assert_eq!(file_reply(None), ReplayReply::NotFound);
}

#[test]
fn recording_error_messages() {
    assert_eq!(RecordingError::NetworkError("timeout".to_string()).message(), "network error: timeout");
    assert_eq!(RecordingError::Io("denied".to_string()).message(), "IO error occurred: denied");
    assert_eq!(RecordingError::ArcUnwrapError.message(), "failed to unwrap Arc");
}

#[test]
fn last_chunk_info_of_unreadable_lists() {
    let mut r = finished();
    r.game_data_chunks = "not json".to_string();
    r.keyframes = "[]".to_string();
    let info = last_chunk_info(&r);
    assert_eq!(info.chunk_id, 0);
    assert_eq!(info.key_frame_id, 0);
    assert_eq!(info.end_game_chunk_id, 0);
}
