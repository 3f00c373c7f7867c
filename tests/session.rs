use replay_recorder::catalog;
use replay_recorder::models::SpectatorEndpoint;
use replay_recorder::session::{IdSet, MediaKind, Record};

fn session() -> Record {
    Record::new(
        "2.0.0".to_string(),
        SpectatorEndpoint::new("http://127.0.0.1:1".to_string(), "KR".to_string()),
        "6654667050".to_string(),
        "key".to_string(),
        "/tmp/captures",
    )
}

#[test]
fn session_storage_layout() {
    let r = session();
    assert_eq!(r.storage_path, "/tmp/captures/KR_6654667050");
    assert_eq!(r.media_dir(MediaKind::GameDataChunk), "/tmp/captures/KR_6654667050/chunks");
    assert_eq!(r.media_dir(MediaKind::KeyFrame), "/tmp/captures/KR_6654667050/keyframes");
    assert_eq!(r.game_data_chunk_path(12), "/tmp/captures/KR_6654667050/chunks/12");
    assert_eq!(r.key_frame_path(7), "/tmp/captures/KR_6654667050/keyframes/7");
    assert!(r.metadata.is_none());
}

#[test]
fn session_marks_are_idempotent() {
    let mut r = session();
    assert!(!r.has_game_data_chunk(3));
    r.insert_game_data_chunk(3);
    r.insert_game_data_chunk(3);
    assert!(r.has_game_data_chunk(3));
    assert!(!r.has_keyframe(3));
    r.insert_keyframe(2);
    assert!(r.has_keyframe(2));
    assert!(r.has_media(MediaKind::KeyFrame, 2));
    assert_eq!(r.sorted_game_data_chunks(), vec![3]);
}

#[test]
fn failed_store_leaves_id_unmarked() {
    let mut r = session();
    r.complete_store(MediaKind::GameDataChunk, 5, false);
    assert!(!r.has_game_data_chunk(5));
    r.complete_store(MediaKind::GameDataChunk, 5, true);
    assert!(r.has_game_data_chunk(5));
    assert!(!r.has_keyframe(5));
    r.complete_store(MediaKind::KeyFrame, 9, false);
    assert!(!r.has_keyframe(9));
}

#[test]
fn id_set_sorted_export() {
    let mut s = IdSet::new();
    for id in [5u32, 1, 9, 5, 3, u32::MAX, 0] {
        s.insert(id);
    }
    assert_eq!(s.to_sorted_vec(), vec![0, 1, 3, 5, 9, u32::MAX]);
    assert!(s.contains(9));
    assert!(!s.contains(4));
    assert_eq!(s.max(), Some(u32::MAX));
    assert_eq!(IdSet::new().max(), None);
}

#[test]
fn catalog_export_of_session() {
    let mut r = session();
    r.insert_keyframe(2);
    r.insert_keyframe(1);
    r.insert_game_data_chunk(4);
    r.insert_game_data_chunk(2);
    r.insert_game_data_chunk(3);
    let c = catalog::Record::from_session("id-1".to_string(), &r, "{}".to_string(), 1692129702);
    assert_eq!(c.id, "id-1");
    assert_eq!(c.version, "2.0.0");
    assert_eq!(c.base_url, "http://127.0.0.1:1");
    assert_eq!(c.platform_id, "KR");
    assert_eq!(c.game_id, "6654667050");
    assert_eq!(c.encryption_key, "key");
    assert_eq!(c.metadata, "{}");
    assert_eq!(c.keyframes, "[1,2]");
    assert_eq!(c.game_data_chunks, "[2,3,4]");
    assert_eq!(c.storage_path, "/tmp/captures/KR_6654667050");
    assert_eq!(c.created_at, 1692129702);
}

#[test]
fn catalog_export_of_empty_session() {
    let r = session();
    let c = catalog::Record::from_session("id-2".to_string(), &r, "null".to_string(), 0);
    assert_eq!(c.keyframes, "[]");
    assert_eq!(c.game_data_chunks, "[]");
}
