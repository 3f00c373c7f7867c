use replay_recorder::endpoints::{
    game_data_chunk_url, game_meta_data_url, keyframe_url, last_chunk_info_url, media_url,
    version_url,
};
use replay_recorder::models::SpectatorEndpoint;
use replay_recorder::session::MediaKind;

fn local() -> SpectatorEndpoint {
    SpectatorEndpoint::new("http://127.0.0.1:1234".to_string(), "KR".to_string())
}

#[test]
fn version_url_shape() {
    assert_eq!(version_url(&local()), "http://127.0.0.1:1234/observer-mode/rest/consumer/version");
}

#[test]
fn game_meta_data_url_shape() {
    assert_eq!(
        game_meta_data_url(&local(), "6654667050"),
        "http://127.0.0.1:1234/observer-mode/rest/consumer/getGameMetaData/KR/6654667050/1/token"
    );
}

#[test]
fn last_chunk_info_url_shape() {
    assert_eq!(
        last_chunk_info_url(&local(), "6654667050"),
        "http://127.0.0.1:1234/observer-mode/rest/consumer/getLastChunkInfo/KR/6654667050/0/token"
    );
}

#[test]
fn game_data_chunk_url_shape() {
    assert_eq!(
        game_data_chunk_url(&local(), "6654667050", 1),
        "http://127.0.0.1:1234/observer-mode/rest/consumer/getGameDataChunk/KR/6654667050/1/token"
    );
    assert_eq!(
        media_url(&local(), "6654667050", MediaKind::GameDataChunk, 39),
        "http://127.0.0.1:1234/observer-mode/rest/consumer/getGameDataChunk/KR/6654667050/39/token"
    );
}

#[test]
fn keyframe_url_shape() {
    assert_eq!(
        keyframe_url(&local(), "6654667050", 1),
        "http://127.0.0.1:1234/observer-mode/rest/consumer/getKeyFrame/KR/6654667050/1/token"
    );
    assert_eq!(
        media_url(&local(), "6654667050", MediaKind::KeyFrame, 19),
        "http://127.0.0.1:1234/observer-mode/rest/consumer/getKeyFrame/KR/6654667050/19/token"
    );
}
