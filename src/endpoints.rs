//! The URL shapes of the five upstream operations.

use crate::models::SpectatorEndpoint;
use crate::session::MediaKind;
use crate::text::{decimal, push_decimal};
use vstd::prelude::*;
use vstd::string::*;

verus! {

/// The URL of the protocol version operation.
pub open spec fn version_url_of(e: SpectatorEndpoint) -> Seq<char> {
    e.base_url@ + "/observer-mode/rest/consumer/version"@
}

/// The URL of a per-game operation: the operation's name, the platform id,
/// the game id and the operation's extra field, ending with `/token`.
pub open spec fn consumer_url(
    e: SpectatorEndpoint,
    operation: Seq<char>,
    game_id: Seq<char>,
    extra: Seq<char>,
) -> Seq<char> {
    e.base_url@ + "/observer-mode/rest/consumer/"@ + operation + "/"@ + e.platform_id@ + "/"@
        + game_id + "/"@ + extra + "/token"@
}

/// The URL of the game metadata operation.
pub open spec fn game_meta_data_url_of(e: SpectatorEndpoint, game_id: Seq<char>) -> Seq<char> {
    consumer_url(e, "getGameMetaData"@, game_id, "1"@)
}

/// The URL of the last-chunk-info operation.
pub open spec fn last_chunk_info_url_of(e: SpectatorEndpoint, game_id: Seq<char>) -> Seq<char> {
    consumer_url(e, "getLastChunkInfo"@, game_id, "0"@)
}

/// The URL of one chunk.
pub open spec fn game_data_chunk_url_of(
    e: SpectatorEndpoint,
    game_id: Seq<char>,
    chunk_id: u32,
) -> Seq<char> {
    consumer_url(e, "getGameDataChunk"@, game_id, decimal(chunk_id as nat))
}

/// The URL of one keyframe.
pub open spec fn keyframe_url_of(e: SpectatorEndpoint, game_id: Seq<char>, keyframe_id: u32) -> Seq<
    char,
> {
    consumer_url(e, "getKeyFrame"@, game_id, decimal(keyframe_id as nat))
}

fn consumer_prefix(endpoint: &SpectatorEndpoint, operation: &str, game_id: &str) -> (r: String)
    ensures
        r@ == endpoint.base_url@ + "/observer-mode/rest/consumer/"@ + operation@ + "/"@
            + endpoint.platform_id@ + "/"@ + game_id@ + "/"@,
{
    let mut s = String::from_str(endpoint.base_url.as_str());
    s.append("/observer-mode/rest/consumer/");
    s.append(operation);
    s.append("/");
    s.append(endpoint.platform_id.as_str());
    s.append("/");
    s.append(game_id);
    s.append("/");
    s
}

/// The URL of the protocol version operation of `endpoint`.
pub fn version_url(endpoint: &SpectatorEndpoint) -> (r: String)
    ensures
        r@ == version_url_of(*endpoint),
{
    let mut s = String::from_str(endpoint.base_url.as_str());
    s.append("/observer-mode/rest/consumer/version");
    s
}

/// The URL of the metadata of `game_id`.
pub fn game_meta_data_url(endpoint: &SpectatorEndpoint, game_id: &str) -> (r: String)
    ensures
        r@ == game_meta_data_url_of(*endpoint, game_id@),
{
    let mut s = consumer_prefix(endpoint, "getGameMetaData", game_id);
    s.append("1");
    s.append("/token");
    s
}

/// The URL of the last chunk information of `game_id`.
pub fn last_chunk_info_url(endpoint: &SpectatorEndpoint, game_id: &str) -> (r: String)
    ensures
        r@ == last_chunk_info_url_of(*endpoint, game_id@),
{
    let mut s = consumer_prefix(endpoint, "getLastChunkInfo", game_id);
    s.append("0");
    s.append("/token");
    s
}

/// The URL of chunk `chunk_id` of `game_id`.
pub fn game_data_chunk_url(endpoint: &SpectatorEndpoint, game_id: &str, chunk_id: u32) -> (r:
    String)
    ensures
        r@ == game_data_chunk_url_of(*endpoint, game_id@, chunk_id),
{
    let mut s = consumer_prefix(endpoint, "getGameDataChunk", game_id);
    push_decimal(&mut s, chunk_id as u64);
    s.append("/token");
    s
}

/// The URL of keyframe `keyframe_id` of `game_id`.
pub fn keyframe_url(endpoint: &SpectatorEndpoint, game_id: &str, keyframe_id: u32) -> (r: String)
    ensures
        r@ == keyframe_url_of(*endpoint, game_id@, keyframe_id),
{
    let mut s = consumer_prefix(endpoint, "getKeyFrame", game_id);
    push_decimal(&mut s, keyframe_id as u64);
    s.append("/token");
    s
}

/// The URL of one media item: a chunk or a keyframe.
pub open spec fn media_url_of(
    e: SpectatorEndpoint,
    game_id: Seq<char>,
    kind: MediaKind,
    id: u32,
) -> Seq<char> {
    match kind {
        MediaKind::GameDataChunk => game_data_chunk_url_of(e, game_id, id),
        MediaKind::KeyFrame => keyframe_url_of(e, game_id, id),
    }
}

/// The URL of one media item of `game_id`.
pub fn media_url(endpoint: &SpectatorEndpoint, game_id: &str, kind: MediaKind, id: u32) -> (r:
    String)
    ensures
        r@ == media_url_of(*endpoint, game_id@, kind, id),
{
    match kind {
        MediaKind::GameDataChunk => game_data_chunk_url(endpoint, game_id, id),
        MediaKind::KeyFrame => keyframe_url(endpoint, game_id, id),
    }
}

} // verus!
