//! The replay side: the answers of the five protocol routes, served from a
//! finished capture that the catalog resolved.

use crate::catalog;
use crate::models::ChunkInfo;
use crate::session;
use crate::session::{media_file, MediaKind};
use vstd::prelude::*;
use vstd::string::*;

verus! {

/// A request on one of the five routes.
#[derive(Debug, Clone, PartialEq, Eq)]
pub enum ReplayRequest {
    Version,
    GameMetaData { platform_id: String, game_id: String },
    LastChunkInfo { platform_id: String, game_id: String },
    GameDataChunk { platform_id: String, game_id: String, chunk_id: u32 },
    KeyFrame { platform_id: String, game_id: String, keyframe_id: u32 },
}

/// The answer to a request.
#[derive(Debug, Clone, PartialEq, Eq)]
pub enum ReplayReply {
    /// 200 with a plain text body.
    Text(String),
    /// 200 with a JSON body, sent as it is.
    Json(String),
    /// 200 with this poll result as JSON.
    ChunkInfo(ChunkInfo),
    /// Read this file, then answer with `file_reply` of what was read.
    ReadFile(String),
    /// 200 with these bytes as they are.
    Bytes(Vec<u8>),
    /// 404.
    NotFound,
}

/// The game that a request names, if any.
pub open spec fn request_game(req: ReplayRequest) -> Option<Seq<char>> {
    match req {
        ReplayRequest::Version => None,
        ReplayRequest::GameMetaData { game_id, .. } => Some(game_id@),
        ReplayRequest::LastChunkInfo { game_id, .. } => Some(game_id@),
        ReplayRequest::GameDataChunk { game_id, .. } => Some(game_id@),
        ReplayRequest::KeyFrame { game_id, .. } => Some(game_id@),
    }
}

/// The largest id of a list, or 0 for an empty list.
pub open spec fn ids_max(s: Seq<u32>) -> u32
    decreases s.len(),
{
    if s.len() == 0 {
        0
    } else {
        let m = ids_max(s.drop_last());
        if s.last() > m {
            s.last()
        } else {
            m
        }
    }
}

/// The last-chunk information of a finished capture with the given stored
/// chunk and keyframe ids: its newest chunk and keyframe, with the newest
/// chunk as the end of the game and nothing more to wait for.
pub open spec fn finished_chunk_info(chunks: Seq<u32>, keyframes: Seq<u32>) -> ChunkInfo {
    ChunkInfo {
        chunk_id: ids_max(chunks),
        available_since: 30000,
        next_available_chunk: 0,
        key_frame_id: ids_max(keyframes),
        next_chunk_id: ids_max(chunks),
        end_startup_chunk_id: 1,
        start_game_chunk_id: 2,
        end_game_chunk_id: ids_max(chunks),
        duration: 3000,
    }
}

/// Whether `c` is the last-chunk information of the catalog record `r`:
/// exact whenever both id lists are stored as written at export.
pub open spec fn is_finished_chunk_info(r: catalog::Record, c: ChunkInfo) -> bool {
    forall|chunks: Seq<u32>, keyframes: Seq<u32>|
        r.game_data_chunks@ == catalog::ids_json(chunks) && r.keyframes@ == catalog::ids_json(
            keyframes,
        ) ==> c == finished_chunk_info(chunks, keyframes)
}

/// Whether `reply` is the answer to `req` when the catalog resolved the
/// request's game to `found` (`None`: unknown game).
pub open spec fn is_reply(req: ReplayRequest, found: Option<catalog::Record>, reply: ReplayReply) -> bool {
    match req {
        ReplayRequest::Version => reply matches ReplayReply::Text(v) && v@ == "2.0.0"@,
        ReplayRequest::GameMetaData { .. } => match found {
            None => reply is NotFound,
            Some(r) => reply matches ReplayReply::Json(m) && m@ == r.metadata@,
        },
        ReplayRequest::LastChunkInfo { .. } => match found {
            None => reply is NotFound,
            Some(r) => reply matches ReplayReply::ChunkInfo(c) && is_finished_chunk_info(r, c),
        },
        ReplayRequest::GameDataChunk { chunk_id, .. } => match found {
            None => reply is NotFound,
            Some(r) => reply matches ReplayReply::ReadFile(p) && p@ == media_file(
                r.storage_path@,
                MediaKind::GameDataChunk,
                chunk_id,
            ),
        },
        ReplayRequest::KeyFrame { keyframe_id, .. } => match found {
            None => reply is NotFound,
            Some(r) => reply matches ReplayReply::ReadFile(p) && p@ == media_file(
                r.storage_path@,
                MediaKind::KeyFrame,
                keyframe_id,
            ),
        },
    }
}

/// The record that a lookup resolved, by value.
pub open spec fn resolved(found: Option<&catalog::Record>) -> Option<catalog::Record> {
    match found {
        Some(r) => Some(*r),
        None => None,
    }
}

impl ReplayRequest {
    /// The game that the request names, if any.
    pub fn game_id(&self) -> (r: Option<String>)
        ensures
            r is None <==> request_game(*self) is None,
            r matches Some(g) ==> request_game(*self) == Some(g@),
    {
        match self {
            ReplayRequest::Version => None,
            ReplayRequest::GameMetaData { game_id, .. } => Some(game_id.clone()),
            ReplayRequest::LastChunkInfo { game_id, .. } => Some(game_id.clone()),
            ReplayRequest::GameDataChunk { game_id, .. } => Some(game_id.clone()),
            ReplayRequest::KeyFrame { game_id, .. } => Some(game_id.clone()),
        }
    }
}

/// The largest id of a list, or 0 for an empty list.
pub fn largest_id(ids: &Vec<u32>) -> (r: u32)
    ensures
        r == ids_max(ids@),
        forall|i: int| 0 <= i < ids@.len() ==> ids@[i] <= r,
        ids@.len() > 0 ==> ids@.contains(r),
        ids@.len() == 0 ==> r == 0,
{
    proof {
        lemma_ids_max(ids@);
    }
    let mut m: u32 = 0;
    let mut i: usize = 0;
    while i < ids.len()
        invariant
            i <= ids@.len(),
            m == ids_max(ids@.subrange(0, i as int)),
        decreases ids@.len() - i,
    {
        assert(ids@.subrange(0, i + 1).drop_last() =~= ids@.subrange(0, i as int));
        if ids[i] > m {
            m = ids[i];
        }
        i += 1;
    }
    assert(ids@.subrange(0, ids@.len() as int) =~= ids@);
    m
}

/// The largest id of a list is in the list and bounds every member; it is 0
/// for an empty list.
pub proof fn lemma_ids_max(s: Seq<u32>)
    ensures
        forall|i: int| 0 <= i < s.len() ==> s[i] <= ids_max(s),
        s.len() > 0 ==> s.contains(ids_max(s)),
        s.len() == 0 ==> ids_max(s) == 0,
    decreases s.len(),
{
    if s.len() > 0 {
        lemma_ids_max(s.drop_last());
        assert forall|i: int| 0 <= i < s.len() implies s[i] <= ids_max(s) by {
            if i < s.len() - 1 {
                assert(s[i] == s.drop_last()[i]);
            }
        }
        if s.last() <= ids_max(s.drop_last()) && s.len() > 1 {
            let k = choose|k: int| 0 <= k < s.drop_last().len() && s.drop_last()[k] == ids_max(s.drop_last());
            assert(s[k] == ids_max(s));
        } else {
            assert(s[s.len() - 1] == ids_max(s));
        }
    }
}

/// The newest id of a stored list: 0 when the list is empty or cannot be read.
fn largest_stored_id(text: &String) -> (r: u32)
    ensures
        forall|v: Seq<u32>| text@ == catalog::ids_json(v) ==> r == ids_max(v),
{
    match catalog::decode_ids(text.as_str()) {
        Some(ids) => largest_id(&ids),
        None => 0,
    }
}

/// The last-chunk information of a finished capture.
pub fn last_chunk_info(record: &catalog::Record) -> (r: ChunkInfo)
    ensures
        is_finished_chunk_info(*record, r),
{
    let chunk_id = largest_stored_id(&record.game_data_chunks);
    ChunkInfo {
        chunk_id,
        available_since: 30000,
        next_available_chunk: 0,
        key_frame_id: largest_stored_id(&record.keyframes),
        next_chunk_id: chunk_id,
        end_startup_chunk_id: 1,
        start_game_chunk_id: 2,
        end_game_chunk_id: chunk_id,
        duration: 3000,
    }
}

/// The answer to `req`, given what the catalog resolved its game to: the
/// fixed version, the stored metadata as it is, the finished capture's
/// last-chunk information, or the file of the requested item; 404 for an
/// unknown game.
pub fn respond(req: &ReplayRequest, found: Option<&catalog::Record>) -> (r: ReplayReply)
    ensures
        is_reply(*req, resolved(found), r),
{
    match req {
        ReplayRequest::Version => ReplayReply::Text(String::from_str("2.0.0")),
        ReplayRequest::GameMetaData { .. } => match found {
            None => ReplayReply::NotFound,
            Some(r) => ReplayReply::Json(r.metadata.clone()),
        },
        ReplayRequest::LastChunkInfo { .. } => match found {
            None => ReplayReply::NotFound,
            Some(r) => ReplayReply::ChunkInfo(last_chunk_info(r)),
        },
        ReplayRequest::GameDataChunk { chunk_id, .. } => match found {
            None => ReplayReply::NotFound,
            Some(r) => ReplayReply::ReadFile(
                session::media_file_path(r.storage_path.as_str(), MediaKind::GameDataChunk, *chunk_id),
            ),
        },
        ReplayRequest::KeyFrame { keyframe_id, .. } => match found {
            None => ReplayReply::NotFound,
            Some(r) => ReplayReply::ReadFile(
                session::media_file_path(r.storage_path.as_str(), MediaKind::KeyFrame, *keyframe_id),
            ),
        },
    }
}

/// The answer once a requested file was read (`None`: it could not be read):
/// its bytes exactly as they were read, or 404.
pub fn file_reply(content: Option<Vec<u8>>) -> (r: ReplayReply)
    ensures
        content matches Some(b) ==> r == ReplayReply::Bytes(b),
        content is None ==> r is NotFound,
{
    match content {
        Some(b) => ReplayReply::Bytes(b),
        None => ReplayReply::NotFound,
    }
}

/// An unknown game gets 404 on every route that names a game.
pub proof fn lemma_unknown_game_not_found(req: ReplayRequest, reply: ReplayReply)
    requires
        request_game(req) is Some,
        is_reply(req, None, reply),
    ensures
        reply is NotFound,
{
}

/// The file that the replay reads for a chunk of an exported session is the
/// file that the session wrote that chunk to; with `file_reply`, the bytes
/// served are the bytes read from it, unchanged.
pub proof fn lemma_replay_reads_stored_chunk(
    s: session::Record,
    c: catalog::Record,
    platform_id: String,
    chunk_id: u32,
    reply: ReplayReply,
)
    requires
        catalog::exports_session(c, s),
        is_reply(
            ReplayRequest::GameDataChunk { platform_id, game_id: s.game_id, chunk_id },
            Some(c),
            reply,
        ),
    ensures
        reply matches ReplayReply::ReadFile(p) && p@ == media_file(
            s.storage_path@,
            MediaKind::GameDataChunk,
            chunk_id,
        ),
{
}

/// The same for a keyframe.
pub proof fn lemma_replay_reads_stored_keyframe(
    s: session::Record,
    c: catalog::Record,
    platform_id: String,
    keyframe_id: u32,
    reply: ReplayReply,
)
    requires
        catalog::exports_session(c, s),
        is_reply(
            ReplayRequest::KeyFrame { platform_id, game_id: s.game_id, keyframe_id },
            Some(c),
            reply,
        ),
    ensures
        reply matches ReplayReply::ReadFile(p) && p@ == media_file(
            s.storage_path@,
            MediaKind::KeyFrame,
            keyframe_id,
        ),
{
}

} // verus!
