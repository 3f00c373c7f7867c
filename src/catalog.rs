//! The record of a finished capture, as the catalog keeps it.

use crate::session;
use crate::text::decimal;
use vstd::prelude::*;

verus! {

/// The items of a list of ids in compact JSON: decimal numbers separated by commas.
pub open spec fn ids_json_items(s: Seq<u32>) -> Seq<char>
    decreases s.len(),
{
    if s.len() == 0 {
        Seq::empty()
    } else if s.len() == 1 {
        decimal(s[0] as nat)
    } else {
        ids_json_items(s.drop_last()) + ","@ + decimal(s.last() as nat)
    }
}

/// A list of ids as compact JSON: `[1,2,3]`, or `[]` for the empty list.
pub open spec fn ids_json(s: Seq<u32>) -> Seq<char> {
    "["@ + ids_json_items(s) + "]"@
}

/// Relies on serde_json::to_string: a list of integers is written as a
/// compact JSON array, `[` then the numbers in decimal separated by `,` then
/// `]`; writing such a list cannot fail.
#[verifier::external_body]
pub(crate) fn encode_ids(ids: &Vec<u32>) -> (r: String)
    ensures
        r@ == ids_json(ids@),
{
    serde_json::to_string(ids).unwrap_or_default()
}

/// Relies on serde_json::from_str: the compact JSON array of a list of
/// integers reads back as that list.
#[verifier::external_body]
pub(crate) fn decode_ids(text: &str) -> (r: Option<Vec<u32>>)
    ensures
        forall|v: Seq<u32>| text@ == ids_json(v) ==> r is Some && r.unwrap()@ == v,
{
    serde_json::from_str(text).ok()
}

/// A finished capture: its identity, where it was captured from, its metadata
/// as JSON text, the stored ids as JSON arrays in increasing order and its
/// storage root.
#[derive(Debug, Clone, PartialEq, Eq)]
pub struct Record {
    pub id: String,
    pub version: String,
    pub base_url: String,
    pub platform_id: String,
    pub game_id: String,
    pub encryption_key: String,
    pub metadata: String,
    pub keyframes: String,
    pub game_data_chunks: String,
    pub storage_path: String,
    /// Creation time, in seconds since the Unix epoch (UTC).
    pub created_at: i64,
}

/// Whether a catalog record is the export of a capture session.
pub open spec fn exports_session(r: Record, s: session::Record) -> bool {
    &&& r.version@ == s.version@
    &&& r.base_url@ == s.endpoint.base_url@
    &&& r.platform_id@ == s.endpoint.platform_id@
    &&& r.game_id@ == s.game_id@
    &&& r.encryption_key@ == s.encryption_key@
    &&& r.storage_path@ == s.storage_path@
    &&& r.keyframes@ == ids_json(s.keyframes.sorted())
    &&& r.game_data_chunks@ == ids_json(s.game_data_chunks.sorted())
}

impl Record {
    /// The export of a finished session under the catalog id `id`, with its
    /// metadata serialized as `metadata` and created at `created_at`. The id
    /// sets are exported in increasing order, so that the export does not
    /// depend on the order of insertion.
    pub fn from_session(id: String, session: &session::Record, metadata: String, created_at: i64) -> (r:
        Record)
        requires
            session.wf(),
        ensures
            exports_session(r, *session),
            r.id@ == id@,
            r.metadata@ == metadata@,
            r.created_at == created_at,
    {
        Record {
            id,
            version: session.version.clone(),
            base_url: session.endpoint.base_url.clone(),
            platform_id: session.endpoint.platform_id.clone(),
            game_id: session.game_id.clone(),
            encryption_key: session.encryption_key.clone(),
            metadata,
            keyframes: encode_ids(&session.keyframes.to_sorted_vec()),
            game_data_chunks: encode_ids(&session.game_data_chunks.to_sorted_vec()),
            storage_path: session.storage_path.clone(),
            created_at,
        }
    }
}

} // verus!
