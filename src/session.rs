//! The capture session: identity, metadata, storage location and the two
//! deduplication sets of stored chunk and keyframe ids.

use crate::models::{GameMetaData, SpectatorEndpoint};
use crate::text::{decimal, field_line, join_path, join_path_exec, push_text_field};
use vstd::prelude::*;
use vstd::string::*;

verus! {

/// A set of ids, kept as a strictly increasing list.
#[derive(Debug, Clone)]
pub struct IdSet {
    ids: Vec<u32>,
}

/// Whether a list of ids is strictly increasing.
pub open spec fn strictly_increasing(s: Seq<u32>) -> bool {
    forall|i: int, j: int| 0 <= i < j < s.len() ==> s[i] < s[j]
}

impl View for IdSet {
    type V = Set<u32>;

    closed spec fn view(&self) -> Set<u32> {
        self.ids@.to_set()
    }
}

impl IdSet {
    /// The well-formedness of the set: its list is strictly increasing.
    pub closed spec fn wf(&self) -> bool {
        strictly_increasing(self.ids@)
    }

    /// The ids in increasing order.
    pub closed spec fn sorted(&self) -> Seq<u32> {
        self.ids@
    }

    /// The order of the ids is the increasing order of the set.
    pub proof fn lemma_sorted(&self)
        requires
            self.wf(),
        ensures
            strictly_increasing(self.sorted()),
            self.sorted().to_set() == self@,
    {
    }

    /// The empty set.
    pub fn new() -> (r: Self)
        ensures
            r.wf(),
            r@ == Set::<u32>::empty(),
    {
        let r = IdSet { ids: Vec::new() };
        assert(r.ids@.to_set() =~= Set::<u32>::empty());
        r
    }

    /// The first position whose id is not below `id`.
    fn lower_bound(&self, id: u32) -> (p: usize)
        requires
            self.wf(),
        ensures
            p <= self.ids@.len(),
            forall|i: int| 0 <= i < p ==> self.ids@[i] < id,
            forall|i: int| p <= i < self.ids@.len() ==> self.ids@[i] >= id,
    {
        let mut lo: usize = 0;
        let mut hi: usize = self.ids.len();
        while lo < hi
            invariant
                self.wf(),
                lo <= hi <= self.ids@.len(),
                forall|i: int| 0 <= i < lo ==> self.ids@[i] < id,
                forall|i: int| hi <= i < self.ids@.len() ==> self.ids@[i] >= id,
            decreases hi - lo,
        {
            let mid = lo + (hi - lo) / 2;
            if self.ids[mid] < id {
                lo = mid + 1;
            } else {
                hi = mid;
            }
        }
        lo
    }

    /// Whether `id` is in the set.
    pub fn contains(&self, id: u32) -> (r: bool)
        requires
            self.wf(),
        ensures
            r == self@.contains(id),
    {
        let p = self.lower_bound(id);
        let r = p < self.ids.len() && self.ids[p] == id;
        proof {
            if !r {
                assert forall|i: int| 0 <= i < self.ids@.len() implies self.ids@[i] != id by {
                    if p < self.ids@.len() && i > p {
                        assert(self.ids@[p as int] < self.ids@[i]);
                    }
                }
            } else {
                assert(self.ids@[p as int] == id);
            }
        }
        r
    }

    /// Adds `id`; the set is unchanged when it is already there.
    pub fn insert(&mut self, id: u32)
        requires
            old(self).wf(),
        ensures
            final(self).wf(),
            final(self)@ == old(self)@.insert(id),
    {
        let p = self.lower_bound(id);
        if p < self.ids.len() && self.ids[p] == id {
            assert(self@ =~= old(self)@.insert(id));
            return;
        }
        let ghost before = self.ids@;
        self.ids.insert(p, id);
        proof {
            let after = self.ids@;
            assert(after =~= before.insert(p as int, id));
            assert forall|i: int, j: int| 0 <= i < j < after.len() implies after[i] < after[j] by {
                if j < p {
                } else if j == p {
                } else if i < p {
                    assert(before[i] < id);
                    assert(before[j - 1] >= id);
                    if p < j - 1 {
                        assert(before[p as int] < before[j - 1]);
                    }
                } else if i == p {
                    assert(before[j - 1] >= id);
                    assert(before[j - 1] != id) by {
                        if j - 1 > p {
                            assert(before[p as int] < before[j - 1]);
                        }
                    }
                } else {
                }
            }
            assert forall|x: u32| after.to_set().contains(x) <==> before.to_set().insert(id).contains(
                x,
            ) by {
                if after.contains(x) {
                    let k = choose|k: int| 0 <= k < after.len() && after[k] == x;
                    if k < p {
                        assert(before[k] == x);
                    } else if k > p {
                        assert(before[k - 1] == x);
                    }
                }
                if before.contains(x) {
                    let k = choose|k: int| 0 <= k < before.len() && before[k] == x;
                    if k < p {
                        assert(after[k] == x);
                    } else {
                        assert(after[k + 1] == x);
                    }
                }
                if x == id {
                    assert(after[p as int] == id);
                }
            }
            assert(after.to_set() =~= before.to_set().insert(id));
        }
    }

    /// The ids in increasing order.
    pub fn to_sorted_vec(&self) -> (r: Vec<u32>)
        requires
            self.wf(),
        ensures
            r@ == self.sorted(),
            strictly_increasing(r@),
            r@.to_set() == self@,
    {
        self.ids.clone()
    }

    /// The largest id, or `None` for the empty set.
    pub fn max(&self) -> (r: Option<u32>)
        requires
            self.wf(),
        ensures
            r is None <==> self@ == Set::<u32>::empty(),
            r matches Some(m) ==> self@.contains(m) && forall|x: u32| self@.contains(x) ==> x <= m,
    {
        let n = self.ids.len();
        if n == 0 {
            assert(self@ =~= Set::<u32>::empty());
            None
        } else {
            let m = self.ids[n - 1];
            proof {
                assert(self.ids@.contains(m));
                assert(self@.contains(m));
                assert forall|x: u32| self@.contains(x) implies x <= m by {
                    let k = choose|k: int| 0 <= k < self.ids@.len() && self.ids@[k] == x;
                    if k < n - 1 {
                        assert(self.ids@[k] < self.ids@[n - 1]);
                    }
                }
            }
            Some(m)
        }
    }
}

/// The two kinds of stored media.
#[derive(Debug, Clone, Copy, PartialEq, Eq, Structural)]
pub enum MediaKind {
    GameDataChunk,
    KeyFrame,
}

/// The directory name of a kind of media under a session's storage root.
pub open spec fn media_dir_name(kind: MediaKind) -> Seq<char> {
    match kind {
        MediaKind::GameDataChunk => "chunks"@,
        MediaKind::KeyFrame => "keyframes"@,
    }
}

/// The storage root of a session: `{platform_id}_{game_id}` under the base directory.
pub open spec fn session_root(base: Seq<char>, platform_id: Seq<char>, game_id: Seq<char>) -> Seq<
    char,
> {
    join_path(base, platform_id + "_"@ + game_id)
}

/// The directory of one kind of media under a storage root.
pub open spec fn media_dir(root: Seq<char>, kind: MediaKind) -> Seq<char> {
    join_path(root, media_dir_name(kind))
}

/// The file of one media item: named by its id, without extension.
pub open spec fn media_file(root: Seq<char>, kind: MediaKind, id: u32) -> Seq<char> {
    join_path(media_dir(root, kind), decimal(id as nat))
}

/// The directory name of a kind of media.
pub fn media_dir_name_exec(kind: MediaKind) -> (r: &'static str)
    ensures
        r@ == media_dir_name(kind),
{
    match kind {
        MediaKind::GameDataChunk => "chunks",
        MediaKind::KeyFrame => "keyframes",
    }
}

/// The directory of one kind of media under `root`.
pub fn media_dir_path(root: &str, kind: MediaKind) -> (r: String)
    ensures
        r@ == media_dir(root@, kind),
{
    join_path_exec(root, media_dir_name_exec(kind))
}

/// The file of one media item under `root`.
pub fn media_file_path(root: &str, kind: MediaKind, id: u32) -> (r: String)
    ensures
        r@ == media_file(root@, kind, id),
{
    let dir = media_dir_path(root, kind);
    let name = crate::text::decimal_string(id as u64);
    join_path_exec(dir.as_str(), name.as_str())
}

/// One capture in progress.
#[derive(Debug)]
pub struct Record {
    pub version: String,
    pub endpoint: SpectatorEndpoint,
    pub game_id: String,
    pub encryption_key: String,
    pub metadata: Option<GameMetaData>,
    pub storage_path: String,
    pub keyframes: IdSet,
    pub game_data_chunks: IdSet,
}

impl Record {
    /// Both deduplication sets are well formed.
    pub open spec fn wf(&self) -> bool {
        self.keyframes.wf() && self.game_data_chunks.wf()
    }

    /// The ids of one kind of media that are stored and marked.
    pub open spec fn done_ids(&self, kind: MediaKind) -> Set<u32> {
        match kind {
            MediaKind::GameDataChunk => self.game_data_chunks@,
            MediaKind::KeyFrame => self.keyframes@,
        }
    }

    /// A new session with no metadata and nothing stored yet. Its storage root
    /// is `{platform_id}_{game_id}` under `base_path`; the caller creates the
    /// two media directories under it before the first write.
    pub fn new(
        version: String,
        endpoint: SpectatorEndpoint,
        game_id: String,
        encryption_key: String,
        base_path: &str,
    ) -> (r: Self)
        ensures
            r.wf(),
            r.version@ == version@,
            r.endpoint == endpoint,
            r.game_id@ == game_id@,
            r.encryption_key@ == encryption_key@,
            r.metadata is None,
            r.storage_path@ == session_root(base_path@, endpoint.platform_id@, game_id@),
            r.game_data_chunks@ == Set::<u32>::empty(),
            r.keyframes@ == Set::<u32>::empty(),
    {
        let mut dir = String::from_str(endpoint.platform_id.as_str());
        dir.append("_");
        dir.append(game_id.as_str());
        let storage_path = join_path_exec(base_path, dir.as_str());
        Record {
            version,
            endpoint,
            game_id,
            encryption_key,
            metadata: None,
            storage_path,
            keyframes: IdSet::new(),
            game_data_chunks: IdSet::new(),
        }
    }

    /// The directory that holds one kind of media.
    pub fn media_dir(&self, kind: MediaKind) -> (r: String)
        ensures
            r@ == media_dir(self.storage_path@, kind),
    {
        media_dir_path(self.storage_path.as_str(), kind)
    }

    /// The file that holds one media item.
    pub fn media_path(&self, kind: MediaKind, id: u32) -> (r: String)
        ensures
            r@ == media_file(self.storage_path@, kind, id),
    {
        media_file_path(self.storage_path.as_str(), kind, id)
    }

    /// The file that holds chunk `chunk_id`.
    pub fn game_data_chunk_path(&self, chunk_id: u32) -> (r: String)
        ensures
            r@ == media_file(self.storage_path@, MediaKind::GameDataChunk, chunk_id),
    {
        self.media_path(MediaKind::GameDataChunk, chunk_id)
    }

    /// The file that holds keyframe `keyframe_id`.
    pub fn key_frame_path(&self, keyframe_id: u32) -> (r: String)
        ensures
            r@ == media_file(self.storage_path@, MediaKind::KeyFrame, keyframe_id),
    {
        self.media_path(MediaKind::KeyFrame, keyframe_id)
    }

    /// Whether the item is already stored and marked.
    pub fn has_media(&self, kind: MediaKind, id: u32) -> (r: bool)
        requires
            self.wf(),
        ensures
            r == self.done_ids(kind).contains(id),
    {
        match kind {
            MediaKind::GameDataChunk => self.game_data_chunks.contains(id),
            MediaKind::KeyFrame => self.keyframes.contains(id),
        }
    }

    /// Whether chunk `chunk_id` is already stored and marked.
    pub fn has_game_data_chunk(&self, chunk_id: u32) -> (r: bool)
        requires
            self.wf(),
        ensures
            r == self.game_data_chunks@.contains(chunk_id),
    {
        self.game_data_chunks.contains(chunk_id)
    }

    /// Whether keyframe `keyframe_id` is already stored and marked.
    pub fn has_keyframe(&self, keyframe_id: u32) -> (r: bool)
        requires
            self.wf(),
        ensures
            r == self.keyframes@.contains(keyframe_id),
    {
        self.keyframes.contains(keyframe_id)
    }

    /// Marks chunk `chunk_id` as stored.
    pub fn insert_game_data_chunk(&mut self, chunk_id: u32)
        requires
            old(self).wf(),
        ensures
            final(self).wf(),
            final(self).game_data_chunks@ == old(self).game_data_chunks@.insert(chunk_id),
            final(self).keyframes@ == old(self).keyframes@,
            final(self).storage_path == old(self).storage_path,
    {
        self.game_data_chunks.insert(chunk_id);
    }

    /// Marks keyframe `keyframe_id` as stored.
    pub fn insert_keyframe(&mut self, keyframe_id: u32)
        requires
            old(self).wf(),
        ensures
            final(self).wf(),
            final(self).keyframes@ == old(self).keyframes@.insert(keyframe_id),
            final(self).game_data_chunks@ == old(self).game_data_chunks@,
            final(self).storage_path == old(self).storage_path,
    {
        self.keyframes.insert(keyframe_id);
    }

    /// Records the outcome of writing one item to its file: the id is marked
    /// when, and only when, the write succeeded, so that a failed write is
    /// attempted again later.
    pub fn complete_store(&mut self, kind: MediaKind, id: u32, stored: bool)
        requires
            old(self).wf(),
        ensures
            final(self).wf(),
            final(self).done_ids(kind) == (if stored {
                old(self).done_ids(kind).insert(id)
            } else {
                old(self).done_ids(kind)
            }),
            forall|k: MediaKind| k != kind ==> final(self).done_ids(k) == old(self).done_ids(k),
            final(self).storage_path == old(self).storage_path,
            final(self).game_id == old(self).game_id,
            final(self).endpoint == old(self).endpoint,
    {
        if stored {
            match kind {
                MediaKind::GameDataChunk => self.game_data_chunks.insert(id),
                MediaKind::KeyFrame => self.keyframes.insert(id),
            }
        }
    }

    /// A readable description: version, game id and encryption key, one line each.
    pub fn describe(&self) -> (r: String)
        ensures
            r@ == field_line("Version: "@, self.version@) + field_line("Game Id: "@, self.game_id@)
                + field_line("Encryption Key: "@, self.encryption_key@),
    {
        let mut s = String::new();
        push_text_field(&mut s, "Version: ", self.version.as_str());
        assert(s@ =~= field_line("Version: "@, self.version@));
        push_text_field(&mut s, "Game Id: ", self.game_id.as_str());
        push_text_field(&mut s, "Encryption Key: ", self.encryption_key.as_str());
        s
    }

    /// The stored keyframe ids, in increasing order.
    pub fn sorted_keyframes(&self) -> (r: Vec<u32>)
        requires
            self.wf(),
        ensures
            strictly_increasing(r@),
            r@.to_set() == self.keyframes@,
    {
        self.keyframes.to_sorted_vec()
    }

    /// The stored chunk ids, in increasing order.
    pub fn sorted_game_data_chunks(&self) -> (r: Vec<u32>)
        requires
            self.wf(),
        ensures
            strictly_increasing(r@),
            r@.to_set() == self.game_data_chunks@,
    {
        self.game_data_chunks.to_sorted_vec()
    }
}

/// A failed write leaves its id unmarked, a successful one marks it: after
/// `complete_store`, the item is known as stored exactly when the write
/// succeeded or it was stored before.
pub proof fn lemma_store_then_mark(
    before: Record,
    after: Record,
    kind: MediaKind,
    id: u32,
    stored: bool,
)
    requires
        after.done_ids(kind) == (if stored {
            before.done_ids(kind).insert(id)
        } else {
            before.done_ids(kind)
        }),
    ensures
        after.done_ids(kind).contains(id) == (stored || before.done_ids(kind).contains(id)),
        !stored && !before.done_ids(kind).contains(id) ==> !after.done_ids(kind).contains(id),
{
}

} // verus!
