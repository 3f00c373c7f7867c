//! The decisions of a capture: what each poll result asks to fetch, which
//! fetches the deduplication sets make unnecessary, and when the capture ends.
//! The caller performs the fetches, writes and waits that these decide.

use crate::models::ChunkInfo;
use crate::session::{MediaKind, Record};
use vstd::prelude::*;

verus! {

/// Wait before polling again after a failed poll, in milliseconds.
pub const RETRY_DELAY_MS: u64 = 10000;

/// Margin added to upstream's announced delay before the next poll, in milliseconds.
pub const POLL_MARGIN_MS: u64 = 1000;

/// One item to fetch and store.
#[derive(Debug, Clone, Copy, PartialEq, Eq, Structural)]
pub struct FetchJob {
    pub kind: MediaKind,
    pub id: u32,
}

/// `count` items of one kind with ids `top`, `top - 1`, ... in this order.
pub open spec fn descending_jobs(kind: MediaKind, top: u32, count: u32) -> Seq<FetchJob> {
    Seq::new(count as nat, |i: int| FetchJob { kind, id: (top - i) as u32 })
}

/// The id below `id`, or 0 for 0.
pub open spec fn below(id: u32) -> u32 {
    if id > 0 {
        (id - 1) as u32
    } else {
        0
    }
}

/// What a backfill fetches after a poll reported `chunk_id` and
/// `keyframe_id`: chunks `chunk_id - 1` down to 1, then keyframes
/// `keyframe_id - 1` down to 1.
pub open spec fn backfill_jobs(chunk_id: u32, keyframe_id: u32) -> Seq<FetchJob> {
    descending_jobs(MediaKind::GameDataChunk, below(chunk_id), below(chunk_id))
        + descending_jobs(MediaKind::KeyFrame, below(keyframe_id), below(keyframe_id))
}

/// What the current task fetches: the reported chunk, then the reported keyframe.
pub open spec fn current_jobs(chunk_id: u32, keyframe_id: u32) -> Seq<FetchJob> {
    seq![
        FetchJob { kind: MediaKind::GameDataChunk, id: chunk_id },
        FetchJob { kind: MediaKind::KeyFrame, id: keyframe_id },
    ]
}

/// Whether the session has already stored the item of a job.
pub open spec fn job_done(record: Record, job: FetchJob) -> bool {
    record.done_ids(job.kind).contains(job.id)
}

/// A list of items to fetch in order: a descending run of chunk ids, then a
/// descending run of keyframe ids.
#[derive(Debug, Clone)]
pub struct FetchTask {
    chunk_top: u32,
    chunk_count: u32,
    keyframe_top: u32,
    keyframe_count: u32,
}

impl View for FetchTask {
    type V = Seq<FetchJob>;

    /// The items that remain, in the order in which they are fetched.
    closed spec fn view(&self) -> Seq<FetchJob> {
        descending_jobs(MediaKind::GameDataChunk, self.chunk_top, self.chunk_count)
            + descending_jobs(MediaKind::KeyFrame, self.keyframe_top, self.keyframe_count)
    }
}

impl FetchTask {
    /// Each run stays within the ids from its top down to 0.
    pub closed spec fn wf(&self) -> bool {
        self.chunk_count <= self.chunk_top + 1 && self.keyframe_count <= self.keyframe_top + 1
    }

    /// The backfill after a poll that reported `chunk_id` and `keyframe_id`.
    pub fn backfill(chunk_id: u32, keyframe_id: u32) -> (r: Self)
        ensures
            r.wf(),
            r@ == backfill_jobs(chunk_id, keyframe_id),
    {
        let c: u32 = if chunk_id > 0 {
            chunk_id - 1
        } else {
            0
        };
        let k: u32 = if keyframe_id > 0 {
            keyframe_id - 1
        } else {
            0
        };
        FetchTask { chunk_top: c, chunk_count: c, keyframe_top: k, keyframe_count: k }
    }

    /// The fetch of exactly the reported chunk and keyframe.
    pub fn current(chunk_id: u32, keyframe_id: u32) -> (r: Self)
        ensures
            r.wf(),
            r@ == current_jobs(chunk_id, keyframe_id),
    {
        let r = FetchTask {
            chunk_top: chunk_id,
            chunk_count: 1,
            keyframe_top: keyframe_id,
            keyframe_count: 1,
        };
        assert(r@ =~= current_jobs(chunk_id, keyframe_id));
        r
    }

    /// Whether nothing remains.
    pub fn is_empty(&self) -> (r: bool)
        ensures
            r == (self@.len() == 0),
    {
        self.chunk_count == 0 && self.keyframe_count == 0
    }

    /// Takes the first remaining item, whatever the session holds.
    fn take_first(&mut self) -> (r: FetchJob)
        requires
            old(self).wf(),
            old(self)@.len() > 0,
        ensures
            final(self).wf(),
            r == old(self)@[0],
            final(self)@ == old(self)@.drop_first(),
    {
        let ghost a = descending_jobs(MediaKind::GameDataChunk, self.chunk_top, self.chunk_count);
        let ghost b = descending_jobs(MediaKind::KeyFrame, self.keyframe_top, self.keyframe_count);
        if self.chunk_count > 0 {
            let r = FetchJob { kind: MediaKind::GameDataChunk, id: self.chunk_top };
            if self.chunk_count > 1 {
                self.chunk_top = self.chunk_top - 1;
            }
            self.chunk_count = self.chunk_count - 1;
            assert(self@ =~= old(self)@.drop_first()) by {
                assert(old(self)@ == a + b);
                assert((a + b).drop_first() =~= a.drop_first() + b);
            }
            r
        } else {
            let r = FetchJob { kind: MediaKind::KeyFrame, id: self.keyframe_top };
            if self.keyframe_count > 1 {
                self.keyframe_top = self.keyframe_top - 1;
            }
            self.keyframe_count = self.keyframe_count - 1;
            assert(a =~= Seq::<FetchJob>::empty());
            assert(self@ =~= old(self)@.drop_first());
            r
        }
    }

    /// The next item that the session does not hold yet. Items that it holds
    /// are passed over without a fetch; the task then resumes after the
    /// returned item. `None` when every remaining item is held.
    pub fn next_fetch(&mut self, record: &Record) -> (r: Option<FetchJob>)
        requires
            old(self).wf(),
            record.wf(),
        ensures
            final(self).wf(),
            final(self)@.len() <= old(self)@.len(),
            final(self)@ == old(self)@.subrange(
                old(self)@.len() - final(self)@.len(),
                old(self)@.len() as int,
            ),
            r is None ==> final(self)@.len() == 0,
            r is None <==> forall|i: int|
                0 <= i < old(self)@.len() ==> job_done(*record, #[trigger] old(self)@[i]),
            r matches Some(j) ==> {
                let n = old(self)@.len() - final(self)@.len() - 1;
                &&& 0 <= n
                &&& j == old(self)@[n]
                &&& !job_done(*record, j)
                &&& forall|i: int| 0 <= i < n ==> job_done(*record, #[trigger] old(self)@[i])
            },
    {
        let ghost start = self@;
        while !self.is_empty()
            invariant
                start == old(self)@,
                self.wf(),
                record.wf(),
                self@.len() <= start.len(),
                self@ == start.subrange(start.len() - self@.len(), start.len() as int),
                forall|i: int|
                    0 <= i < start.len() - self@.len() ==> job_done(*record, #[trigger] start[i]),
            decreases self@.len(),
        {
            let ghost before = self@;
            let job = self.take_first();
            assert(job == start[start.len() - before.len()]);
            assert(self@ =~= start.subrange(start.len() - self@.len(), start.len() as int));
            if !record.has_media(job.kind, job.id) {
                return Some(job);
            }
        }
        None
    }
}

/// The orchestrator's polling state: the chunk and keyframe ids it expects next.
#[derive(Debug, Clone, Copy, PartialEq, Eq, Structural)]
pub struct CaptureLoop {
    pub expected_chunk_id: u32,
    pub expected_keyframe_id: u32,
}

/// The state before the first poll: both ids expected at 1.
pub open spec fn initial_loop() -> CaptureLoop {
    CaptureLoop { expected_chunk_id: 1, expected_keyframe_id: 1 }
}

/// Whether a poll result differs from what the loop expects.
pub open spec fn has_gap(state: CaptureLoop, c: ChunkInfo) -> bool {
    c.chunk_id != state.expected_chunk_id || c.key_frame_id != state.expected_keyframe_id
}

/// An id advanced by one, held at the largest value.
pub open spec fn advance(id: u32) -> u32 {
    if id < u32::MAX {
        (id + 1) as u32
    } else {
        id
    }
}

/// The state after a successful poll: both expected ids advanced by one,
/// however far upstream moved.
pub open spec fn after_poll(state: CaptureLoop) -> CaptureLoop {
    CaptureLoop {
        expected_chunk_id: advance(state.expected_chunk_id),
        expected_keyframe_id: advance(state.expected_keyframe_id),
    }
}

/// Whether a poll result marks the end of the game.
pub open spec fn poll_ends_game(c: ChunkInfo) -> bool {
    c.chunk_id == c.end_game_chunk_id
}

/// The state after a run of successful polls.
pub open spec fn state_after(state: CaptureLoop, polls: Seq<ChunkInfo>) -> CaptureLoop
    decreases polls.len(),
{
    if polls.len() == 0 {
        state
    } else {
        after_poll(state_after(state, polls.drop_last()))
    }
}

/// What to do after a successful poll.
#[derive(Debug, Clone)]
pub struct Dispatch {
    /// The backfill to start, when the poll showed a gap.
    pub backfill: Option<FetchTask>,
    /// The fetch of the reported chunk and keyframe.
    pub current: FetchTask,
    /// Whether the capture ends after this dispatch.
    pub finished: bool,
    /// How long to wait before the next poll, in milliseconds.
    pub wait_ms: u64,
}

/// The outcome of one poll.
#[derive(Debug, Clone)]
pub enum PollDecision {
    /// The poll failed: poll again after the wait.
    Retry { wait_ms: u64 },
    /// The poll succeeded: start the tasks, then end or wait.
    Dispatch(Dispatch),
}

impl CaptureLoop {
    /// The state before the first poll.
    pub fn new() -> (r: Self)
        ensures
            r == initial_loop(),
    {
        CaptureLoop { expected_chunk_id: 1, expected_keyframe_id: 1 }
    }

    /// Decides on one poll result (`None` for a failed poll). A failure is
    /// retried after a fixed delay and changes nothing. A success always
    /// fetches the reported pair, starts a backfill when the result differs
    /// from the expected ids, ends the capture when the reported chunk is the
    /// game's last one, and advances the expected ids by one.
    pub fn on_poll(&mut self, poll: Option<ChunkInfo>) -> (r: PollDecision)
        ensures
            poll is None ==> *final(self) == *old(self) && r == (PollDecision::Retry {
                wait_ms: RETRY_DELAY_MS,
            }),
            poll matches Some(c) ==> {
                &&& *final(self) == after_poll(*old(self))
                &&& r matches PollDecision::Dispatch(d) && {
                    &&& d.current.wf()
                    &&& d.current@ == current_jobs(c.chunk_id, c.key_frame_id)
                    &&& (d.backfill is Some <==> has_gap(*old(self), c))
                    &&& (d.backfill matches Some(t) ==> t.wf() && t@ == backfill_jobs(
                        c.chunk_id,
                        c.key_frame_id,
                    ))
                    &&& d.finished == poll_ends_game(c)
                    &&& d.wait_ms == (if poll_ends_game(c) {
                        0
                    } else {
                        c.next_available_chunk + POLL_MARGIN_MS
                    })
                }
            },
    {
        match poll {
            None => PollDecision::Retry { wait_ms: RETRY_DELAY_MS },
            Some(c) => {
                let gap = c.chunk_id != self.expected_chunk_id || c.key_frame_id
                    != self.expected_keyframe_id;
                let backfill = if gap {
                    Some(FetchTask::backfill(c.chunk_id, c.key_frame_id))
                } else {
                    None
                };
                let current = FetchTask::current(c.chunk_id, c.key_frame_id);
                let finished = c.chunk_id == c.end_game_chunk_id;
                let wait_ms: u64 = if finished {
                    0
                } else {
                    c.next_available_chunk as u64 + POLL_MARGIN_MS
                };
                self.expected_chunk_id = self.expected_chunk_id.saturating_add(1);
                self.expected_keyframe_id = self.expected_keyframe_id.saturating_add(1);
                PollDecision::Dispatch(Dispatch { backfill, current, finished, wait_ms })
            },
        }
    }
}

/// After `n` successful polls from the initial state, both expected ids are `n + 1`.
pub proof fn lemma_state_after_initial(polls: Seq<ChunkInfo>)
    requires
        polls.len() < u32::MAX,
    ensures
        state_after(initial_loop(), polls) == (CaptureLoop {
            expected_chunk_id: (polls.len() + 1) as u32,
            expected_keyframe_id: (polls.len() + 1) as u32,
        }),
    decreases polls.len(),
{
    if polls.len() > 0 {
        lemma_state_after_initial(polls.drop_last());
    }
}

/// When the polls report chunk and keyframe ids 1, 2, 3, ... with no gap,
/// no poll differs from what the loop expects: none of them starts a
/// backfill, and each only fetches its reported pair.
pub proof fn lemma_consecutive_polls_never_backfill(polls: Seq<ChunkInfo>)
    requires
        forall|i: int|
            0 <= i < polls.len() ==> #[trigger] polls[i].chunk_id == i + 1 && polls[i].key_frame_id
                == i + 1,
    ensures
        forall|i: int|
            0 <= i < polls.len() ==> !has_gap(
                state_after(initial_loop(), #[trigger] polls.take(i)),
                polls[i],
            ),
{
    assert forall|i: int| 0 <= i < polls.len() implies !has_gap(
        state_after(initial_loop(), #[trigger] polls.take(i)),
        polls[i],
    ) by {
        assert(polls[i].chunk_id == i + 1);
        lemma_state_after_initial(polls.take(i));
    }
}

/// A first poll that reports chunk `k > 1` shows a gap; its backfill fetches
/// chunks `k - 1` down to 1, then keyframes below the reported one down to
/// 1, each run in descending order.
pub proof fn lemma_late_first_poll_backfills(c: ChunkInfo)
    requires
        c.chunk_id > 1,
    ensures
        has_gap(initial_loop(), c),
        backfill_jobs(c.chunk_id, c.key_frame_id).len() == (c.chunk_id - 1) + below(c.key_frame_id),
        forall|i: int|
            0 <= i < c.chunk_id - 1 ==> #[trigger] backfill_jobs(c.chunk_id, c.key_frame_id)[i] == (
            FetchJob { kind: MediaKind::GameDataChunk, id: (c.chunk_id - 1 - i) as u32 }),
        forall|i: int|
            0 <= i < below(c.key_frame_id) ==> #[trigger] backfill_jobs(c.chunk_id, c.key_frame_id)[(
            c.chunk_id - 1) + i] == (FetchJob {
                kind: MediaKind::KeyFrame,
                id: (c.key_frame_id - 1 - i) as u32,
            }),
{
}

} // verus!
