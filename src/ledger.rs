use std::collections::HashMap;
use vstd::prelude::*;

verus! {

broadcast use vstd::std_specs::hash::group_hash_axioms;

/// Memory class of an allocation: mappable by the host, or device-local.
#[derive(Clone, Copy, Debug, PartialEq, Eq, Structural)]
pub enum BufferType {
    CpuVisible,
    GpuOnly,
}

/// An allocation as the ledger tracks it: a unique id, its byte size and
/// its memory class.
#[derive(Clone, Copy, Debug, PartialEq, Eq, Structural)]
pub struct AllocationRecord {
    pub id: u64,
    pub size: u64,
    pub class: BufferType,
}

/// What one non-blocking poll of the deallocation channel observed.
#[derive(Clone, Copy, Debug, PartialEq, Eq, Structural)]
pub enum ChannelPoll {
    /// A handle returned the allocation with this id.
    Received(u64),
    /// Nothing is waiting right now.
    Empty,
    /// Every sender is gone and nothing is waiting.
    Disconnected,
}

/// What the owner of the ledger must do after a poll.
#[derive(Clone, Copy, Debug, PartialEq, Eq, Structural)]
pub enum PollAction {
    /// Give this allocation back to the memory engine.
    Free(AllocationRecord),
    /// The id is not outstanding (never issued, or already freed): free nothing.
    Reject(u64),
    /// Nothing to do until the next poll.
    Idle,
    /// The channel is closed: no allocation will ever come back again.
    Closed,
}

/// Why the ledger refused to record a new allocation.
#[derive(Clone, Copy, Debug, PartialEq, Eq, Structural)]
pub enum LedgerError {
    /// Cleanup has begun: the ledger accepts no new allocations.
    ShuttingDown,
    /// Every allocation id has been used.
    IdsExhausted,
}

/// The ledger as mathematical values.
pub struct LedgerView {
    /// The id that the next allocation receives; every smaller id was issued.
    pub next_id: u64,
    /// Allocations handed out and not yet given back to the memory engine.
    pub live: Map<u64, AllocationRecord>,
    /// Ids given back to the memory engine, in the order it happened.
    pub freed: Seq<u64>,
    /// The ledger's own sender has been released (cleanup has begun).
    pub closing: bool,
    /// The deallocation channel has reported that it is closed.
    pub disconnected: bool,
}

/// Every issued id is either live or freed, never both, and none was freed twice.
pub open spec fn ledger_wf(v: LedgerView) -> bool {
    &&& v.live.dom().finite()
    &&& forall|id: u64| #[trigger]
        v.live.contains_key(id) ==> id < v.next_id && v.live[id].id == id
    &&& forall|k: int| 0 <= k < v.freed.len() ==> #[trigger] v.freed[k] < v.next_id
    &&& v.freed.no_duplicates()
    &&& forall|id: u64| id < v.next_id ==> (#[trigger] v.live.contains_key(id) <==> !v.freed.contains(id))
}

/// The ledger after an allocation of `size` bytes of `class` is recorded.
pub open spec fn record_spec(v: LedgerView, size: u64, class: BufferType) -> (LedgerView, Result<AllocationRecord, LedgerError>) {
    if v.closing {
        (v, Err(LedgerError::ShuttingDown))
    } else if v.next_id == u64::MAX {
        (v, Err(LedgerError::IdsExhausted))
    } else {
        let r = AllocationRecord { id: v.next_id, size, class };
        (LedgerView { next_id: (v.next_id + 1) as u64, live: v.live.insert(v.next_id, r), ..v }, Ok(r))
    }
}

/// The ledger after the allocation `id` comes back, and what to do with it.
pub open spec fn return_spec(v: LedgerView, id: u64) -> (LedgerView, PollAction) {
    if v.live.contains_key(id) {
        (LedgerView { live: v.live.remove(id), freed: v.freed.push(id), ..v }, PollAction::Free(v.live[id]))
    } else {
        (v, PollAction::Reject(id))
    }
}

/// The ledger after one poll of the deallocation channel, and what to do.
pub open spec fn poll_spec(v: LedgerView, poll: ChannelPoll) -> (LedgerView, PollAction) {
    match poll {
        ChannelPoll::Received(id) => return_spec(v, id),
        ChannelPoll::Empty => (v, PollAction::Idle),
        ChannelPoll::Disconnected => (LedgerView { disconnected: true, ..v }, PollAction::Closed),
    }
}

/// The ledger after a sequence of polls, each acted on in order.
pub open spec fn polls_spec(v: LedgerView, polls: Seq<ChannelPoll>) -> LedgerView
    decreases polls.len(),
{
    if polls.len() == 0 {
        v
    } else {
        polls_spec(poll_spec(v, polls[0]).0, polls.drop_first())
    }
}

/// One poll keeps the ledger well formed and only appends to the freed ids.
pub proof fn lemma_poll_preserves(v: LedgerView, poll: ChannelPoll)
    requires
        ledger_wf(v),
    ensures
        ledger_wf(poll_spec(v, poll).0),
        poll_spec(v, poll).0.next_id == v.next_id,
        v.freed.is_prefix_of(poll_spec(v, poll).0.freed),
{
    let v2 = poll_spec(v, poll).0;
    assert(v.freed.is_prefix_of(v2.freed)) by {
        assert forall|k: int| 0 <= k < v.freed.len() implies v.freed[k] == v2.freed[k] by {}
    }
    if let ChannelPoll::Received(id) = poll {
        if v.live.contains_key(id) {
            assert(!v.freed.contains(id));
            assert forall|a: int, b: int|
                0 <= a < v2.freed.len() && 0 <= b < v2.freed.len() && a != b
                    implies v2.freed[a] != v2.freed[b] by {
                if a < v.freed.len() && b < v.freed.len() {
                } else if a == v.freed.len() {
                    assert(v2.freed[b] == v.freed[b]);
                } else {
                    assert(v2.freed[a] == v.freed[a]);
                }
            }
            assert forall|k: int| 0 <= k < v2.freed.len() implies #[trigger] v2.freed[k] < v2.next_id by {
                if k < v.freed.len() {
                    assert(v2.freed[k] == v.freed[k]);
                }
            }
            assert forall|i: u64| i < v2.next_id implies (#[trigger] v2.live.contains_key(i) <==> !v2.freed.contains(i)) by {
                if i != id {
                    if v2.freed.contains(i) {
                        let k = choose|k: int| 0 <= k < v2.freed.len() && v2.freed[k] == i;
                        assert(v.freed[k] == i);
                    }
                    if v.freed.contains(i) {
                        let k = choose|k: int| 0 <= k < v.freed.len() && v.freed[k] == i;
                        assert(v2.freed[k] == i);
                    }
                } else {
                    assert(v2.freed[v.freed.len() as int] == id);
                }
            }
        }
    }
}

/// No double free: however the handles' returns arrive (any order, repeated
/// or foreign ids included), the ledger stays well formed, so no id is ever
/// given back to the memory engine twice, and what was freed stays freed.
pub proof fn lemma_no_double_free(v: LedgerView, polls: Seq<ChannelPoll>)
    requires
        ledger_wf(v),
    ensures
        ledger_wf(polls_spec(v, polls)),
        polls_spec(v, polls).freed.no_duplicates(),
        v.freed.is_prefix_of(polls_spec(v, polls).freed),
        polls_spec(v, polls).next_id == v.next_id,
    decreases polls.len(),
{
    if polls.len() > 0 {
        let v1 = poll_spec(v, polls[0]).0;
        lemma_poll_preserves(v, polls[0]);
        lemma_no_double_free(v1, polls.drop_first());
        let w = polls_spec(v1, polls.drop_first());
        assert forall|k: int| 0 <= k < v.freed.len() implies v.freed[k] == w.freed[k] by {
            assert(v.freed[k] == v1.freed[k]);
        }
    }
}

/// A return of an allocation that was already freed frees nothing.
pub proof fn lemma_second_return_rejected(v: LedgerView, id: u64)
    requires
        ledger_wf(v),
        v.live.contains_key(id),
    ensures
        return_spec(v, id).1 == PollAction::Free(v.live[id]),
        return_spec(return_spec(v, id).0, id).1 == PollAction::Reject(id),
{
}

/// Once nothing is outstanding, every allocation ever issued has been given
/// back to the memory engine exactly once.
pub proof fn lemma_drained_freed_exactly_once(v: LedgerView)
    requires
        ledger_wf(v),
        v.live.dom().is_empty(),
    ensures
        forall|id: u64| id < v.next_id ==> #[trigger] v.freed.contains(id),
        v.freed.no_duplicates(),
{
    assert forall|id: u64| id < v.next_id implies #[trigger] v.freed.contains(id) by {
        assert(!v.live.dom().contains(id));
    }
}

/// No leak on error: an allocation recorded for a resource whose creation
/// then failed, and handed straight back, leaves the outstanding set as it was.
pub proof fn lemma_rollback_restores(v: LedgerView, size: u64, class: BufferType)
    requires
        ledger_wf(v),
        !v.closing,
        v.next_id < u64::MAX,
    ensures
        ({
            let (v1, r) = record_spec(v, size, class);
            let (v2, a) = return_spec(v1, r->Ok_0.id);
            &&& r is Ok
            &&& a == PollAction::Free(r->Ok_0)
            &&& v2.live == v.live
            &&& ledger_wf(v2)
        }),
{
    let (v1, r) = record_spec(v, size, class);
    let id = v.next_id;
    assert(!v.live.contains_key(id));
    assert(v1.live.remove(id) =~= v.live);
    assert(ledger_wf(v1)) by {
        assert forall|i: u64| i < v1.next_id implies (#[trigger] v1.live.contains_key(i) <==> !v1.freed.contains(i)) by {
            if i == id && v.freed.contains(i) {
                let k = choose|k: int| 0 <= k < v.freed.len() && v.freed[k] == i;
                assert(v.freed[k] < v.next_id);
            }
        }
    }
    lemma_poll_preserves(v1, ChannelPoll::Received(id));
}

/// Cleanup makes progress: once it has begun no allocation is recorded, the
/// outstanding set never grows, and each freed return shrinks it by one, so
/// at most as many frees as were outstanding remain before the channel closes.
pub proof fn lemma_cleanup_progress(v: LedgerView, poll: ChannelPoll, size: u64, class: BufferType)
    requires
        ledger_wf(v),
        v.closing,
    ensures
        ({
            let (v2, a) = poll_spec(v, poll);
            &&& v2.closing
            &&& record_spec(v2, size, class).1 == Err::<AllocationRecord, LedgerError>(LedgerError::ShuttingDown)
            &&& v2.live.dom().len() <= v.live.dom().len()
            &&& (a is Free ==> v2.live.dom().len() + 1 == v.live.dom().len())
        }),
{
    if let ChannelPoll::Received(id) = poll {
        if v.live.contains_key(id) {
            v.live.lemma_remove_key_len(id);
        }
    }
}

/// Cleanup terminates once the handles are gone: whatever the polls observe,
/// every free shrinks the outstanding set by one, so the number of frees
/// is bounded by what was outstanding when the polls began.
pub proof fn lemma_cleanup_frees_bounded(v: LedgerView, polls: Seq<ChannelPoll>)
    requires
        ledger_wf(v),
    ensures
        polls_spec(v, polls).live.dom().len() + (polls_spec(v, polls).freed.len() - v.freed.len())
            == v.live.dom().len(),
        polls_spec(v, polls).live.dom().subset_of(v.live.dom()),
        polls_spec(v, polls).closing == v.closing,
    decreases polls.len(),
{
    if polls.len() > 0 {
        let v1 = poll_spec(v, polls[0]).0;
        lemma_poll_preserves(v, polls[0]);
        lemma_cleanup_frees_bounded(v1, polls.drop_first());
        if let ChannelPoll::Received(id) = polls[0] {
            if v.live.contains_key(id) {
                v.live.lemma_remove_key_len(id);
            }
        }
    }
}

/// The polls that deliver the returns `ids`, in order.
pub open spec fn returns_of(ids: Seq<u64>) -> Seq<ChannelPoll> {
    Seq::new(ids.len(), |j: int| ChannelPoll::Received(ids[j]))
}

/// Draining returns from distinct handles: each returned allocation is freed
/// exactly once, in the order it came back, and the outstanding count drops
/// by exactly the number of returns.
pub proof fn lemma_distinct_returns_all_freed(v: LedgerView, ids: Seq<u64>)
    requires
        ledger_wf(v),
        ids.no_duplicates(),
        forall|j: int| 0 <= j < ids.len() ==> v.live.contains_key(#[trigger] ids[j]),
    ensures
        polls_spec(v, returns_of(ids)).freed == v.freed + ids,
        polls_spec(v, returns_of(ids)).live.dom().len() + ids.len() == v.live.dom().len(),
        forall|j: int| 0 <= j < ids.len() ==> !polls_spec(v, returns_of(ids)).live.contains_key(#[trigger] ids[j]),
    decreases ids.len(),
{
    let polls = returns_of(ids);
    if ids.len() == 0 {
        assert(v.freed + ids =~= v.freed);
    } else {
        let id = ids[0];
        let v1 = poll_spec(v, polls[0]).0;
        lemma_poll_preserves(v, polls[0]);
        v.live.lemma_remove_key_len(id);
        let rest = ids.drop_first();
        assert(polls.drop_first() =~= returns_of(rest));
        assert(rest.no_duplicates()) by {
            assert forall|a: int, b: int| 0 <= a < rest.len() && 0 <= b < rest.len() && a != b implies rest[a] != rest[b] by {
                assert(rest[a] == ids[a + 1] && rest[b] == ids[b + 1]);
            }
        }
        assert forall|j: int| 0 <= j < rest.len() implies v1.live.contains_key(#[trigger] rest[j]) by {
            assert(rest[j] == ids[j + 1]);
            assert(ids[j + 1] != ids[0]);
            assert(v.live.contains_key(ids[j + 1]));
        }
        lemma_distinct_returns_all_freed(v1, rest);
        assert(v1.freed + rest =~= v.freed + ids);
        assert forall|j: int| 0 <= j < ids.len() implies !polls_spec(v, polls).live.contains_key(#[trigger] ids[j]) by {
            if j > 0 {
                assert(ids[j] == rest[j - 1]);
            } else {
                lemma_cleanup_frees_bounded(v1, returns_of(rest));
                assert(!v1.live.contains_key(id));
                assert(!v1.live.dom().contains(id));
            }
        }
    }
}

/// Book of every allocation that an allocator handed out and of those that
/// came back to it, from whichever thread dropped the resource.
pub struct AllocationLedger {
    next_id: u64,
    live: HashMap<u64, AllocationRecord>,
    freed: Ghost<Seq<u64>>,
    closing: bool,
    disconnected: bool,
}

impl View for AllocationLedger {
    type V = LedgerView;

    closed spec fn view(&self) -> LedgerView {
        LedgerView {
            next_id: self.next_id,
            live: self.live@,
            freed: self.freed@,
            closing: self.closing,
            disconnected: self.disconnected,
        }
    }
}

impl AllocationLedger {
    pub fn new() -> (r: AllocationLedger)
        ensures
            r@.next_id == 0,
            r@.live == Map::<u64, AllocationRecord>::empty(),
            r@.freed == Seq::<u64>::empty(),
            !r@.closing,
            !r@.disconnected,
            ledger_wf(r@),
    {
        AllocationLedger {
            next_id: 0,
            live: HashMap::new(),
            freed: Ghost(Seq::empty()),
            closing: false,
            disconnected: false,
        }
    }

    /// Number of allocations handed out and not yet freed.
    pub fn outstanding(&self) -> (r: usize)
        ensures
            r == self@.live.len(),
    {
        self.live.len()
    }

    pub fn is_live(&self, id: u64) -> (r: bool)
        ensures
            r == self@.live.contains_key(id),
    {
        self.live.contains_key(&id)
    }

    pub fn is_closing(&self) -> (r: bool)
        ensures
            r == self@.closing,
    {
        self.closing
    }

    pub fn is_disconnected(&self) -> (r: bool)
        ensures
            r == self@.disconnected,
    {
        self.disconnected
    }

    /// Records a fresh allocation and gives it the next id.
    pub fn record_allocation(&mut self, size: u64, class: BufferType) -> (r: Result<AllocationRecord, LedgerError>)
        requires
            ledger_wf(old(self)@),
        ensures
            ledger_wf(final(self)@),
            (final(self)@, r) == record_spec(old(self)@, size, class),
    {
        if self.closing {
            return Err(LedgerError::ShuttingDown);
        }
        if self.next_id == u64::MAX {
            return Err(LedgerError::IdsExhausted);
        }
        let ghost pre = self@;
        let r = AllocationRecord { id: self.next_id, size, class };
        self.live.insert(self.next_id, r);
        self.next_id = self.next_id + 1;
        proof {
            let post = self@;
            assert forall|i: u64| i < post.next_id implies (#[trigger] post.live.contains_key(i) <==> !post.freed.contains(i)) by {
                if i == pre.next_id {
                    if pre.freed.contains(i) {
                        let k = choose|k: int| 0 <= k < pre.freed.len() && pre.freed[k] == i;
                        assert(pre.freed[k] < pre.next_id);
                    }
                }
            }
        }
        Ok(r)
    }

    /// Takes back the allocation `id`, whether a dropped handle sent it or a
    /// half-created resource is being rolled back.
    pub fn accept_return(&mut self, id: u64) -> (r: PollAction)
        requires
            ledger_wf(old(self)@),
        ensures
            ledger_wf(final(self)@),
            (final(self)@, r) == return_spec(old(self)@, id),
    {
        let ghost pre = self@;
        match self.live.remove(&id) {
            Some(rec) => {
                self.freed = Ghost(self.freed@.push(id));
                proof {
                    let post = self@;
                    assert(post.live == pre.live.remove(id));
                    assert(rec == pre.live[id]);
                    assert(post.freed.no_duplicates()) by {
                        assert(!pre.freed.contains(id));
                        assert forall|a: int, b: int|
                            0 <= a < post.freed.len() && 0 <= b < post.freed.len() && a != b
                                implies post.freed[a] != post.freed[b] by {
                            if a < pre.freed.len() && b < pre.freed.len() {
                            } else if a == pre.freed.len() {
                                assert(post.freed[b] == pre.freed[b]);
                            } else {
                                assert(post.freed[a] == pre.freed[a]);
                            }
                        }
                    }
                    assert forall|k: int| 0 <= k < post.freed.len() implies #[trigger] post.freed[k] < post.next_id by {
                        if k < pre.freed.len() {
                            assert(post.freed[k] == pre.freed[k]);
                        }
                    }
                    assert forall|i: u64| i < post.next_id implies (#[trigger] post.live.contains_key(i) <==> !post.freed.contains(i)) by {
                        if i != id {
                            if post.freed.contains(i) {
                                let k = choose|k: int| 0 <= k < post.freed.len() && post.freed[k] == i;
                                assert(pre.freed[k] == i);
                            }
                            if pre.freed.contains(i) {
                                let k = choose|k: int| 0 <= k < pre.freed.len() && pre.freed[k] == i;
                                assert(post.freed[k] == i);
                            }
                        } else {
                            assert(post.freed[pre.freed.len() as int] == id);
                        }
                    }
                }
                PollAction::Free(rec)
            },
            None => {
                assert(!pre.live.contains_key(id));
                assert(self.live@ =~= pre.live);
                PollAction::Reject(id)
            },
        }
    }

    /// Acts on one poll of the deallocation channel.
    pub fn on_poll(&mut self, poll: ChannelPoll) -> (r: PollAction)
        requires
            ledger_wf(old(self)@),
        ensures
            ledger_wf(final(self)@),
            (final(self)@, r) == poll_spec(old(self)@, poll),
    {
        match poll {
            ChannelPoll::Received(id) => self.accept_return(id),
            ChannelPoll::Empty => PollAction::Idle,
            ChannelPoll::Disconnected => {
                self.disconnected = true;
                PollAction::Closed
            },
        }
    }

    /// Releases the ledger's own sender: from now on no allocation is recorded,
    /// and the channel closes once every handle is gone.
    pub fn begin_cleanup(&mut self)
        requires
            ledger_wf(old(self)@),
        ensures
            ledger_wf(final(self)@),
            final(self)@ == (LedgerView { closing: true, ..old(self)@ }),
    {
        self.closing = true;
    }
}

} // verus!
