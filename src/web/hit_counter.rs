use vstd::prelude::*;

use crate::domain::field::short_code::ShortCode;

verus! {

/// `a + b`, held at `u64::MAX` when it does not fit.
pub open spec fn sat_add(a: nat, b: nat) -> u64 {
    if a + b > u64::MAX {
        u64::MAX
    } else {
        (a + b) as u64
    }
}

/// The count accumulated for `code` in `m`; zero when there is no entry.
pub open spec fn count_in(m: Map<Seq<char>, u64>, code: Seq<char>) -> nat {
    if m.contains_key(code) {
        m[code] as nat
    } else {
        0
    }
}

/// The coalesced counts after `count` more views of `code`.
pub open spec fn add_hit(m: Map<Seq<char>, u64>, code: Seq<char>, count: u32) -> Map<
    Seq<char>,
    u64,
> {
    m.insert(code, sat_add(count_in(m, code), count as nat))
}

/// No code occurs twice among the entries.
pub open spec fn unique_codes(s: Seq<(ShortCode, u64)>) -> bool {
    forall|i: int, j: int| 0 <= i < j < s.len() ==> s[i].0@ != s[j].0@
}

/// The entries as a mapping from code to count.
pub open spec fn batch_map(s: Seq<(ShortCode, u64)>) -> Map<Seq<char>, u64>
    decreases s.len(),
{
    if s.len() == 0 {
        Map::empty()
    } else {
        batch_map(s.drop_last()).insert(s.last().0@, s.last().1)
    }
}

proof fn lemma_batch_map_has(s: Seq<(ShortCode, u64)>, k: Seq<char>)
    ensures
        batch_map(s).contains_key(k) <==> exists|i: int| 0 <= i < s.len() && #[trigger] s[i].0@ == k,
    decreases s.len(),
{
    if s.len() > 0 {
        lemma_batch_map_has(s.drop_last(), k);
        if batch_map(s.drop_last()).contains_key(k) {
            let i = choose|i: int| 0 <= i < s.drop_last().len() && #[trigger] s.drop_last()[i].0@ == k;
            assert(s[i].0@ == k);
        }
        if exists|i: int| 0 <= i < s.len() && #[trigger] s[i].0@ == k {
            let i = choose|i: int| 0 <= i < s.len() && #[trigger] s[i].0@ == k;
            if i < s.len() - 1 {
                assert(s.drop_last()[i].0@ == k);
            }
        }
    }
}

proof fn lemma_batch_map_at(s: Seq<(ShortCode, u64)>, i: int)
    requires
        unique_codes(s),
        0 <= i < s.len(),
    ensures
        batch_map(s).contains_key(s[i].0@),
        batch_map(s)[s[i].0@] == s[i].1,
    decreases s.len(),
{
    if i < s.len() - 1 {
        assert(s.drop_last()[i] == s[i]);
        lemma_batch_map_at(s.drop_last(), i);
    }
}

proof fn lemma_batch_map_update(s: Seq<(ShortCode, u64)>, i: int, e: (ShortCode, u64))
    requires
        unique_codes(s),
        0 <= i < s.len(),
        e.0@ == s[i].0@,
    ensures
        batch_map(s.update(i, e)) == batch_map(s).insert(e.0@, e.1),
    decreases s.len(),
{
    let t = s.update(i, e);
    if i == s.len() - 1 {
        assert(t.drop_last() == s.drop_last());
        assert(batch_map(t) =~= batch_map(s).insert(e.0@, e.1));
    } else {
        assert(t.drop_last() == s.drop_last().update(i, e));
        lemma_batch_map_update(s.drop_last(), i, e);
        assert(s.last().0@ != e.0@);
        assert(batch_map(t) =~= batch_map(s).insert(e.0@, e.1));
    }
}

/// The coalescing store: the counts accumulated since the last flush, one
/// entry per code.
pub struct HitStore {
    entries: Vec<(ShortCode, u64)>,
}

impl View for HitStore {
    type V = Map<Seq<char>, u64>;

    closed spec fn view(&self) -> Map<Seq<char>, u64> {
        batch_map(self.entries@)
    }
}

impl HitStore {
    #[verifier::type_invariant]
    spec fn codes_are_unique(&self) -> bool {
        unique_codes(self.entries@)
    }

    /// An empty store.
    pub fn new() -> (r: Self)
        ensures
            r@ == Map::<Seq<char>, u64>::empty(),
    {
        HitStore { entries: Vec::new() }
    }

    /// Adds `count` views of `code` to its entry, creating the entry at zero
    /// when it is absent.
    pub fn record(&mut self, code: ShortCode, count: u32)
        ensures
            final(self)@ == add_hit(old(self)@, code@, count),
    {
        proof {
            use_type_invariant(&*self);
        }
        let mut entries: Vec<(ShortCode, u64)> = Vec::new();
        std::mem::swap(&mut entries, &mut self.entries);
        let ghost s = entries@;
        let mut i: usize = 0;
        while i < entries.len()
            invariant
                entries@ == s,
                old(self)@ == batch_map(s),
                unique_codes(s),
                i <= s.len(),
                forall|j: int| 0 <= j < i ==> #[trigger] s[j].0@ != code@,
            decreases s.len() - i,
        {
            if entries[i].0.same_as(&code) {
                let prior: u64 = entries[i].1;
                let total: u64 = if prior > u64::MAX - count as u64 {
                    u64::MAX
                } else {
                    prior + count as u64
                };
                proof {
                    lemma_batch_map_at(s, i as int);
                    lemma_batch_map_update(s, i as int, (code, total));
                    assert(count_in(batch_map(s), code@) == prior as nat);
                    assert(total == sat_add(prior as nat, count as nat));
                }
                let ghost e = (code, total);
                entries.set(i, (code, total));
                assert(entries@ == s.update(i as int, e));
                assert(unique_codes(entries@));
                self.entries = entries;
                return;
            }
            i = i + 1;
        }
        proof {
            lemma_batch_map_has(s, code@);
        }
        entries.push((code, count as u64));
        assert(entries@.drop_last() == s);
        assert(batch_map(entries@) =~= add_hit(batch_map(s), code@, count));
        self.entries = entries;
    }

    /// Swap-and-clear: hands out every accumulated `(code, count)` pair, one
    /// per code, and leaves the store empty.
    pub fn take_batch(&mut self) -> (batch: Vec<(ShortCode, u64)>)
        ensures
            final(self)@ == Map::<Seq<char>, u64>::empty(),
            unique_codes(batch@),
            batch_map(batch@) == old(self)@,
    {
        proof {
            use_type_invariant(&*self);
        }
        let mut batch: Vec<(ShortCode, u64)> = Vec::new();
        std::mem::swap(&mut batch, &mut self.entries);
        batch
    }
}

/// A message to the aggregation loop.
#[derive(Debug)]
pub enum HitCountMsg {
    /// Flush the accumulated counts to storage now.
    Commit,
    /// `count` more views of the code.
    Hit(ShortCode, u32),
}

/// What the aggregation loop sees of a message, with the code by its text.
pub enum HitMsgView {
    Commit,
    Hit(Seq<char>, u32),
}

impl View for HitCountMsg {
    type V = HitMsgView;

    open spec fn view(&self) -> HitMsgView {
        match self {
            HitCountMsg::Commit => HitMsgView::Commit,
            HitCountMsg::Hit(code, count) => HitMsgView::Hit(code@, *count),
        }
    }
}

/// One message applied to the store: the store afterwards, and the batch that
/// was flushed, if the message asked for a flush.
pub open spec fn msg_step(m: Map<Seq<char>, u64>, msg: HitMsgView) -> (Map<Seq<char>, u64>, Option<
    Map<Seq<char>, u64>,
>) {
    match msg {
        HitMsgView::Commit => (Map::empty(), Some(m)),
        HitMsgView::Hit(code, count) => (add_hit(m, code, count), None),
    }
}

/// A run of messages applied to the store in order: the store afterwards, and
/// every flushed batch in the order of the flushes.
pub open spec fn run_msgs(m: Map<Seq<char>, u64>, msgs: Seq<HitMsgView>) -> (Map<Seq<char>, u64>, Seq<
    Map<Seq<char>, u64>,
>)
    decreases msgs.len(),
{
    if msgs.len() == 0 {
        (m, Seq::empty())
    } else {
        let prior = run_msgs(m, msgs.drop_last());
        let (store, flushed) = msg_step(prior.0, msgs.last());
        match flushed {
            Some(batch) => (store, prior.1.push(batch)),
            None => (store, prior.1),
        }
    }
}

/// The outcome of one non-blocking receive from the mailbox.
pub enum Received {
    Message(HitCountMsg),
    /// No message is ready.
    Empty,
    /// Every sender is gone; no message will come again.
    Disconnected,
}

/// What the aggregation loop does next.
pub enum LoopAction {
    /// Receive again at once.
    Receive,
    /// Write this batch to storage, wait for it, then receive again.
    Flush(Vec<(ShortCode, u64)>),
    /// Sleep for the idle period, send `Commit` to the mailbox, then receive again.
    IdleThenCommit,
    /// Leave the loop.
    Stop,
}

impl HitStore {
    /// Applies one message: a hit is added to its code's entry; a commit
    /// swaps out the whole store as the batch to flush.
    pub fn process_msg(&mut self, msg: HitCountMsg) -> (r: Option<Vec<(ShortCode, u64)>>)
        ensures
            final(self)@ == msg_step(old(self)@, msg@).0,
            match r {
                Some(batch) => {
                    &&& msg_step(old(self)@, msg@).1 == Some(batch_map(batch@))
                    &&& unique_codes(batch@)
                },
                None => msg_step(old(self)@, msg@).1 is None,
            },
    {
        match msg {
            HitCountMsg::Commit => Some(self.take_batch()),
            HitCountMsg::Hit(code, count) => {
                self.record(code, count);
                None
            },
        }
    }

    /// One turn of the aggregation loop, given what the last receive gave.
    pub fn step(&mut self, event: Received) -> (r: LoopAction)
        ensures
            match event {
                Received::Message(msg) => {
                    &&& final(self)@ == msg_step(old(self)@, msg@).0
                    &&& match r {
                        LoopAction::Flush(batch) => {
                            &&& msg@ is Commit
                            &&& batch_map(batch@) == old(self)@
                            &&& unique_codes(batch@)
                        },
                        LoopAction::Receive => msg@ is Hit,
                        _ => false,
                    }
                },
                Received::Empty => r is IdleThenCommit && final(self)@ == old(self)@,
                Received::Disconnected => r is Stop && final(self)@ == old(self)@,
            },
    {
        match event {
            Received::Message(msg) => match self.process_msg(msg) {
                Some(batch) => LoopAction::Flush(batch),
                None => LoopAction::Receive,
            },
            Received::Empty => LoopAction::IdleThenCommit,
            Received::Disconnected => LoopAction::Stop,
        }
    }
}

#[verifier::external_type_specification]
#[verifier::external_body]
#[verifier::reject_recursive_types(T)]
pub struct ExSender<T>(crossbeam_channel::Sender<T>);

#[verifier::external_type_specification]
#[verifier::external_body]
#[verifier::reject_recursive_types(T)]
pub struct ExReceiver<T>(crossbeam_channel::Receiver<T>);

/// Relies on crossbeam-channel's `unbounded`: a new channel with no bound on
/// how many messages it holds, as its sending and receiving ends.
#[verifier::external_body]
fn unbounded_mailbox() -> (r: (
    crossbeam_channel::Sender<HitCountMsg>,
    crossbeam_channel::Receiver<HitCountMsg>,
)) {
    crossbeam_channel::unbounded()
}

/// Relies on crossbeam-channel's `Sender::send` on the handle's sender, which
/// `HitCounter::new` alone creates, with `unbounded`: on such a channel `send`
/// never waits for room, and when the receiving end is gone it fails at once
/// and hands the message back. The message is returned in that case, `None`
/// otherwise.
#[verifier::external_body]
fn send_msg(counter: &HitCounter, msg: HitCountMsg) -> (r: Option<HitCountMsg>)
    ensures
        r matches Some(back) ==> back@ == msg@,
{
    match counter.tx.send(msg) {
        Ok(()) => None,
        Err(crossbeam_channel::SendError(back)) => Some(back),
    }
}

/// The handle that request handling uses to report views. Its mailbox is
/// always unbounded: no report ever waits for the aggregation loop.
pub struct HitCounter {
    tx: crossbeam_channel::Sender<HitCountMsg>,
}

impl HitCounter {
    /// A handle on a new unbounded mailbox, and the mailbox's receiving end,
    /// which the aggregation loop reads. Once every handle is dropped, the
    /// receiving end reports the mailbox as disconnected.
    pub fn new() -> (r: (Self, crossbeam_channel::Receiver<HitCountMsg>)) {
        let (tx, rx) = unbounded_mailbox();
        (HitCounter { tx }, rx)
    }

    /// Reports `count` views of `short_code`: posts `Hit(short_code, count)` to
    /// the mailbox and returns at once. When the aggregation loop is gone the
    /// report is dropped; nothing is returned or raised either way.
    pub fn hit(&self, short_code: ShortCode, count: u32) {
        let _undelivered = send_msg(self, HitCountMsg::Hit(short_code, count));
    }
}

/// The entries of a batch with each code by its text.
pub open spec fn entry_views(s: Seq<(ShortCode, u64)>) -> Seq<(Seq<char>, u64)> {
    s.map_values(|e: (ShortCode, u64)| (e.0@, e.1))
}

/// Where a commit of one batch stands.
#[derive(PartialEq, Eq, Structural, Clone, Copy, Debug)]
pub enum CommitPhase {
    /// The transaction is to be opened.
    Begin,
    /// The entries are being applied one after another.
    Apply,
    /// Every entry has been tried; the transaction is to be committed.
    Finish,
    /// Nothing more is to be done.
    Done,
}

/// How the commit of one batch ended.
#[derive(PartialEq, Eq, Structural, Clone, Copy, Debug)]
pub enum CommitOutcome {
    /// The transaction committed, with every increment that storage accepted.
    Committed,
    /// The transaction could not be opened: the batch is lost.
    BeginFailed,
    /// The transaction failed to commit: the batch is lost.
    CommitFailed,
}

/// A request to storage.
pub enum StorageOp {
    /// Open a transaction.
    Begin,
    /// Within the transaction, add this many views to the code's persisted count.
    Increment(ShortCode, u64),
    /// Commit the transaction.
    Commit,
}

pub enum StorageOpView {
    Begin,
    Increment(Seq<char>, u64),
    Commit,
}

impl View for StorageOp {
    type V = StorageOpView;

    open spec fn view(&self) -> StorageOpView {
        match self {
            StorageOp::Begin => StorageOpView::Begin,
            StorageOp::Increment(code, count) => StorageOpView::Increment(code@, *count),
            StorageOp::Commit => StorageOpView::Commit,
        }
    }
}

/// The state of a commit, with codes by their text.
pub struct CommitView {
    pub batch: Seq<(Seq<char>, u64)>,
    pub phase: CommitPhase,
    /// Index of the entry to apply next.
    pub next: nat,
    /// The entries whose increment storage accepted, in order.
    pub applied: Seq<(Seq<char>, u64)>,
    pub outcome: Option<CommitOutcome>,
}

/// A commit that has not started.
pub open spec fn commit_start(batch: Seq<(Seq<char>, u64)>) -> CommitView {
    CommitView { batch, phase: CommitPhase::Begin, next: 0, applied: Seq::empty(), outcome: None }
}

/// The request that a commit in state `v` makes next, if any.
pub open spec fn commit_op(v: CommitView) -> Option<StorageOpView> {
    match v.phase {
        CommitPhase::Begin => Some(StorageOpView::Begin),
        CommitPhase::Apply => Some(
            StorageOpView::Increment(v.batch[v.next as int].0, v.batch[v.next as int].1),
        ),
        CommitPhase::Finish => Some(StorageOpView::Commit),
        CommitPhase::Done => None,
    }
}

/// The state after storage answered the pending request, `ok` telling
/// whether it succeeded. A failed increment is skipped: the commit goes on
/// with the next entry. A failed begin or commit loses the batch.
pub open spec fn commit_after(v: CommitView, ok: bool) -> CommitView {
    match v.phase {
        CommitPhase::Begin => if !ok {
            CommitView { phase: CommitPhase::Done, outcome: Some(CommitOutcome::BeginFailed), ..v }
        } else if v.batch.len() == 0 {
            CommitView { phase: CommitPhase::Finish, ..v }
        } else {
            CommitView { phase: CommitPhase::Apply, ..v }
        },
        CommitPhase::Apply => {
            let applied = if ok {
                v.applied.push(v.batch[v.next as int])
            } else {
                v.applied
            };
            let next = v.next + 1;
            let phase = if next == v.batch.len() {
                CommitPhase::Finish
            } else {
                CommitPhase::Apply
            };
            CommitView { phase, next, applied, ..v }
        },
        CommitPhase::Finish => CommitView {
            phase: CommitPhase::Done,
            outcome: Some(
                if ok {
                    CommitOutcome::Committed
                } else {
                    CommitOutcome::CommitFailed
                },
            ),
            ..v
        },
        CommitPhase::Done => v,
    }
}

/// The commit of one flushed batch: one transaction, one increment per entry.
pub struct CommitRun {
    batch: Vec<(ShortCode, u64)>,
    phase: CommitPhase,
    next: usize,
    applied: Vec<(ShortCode, u64)>,
    outcome: Option<CommitOutcome>,
}

impl View for CommitRun {
    type V = CommitView;

    closed spec fn view(&self) -> CommitView {
        CommitView {
            batch: entry_views(self.batch@),
            phase: self.phase,
            next: self.next as nat,
            applied: entry_views(self.applied@),
            outcome: self.outcome,
        }
    }
}

impl CommitRun {
    #[verifier::type_invariant]
    spec fn well_formed(&self) -> bool {
        &&& self.next <= self.batch@.len()
        &&& self.phase == CommitPhase::Apply ==> self.next < self.batch@.len()
        &&& self.phase == CommitPhase::Begin ==> self.next == 0
    }

    /// A commit of `batch` that has not started.
    pub fn new(batch: Vec<(ShortCode, u64)>) -> (r: Self)
        ensures
            r@ == commit_start(entry_views(batch@)),
    {
        let r = CommitRun {
            batch,
            phase: CommitPhase::Begin,
            next: 0,
            applied: Vec::new(),
            outcome: None,
        };
        assert(entry_views(r.applied@) =~= Seq::empty());
        r
    }

    /// The request to make of storage next; `None` once the commit is done.
    pub fn next_op(&self) -> (r: Option<StorageOp>)
        ensures
            match r {
                Some(op) => commit_op(self@) == Some(op@),
                None => commit_op(self@) is None,
            },
    {
        proof {
            use_type_invariant(self);
        }
        match self.phase {
            CommitPhase::Begin => Some(StorageOp::Begin),
            CommitPhase::Apply => {
                let code = self.batch[self.next].0.clone();
                Some(StorageOp::Increment(code, self.batch[self.next].1))
            },
            CommitPhase::Finish => Some(StorageOp::Commit),
            CommitPhase::Done => None,
        }
    }

    /// Takes storage's answer to the pending request.
    pub fn on_reply(&mut self, ok: bool)
        ensures
            final(self)@ == commit_after(old(self)@, ok),
    {
        proof {
            use_type_invariant(&*self);
        }
        match self.phase {
            CommitPhase::Begin => {
                if !ok {
                    self.outcome = Some(CommitOutcome::BeginFailed);
                    self.phase = CommitPhase::Done;
                } else if self.batch.len() == 0 {
                    self.phase = CommitPhase::Finish;
                } else {
                    self.phase = CommitPhase::Apply;
                }
            },
            CommitPhase::Apply => {
                if ok {
                    let code = self.batch[self.next].0.clone();
                    let count = self.batch[self.next].1;
                    let mut applied: Vec<(ShortCode, u64)> = Vec::new();
                    std::mem::swap(&mut applied, &mut self.applied);
                    let ghost before = applied@;
                    applied.push((code, count));
                    assert(entry_views(applied@) =~= entry_views(before).push(
                        entry_views(self.batch@)[self.next as int],
                    ));
                    self.applied = applied;
                }
                let len = self.batch.len();
                let next = self.next + 1;
                if next == len {
                    self.phase = CommitPhase::Finish;
                }
                self.next = next;
            },
            CommitPhase::Finish => {
                self.outcome = Some(
                    if ok {
                        CommitOutcome::Committed
                    } else {
                        CommitOutcome::CommitFailed
                    },
                );
                self.phase = CommitPhase::Done;
            },
            CommitPhase::Done => {},
        }
    }

    /// How the commit ended; `None` while it is still running.
    pub fn outcome(&self) -> (r: Option<CommitOutcome>)
        ensures
            r == self@.outcome,
    {
        self.outcome
    }
}

} // verus!
