//! Properties of the hit-accounting subsystem that span several messages or
//! several storage replies, proved over the specifications that the store and
//! the commit follow.
use vstd::prelude::*;

use crate::domain::field::short_code::ShortCode;
use crate::web::hit_counter::{
    add_hit, batch_map, commit_after, commit_op, commit_start, count_in, msg_step, run_msgs,
    unique_codes, CommitOutcome, CommitPhase, CommitView, HitMsgView, StorageOpView,
};

verus! {

/// Every message of the run is a hit.
pub open spec fn all_hits(msgs: Seq<HitMsgView>) -> bool {
    forall|i: int| 0 <= i < msgs.len() ==> #[trigger] msgs[i] is Hit
}

/// The views of `code` that the run reports, summed.
pub open spec fn total_for(msgs: Seq<HitMsgView>, code: Seq<char>) -> nat
    decreases msgs.len(),
{
    if msgs.len() == 0 {
        0
    } else {
        total_for(msgs.drop_last(), code) + match msgs.last() {
            HitMsgView::Hit(c, n) => if c == code {
                n as nat
            } else {
                0
            },
            HitMsgView::Commit => 0,
        }
    }
}

/// Some hit of the run is for `code`.
pub open spec fn mentions(msgs: Seq<HitMsgView>, code: Seq<char>) -> bool {
    exists|i: int| 0 <= i < msgs.len() && (#[trigger] msgs[i] matches HitMsgView::Hit(c, _) && c == code)
}

proof fn lemma_hits_accumulate(m: Map<Seq<char>, u64>, hits: Seq<HitMsgView>, code: Seq<char>)
    requires
        all_hits(hits),
        count_in(m, code) + total_for(hits, code) <= u64::MAX,
    ensures
        run_msgs(m, hits).1 == Seq::<Map<Seq<char>, u64>>::empty(),
        count_in(run_msgs(m, hits).0, code) == count_in(m, code) + total_for(hits, code),
        run_msgs(m, hits).0.contains_key(code) <==> (m.contains_key(code) || mentions(hits, code)),
    decreases hits.len(),
{
    if hits.len() > 0 {
        let prefix = hits.drop_last();
        assert forall|i: int| 0 <= i < prefix.len() implies #[trigger] prefix[i] is Hit by {
            assert(hits[i] is Hit);
        }
        lemma_hits_accumulate(m, prefix, code);
        assert(hits[hits.len() - 1] is Hit);
        if mentions(prefix, code) {
            let i = choose|i: int|
                0 <= i < prefix.len() && (#[trigger] prefix[i] matches HitMsgView::Hit(c, _) && c
                    == code);
            assert(hits[i] == prefix[i]);
        }
        if mentions(hits, code) {
            let i = choose|i: int|
                0 <= i < hits.len() && (#[trigger] hits[i] matches HitMsgView::Hit(c, _) && c
                    == code);
            if i < hits.len() - 1 {
                assert(prefix[i] == hits[i]);
            }
        }
    }
}

/// Views are counted exactly: after hits for a code reported since the last
/// flush, the next flush carries for that code the sum of their counts (as
/// long as the sum fits in a `u64`), and carries the code at all exactly when
/// some hit named it. The store is empty after the flush.
pub proof fn lemma_flush_carries_exact_sum(hits: Seq<HitMsgView>, code: Seq<char>)
    requires
        all_hits(hits),
        total_for(hits, code) <= u64::MAX,
    ensures
        run_msgs(Map::empty(), hits.push(HitMsgView::Commit)).1.len() == 1,
        count_in(run_msgs(Map::empty(), hits.push(HitMsgView::Commit)).1[0], code) == total_for(
            hits,
            code,
        ),
        run_msgs(Map::empty(), hits.push(HitMsgView::Commit)).1[0].contains_key(code) <==> mentions(
            hits,
            code,
        ),
        run_msgs(Map::empty(), hits.push(HitMsgView::Commit)).0 == Map::<Seq<char>, u64>::empty(),
{
    lemma_hits_accumulate(Map::empty(), hits, code);
    assert(hits.push(HitMsgView::Commit).drop_last() == hits);
}

/// A flushed batch holds exactly one entry for each code it carries: each
/// code's count is applied once.
pub proof fn lemma_one_entry_per_code(batch: Seq<(ShortCode, u64)>, code: Seq<char>)
    requires
        unique_codes(batch),
        batch_map(batch).contains_key(code),
    ensures
        exists|i: int|
            0 <= i < batch.len() && #[trigger] batch[i].0@ == code && batch[i].1 == batch_map(
                batch,
            )[code] && forall|j: int| 0 <= j < batch.len() && j != i ==> batch[j].0@ != code,
    decreases batch.len(),
{
    let n = batch.len();
    if batch.last().0@ == code {
        assert(batch[n - 1].0@ == code);
    } else {
        let prefix = batch.drop_last();
        assert(unique_codes(prefix)) by {
            assert forall|i: int, j: int| 0 <= i < j < prefix.len() implies prefix[i].0@
                != prefix[j].0@ by {
                assert(prefix[i] == batch[i] && prefix[j] == batch[j]);
            }
        }
        lemma_one_entry_per_code(prefix, code);
        let i = choose|i: int|
            0 <= i < prefix.len() && #[trigger] prefix[i].0@ == code && prefix[i].1 == batch_map(
                prefix,
            )[code] && forall|j: int| 0 <= j < prefix.len() && j != i ==> prefix[j].0@ != code;
        assert(batch[i] == prefix[i]);
        assert forall|j: int| 0 <= j < batch.len() && j != i implies batch[j].0@ != code by {
            if j < n - 1 {
                assert(batch[j] == prefix[j]);
            }
        }
    }
}

proof fn lemma_run_concat(m: Map<Seq<char>, u64>, a: Seq<HitMsgView>, b: Seq<HitMsgView>)
    ensures
        run_msgs(m, a + b).0 == run_msgs(run_msgs(m, a).0, b).0,
        run_msgs(m, a + b).1 == run_msgs(m, a).1 + run_msgs(run_msgs(m, a).0, b).1,
    decreases b.len(),
{
    if b.len() == 0 {
        assert(a + b == a);
        assert(run_msgs(m, a).1 + Seq::<Map<Seq<char>, u64>>::empty() == run_msgs(m, a).1);
    } else {
        assert((a + b).drop_last() == a + b.drop_last());
        assert((a + b).last() == b.last());
        lemma_run_concat(m, a, b.drop_last());
        let mid = run_msgs(m, a).0;
        let left = run_msgs(m, a).1;
        let right = run_msgs(mid, b.drop_last()).1;
        let (_, flushed) = msg_step(run_msgs(mid, b.drop_last()).0, b.last());
        if let Some(batch) = flushed {
            assert(left + right.push(batch) == (left + right).push(batch));
        }
    }
}

proof fn lemma_hits_flush_nothing(m: Map<Seq<char>, u64>, hits: Seq<HitMsgView>)
    requires
        all_hits(hits),
    ensures
        run_msgs(m, hits).1 == Seq::<Map<Seq<char>, u64>>::empty(),
    decreases hits.len(),
{
    if hits.len() > 0 {
        let prefix = hits.drop_last();
        assert forall|i: int| 0 <= i < prefix.len() implies #[trigger] prefix[i] is Hit by {
            assert(hits[i] is Hit);
        }
        lemma_hits_flush_nothing(m, prefix);
        assert(hits[hits.len() - 1] is Hit);
    }
}

/// A hit that arrives after a flush has swapped out the store is not part of
/// that flush's batch: it goes into the next one. Over two flush cycles, the
/// first batch is made of the hits before the first flush (on top of what the
/// store held), the second of the hits between the two flushes alone.
pub proof fn lemma_late_hit_goes_to_next_flush(
    m: Map<Seq<char>, u64>,
    before: Seq<HitMsgView>,
    after: Seq<HitMsgView>,
)
    requires
        all_hits(before),
        all_hits(after),
    ensures
        run_msgs(
            m,
            before.push(HitMsgView::Commit) + after.push(HitMsgView::Commit),
        ).1 == seq![run_msgs(m, before).0, run_msgs(Map::empty(), after).0],
{
    let a = before.push(HitMsgView::Commit);
    let b = after.push(HitMsgView::Commit);
    lemma_run_concat(m, a, b);
    lemma_hits_flush_nothing(m, before);
    lemma_hits_flush_nothing(Map::empty(), after);
    assert(a.drop_last() == before);
    assert(b.drop_last() == after);
    assert(run_msgs(m, a).0 == Map::<Seq<char>, u64>::empty());
    assert(run_msgs(m, a).1 == seq![run_msgs(m, before).0]);
    assert(run_msgs(Map::empty(), b).1 == seq![run_msgs(Map::empty(), after).0]);
    assert(seq![run_msgs(m, before).0] + seq![run_msgs(Map::empty(), after).0] == seq![
        run_msgs(m, before).0,
        run_msgs(Map::empty(), after).0,
    ]);
}

/// After a flush the store holds nothing: whatever came before, the flush's
/// batch is the whole store as it stood, and the store is left empty.
pub proof fn lemma_flush_leaves_store_empty(m: Map<Seq<char>, u64>, msgs: Seq<HitMsgView>)
    ensures
        run_msgs(m, msgs.push(HitMsgView::Commit)).0 == Map::<Seq<char>, u64>::empty(),
        run_msgs(m, msgs.push(HitMsgView::Commit)).1.last() == run_msgs(m, msgs).0,
        forall|code: Seq<char>|
            !(#[trigger] run_msgs(m, msgs.push(HitMsgView::Commit)).0.contains_key(code)),
{
    assert(msgs.push(HitMsgView::Commit).drop_last() == msgs);
}

/// The commit's state after storage gave `replies`, in order.
pub open spec fn commit_replay(v: CommitView, replies: Seq<bool>) -> CommitView
    decreases replies.len(),
{
    if replies.len() == 0 {
        v
    } else {
        commit_after(commit_replay(v, replies.drop_last()), replies.last())
    }
}

/// The entries whose own increment succeeded, `oks[i]` answering `batch[i]`.
pub open spec fn acked(batch: Seq<(Seq<char>, u64)>, oks: Seq<bool>) -> Seq<(Seq<char>, u64)>
    decreases batch.len(),
{
    if batch.len() == 0 || oks.len() == 0 {
        Seq::empty()
    } else if oks.last() {
        acked(batch.drop_last(), oks.drop_last()).push(batch.last())
    } else {
        acked(batch.drop_last(), oks.drop_last())
    }
}

proof fn lemma_commit_prefix(batch: Seq<(Seq<char>, u64)>, oks: Seq<bool>, i: int)
    requires
        oks.len() == batch.len(),
        0 <= i <= batch.len(),
    ensures
        commit_replay(commit_start(batch), seq![true] + oks.take(i)) == (CommitView {
            batch,
            phase: if i < batch.len() {
                CommitPhase::Apply
            } else {
                CommitPhase::Finish
            },
            next: i as nat,
            applied: acked(batch.take(i), oks.take(i)),
            outcome: None,
        }),
    decreases i,
{
    let replies = seq![true] + oks.take(i);
    let start = commit_start(batch);
    if i == 0 {
        assert(replies.drop_last() == Seq::<bool>::empty());
        assert(replies.last() == true);
        assert(commit_replay(start, replies.drop_last()) == start);
        assert(commit_replay(start, replies) == commit_after(start, true));
        assert(batch.take(0).len() == 0);
        assert(acked(batch.take(0), oks.take(0)) == Seq::<(Seq<char>, u64)>::empty());
    } else {
        lemma_commit_prefix(batch, oks, i - 1);
        assert(replies.drop_last() == seq![true] + oks.take(i - 1));
        assert(replies.last() == oks[i - 1]);
        let prior = commit_replay(start, replies.drop_last());
        assert(commit_replay(start, replies) == commit_after(prior, oks[i - 1]));
        assert(batch.take(i).drop_last() == batch.take(i - 1));
        assert(oks.take(i).drop_last() == oks.take(i - 1));
        assert(batch.take(i).last() == batch[i - 1]);
        assert(oks.take(i).last() == oks[i - 1]);
        assert(batch.take(i).len() > 0);
        assert(prior.batch[prior.next as int] == batch[i - 1]);
    }
}

/// A failed increment for one entry does not keep the others from being
/// committed: after the transaction opens, every entry of the batch is tried
/// in turn whatever became of the earlier ones, and when the transaction
/// commits, every entry whose own increment succeeded is committed.
pub proof fn lemma_failed_increment_is_skipped(batch: Seq<(Seq<char>, u64)>, oks: Seq<bool>)
    requires
        oks.len() == batch.len(),
    ensures
        forall|i: int|
            0 <= i < batch.len() ==> commit_op(
                #[trigger] commit_replay(commit_start(batch), seq![true] + oks.take(i)),
            ) == Some(StorageOpView::Increment(batch[i].0, batch[i].1)),
        commit_replay(commit_start(batch), seq![true] + oks + seq![true]).outcome == Some(
            CommitOutcome::Committed,
        ),
        commit_replay(commit_start(batch), seq![true] + oks + seq![true]).applied == acked(
            batch,
            oks,
        ),
{
    assert forall|i: int| 0 <= i < batch.len() implies commit_op(
        #[trigger] commit_replay(commit_start(batch), seq![true] + oks.take(i)),
    ) == Some(StorageOpView::Increment(batch[i].0, batch[i].1)) by {
        lemma_commit_prefix(batch, oks, i);
    }
    let n = batch.len() as int;
    lemma_commit_prefix(batch, oks, n);
    let replies = seq![true] + oks + seq![true];
    assert(replies.drop_last() == seq![true] + oks.take(n));
    assert(batch.take(n) == batch);
    assert(oks.take(n) == oks);
}

/// With no views at all, a flush still runs and touches nothing: the batch
/// swapped out of an empty store is empty, and its commit opens and commits a
/// transaction with no increment in between.
pub proof fn lemma_empty_flush_is_harmless()
    ensures
        run_msgs(Map::empty(), seq![HitMsgView::Commit]).1 == seq![Map::<Seq<char>, u64>::empty()],
        commit_op(commit_start(Seq::empty())) == Some(StorageOpView::Begin),
        commit_op(commit_replay(commit_start(Seq::empty()), seq![true])) == Some(
            StorageOpView::Commit,
        ),
        commit_replay(commit_start(Seq::empty()), seq![true, true]).outcome == Some(
            CommitOutcome::Committed,
        ),
        commit_replay(commit_start(Seq::empty()), seq![true, true]).applied == Seq::<
            (Seq<char>, u64),
        >::empty(),
{
    let one: Seq<bool> = seq![true];
    let two: Seq<bool> = seq![true, true];
    let start = commit_start(Seq::empty());
    assert(one.drop_last() == Seq::<bool>::empty());
    assert(two.drop_last() == one);
    assert(commit_replay(start, Seq::<bool>::empty()) == start);
    assert(commit_replay(start, one) == commit_after(start, true));
    assert(commit_replay(start, two) == commit_after(commit_after(start, true), true));
    let msgs: Seq<HitMsgView> = seq![HitMsgView::Commit];
    assert(msgs.drop_last() == Seq::<HitMsgView>::empty());
    assert(run_msgs(Map::empty(), Seq::<HitMsgView>::empty()).1 == Seq::<Map<Seq<char>, u64>>::empty());
    assert(Seq::<Map<Seq<char>, u64>>::empty().push(Map::empty()) == seq![Map::<Seq<char>, u64>::empty()]);
}

} // verus!
