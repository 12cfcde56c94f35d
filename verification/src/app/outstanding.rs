//! What was sent and not yet acknowledged.

use vstd::prelude::*;

use crate::app::clock::{plus, sat};

verus! {

/// Packets that are not acknowledged: the sequence number and the size of each, in
/// the order in which they were sent.
pub type Unacked = Seq<(u32, usize)>;

/// How many bytes the packets have together.
pub open spec fn outstanding_bytes(unacked: Unacked) -> nat
    decreases unacked.len(),
{
    if unacked.len() == 0 {
        0
    } else {
        outstanding_bytes(unacked.drop_last()) + unacked.last().1 as nat
    }
}

/// The packets after another one was sent. A sequence number that has reached its
/// limit is used again, and stands for the later packet.
pub open spec fn recorded(unacked: Unacked, sequence_no: u32, size: usize) -> Unacked {
    if unacked.len() > 0 && unacked.last().0 == sequence_no {
        unacked.drop_last().push((sequence_no, size))
    } else {
        unacked.push((sequence_no, size))
    }
}

/// Whether every packet was sent before `next`, and none twice.
pub open spec fn in_order(unacked: Unacked, next: u32) -> bool {
    &&& forall|i: int, j: int|
        0 <= i < j < unacked.len() ==> (#[trigger] unacked[i]).0 < (#[trigger] unacked[j]).0
    &&& forall|i: int|
        0 <= i < unacked.len() ==> (#[trigger] unacked[i]).0 < next || next == u32::MAX
}

/// The rule that picks everything up to `sequence_no`.
pub open spec fn up_to(sequence_no: u32) -> spec_fn((u32, usize)) -> bool {
    |e: (u32, usize)| e.0 <= sequence_no
}

/// The rule that picks everything after `sequence_no`.
pub open spec fn after(sequence_no: u32) -> spec_fn((u32, usize)) -> bool {
    |e: (u32, usize)| e.0 > sequence_no
}

/// The rule that picks this very sequence number.
pub open spec fn just(sequence_no: u32) -> spec_fn((u32, usize)) -> bool {
    |e: (u32, usize)| e.0 == sequence_no
}

/// The rule that picks every other sequence number.
pub open spec fn but(sequence_no: u32) -> spec_fn((u32, usize)) -> bool {
    |e: (u32, usize)| e.0 != sequence_no
}

/// The packets that an acknowledgement of everything up to `sequence_no` covers.
pub open spec fn covered(unacked: Unacked, sequence_no: u32) -> Unacked {
    unacked.filter(up_to(sequence_no))
}

/// The packets that it does not cover.
pub open spec fn uncovered(unacked: Unacked, sequence_no: u32) -> Unacked {
    unacked.filter(after(sequence_no))
}

/// The packets with this very sequence number.
pub open spec fn matching(unacked: Unacked, sequence_no: u32) -> Unacked {
    unacked.filter(just(sequence_no))
}

/// The packets with another sequence number.
pub open spec fn others(unacked: Unacked, sequence_no: u32) -> Unacked {
    unacked.filter(but(sequence_no))
}

/// Records a packet that was sent.
pub fn record(unacked: &mut Vec<(u32, usize)>, sequence_no: u32, size: usize)
    ensures
        final(unacked)@ == recorded(old(unacked)@, sequence_no, size),
{
    if unacked.len() > 0 && unacked[unacked.len() - 1].0 == sequence_no {
        unacked.pop();
        assert(unacked@ =~= old(unacked)@.drop_last());
    }
    unacked.push((sequence_no, size));
}

/// Takes out everything up to `sequence_no` and adds its size to `acked`.
pub fn settle_through(unacked: &mut Vec<(u32, usize)>, sequence_no: u32, acked: u64) -> (total: u64)
    ensures
        final(unacked)@ == uncovered(old(unacked)@, sequence_no),
        total == sat(acked + outstanding_bytes(covered(old(unacked)@, sequence_no))),
{
    let ghost all = unacked@;
    let mut kept: Vec<(u32, usize)> = Vec::new();
    let mut total: u64 = acked;
    let mut i: usize = 0;
    proof {
        assert(all.take(0) =~= Seq::empty());
        reveal(Seq::filter);
    }
    while i < unacked.len()
        invariant
            i <= unacked@.len(),
            unacked@ == all,
            kept@ == uncovered(all.take(i as int), sequence_no),
            total == sat(acked + outstanding_bytes(covered(all.take(i as int), sequence_no))),
        decreases unacked@.len() - i,
    {
        let entry: (u32, usize) = unacked[i];
        proof {
            let next = all.take(i + 1);
            assert(next.drop_last() =~= all.take(i as int));
            assert(next.last() == entry);
            reveal(Seq::filter);
            let so_far = covered(all.take(i as int), sequence_no);
            assert(so_far.push(entry).drop_last() =~= so_far);
        }
        if entry.0 <= sequence_no {
            total = plus(total, entry.1 as u64);
        } else {
            kept.push(entry);
        }
        i = i + 1;
    }
    assert(all.take(all.len() as int) =~= all);
    *unacked = kept;
    total
}

/// Takes out the packet with this sequence number. Gives its size, if there was one.
pub fn settle_one(unacked: &mut Vec<(u32, usize)>, sequence_no: u32) -> (size: Option<usize>)
    requires
        forall|i: int, j: int|
            0 <= i < j < old(unacked)@.len() ==> (#[trigger] old(unacked)@[i]).0 != (
            #[trigger] old(unacked)@[j]).0,
    ensures
        final(unacked)@ == others(old(unacked)@, sequence_no),
        match size {
            Some(n) => matching(old(unacked)@, sequence_no) == seq![(sequence_no, n)],
            None => matching(old(unacked)@, sequence_no).len() == 0,
        },
{
    let ghost all = unacked@;
    let mut kept: Vec<(u32, usize)> = Vec::new();
    let mut size: Option<usize> = None;
    let mut i: usize = 0;
    proof {
        assert(all.take(0) =~= Seq::empty());
        reveal(Seq::filter);
    }
    while i < unacked.len()
        invariant
            i <= unacked@.len(),
            unacked@ == all,
            forall|i: int, j: int|
                0 <= i < j < all.len() ==> (#[trigger] all[i]).0 != (#[trigger] all[j]).0,
            kept@ == others(all.take(i as int), sequence_no),
            match size {
                Some(n) => matching(all.take(i as int), sequence_no) == seq![(sequence_no, n)]
                    && exists|j: int| 0 <= j < i && (#[trigger] all[j]).0 == sequence_no,
                None => matching(all.take(i as int), sequence_no) == Seq::<(u32, usize)>::empty(),
            },
        decreases unacked@.len() - i,
    {
        let entry: (u32, usize) = unacked[i];
        proof {
            let next = all.take(i + 1);
            assert(next.drop_last() =~= all.take(i as int));
            assert(next.last() == entry);
            reveal(Seq::filter);
            assert(all[i as int] == entry);
        }
        if entry.0 == sequence_no {
            size = Some(entry.1);
            assert(matching(all.take(i + 1), sequence_no) =~= seq![(sequence_no, entry.1)]);
        } else {
            kept.push(entry);
        }
        i = i + 1;
    }
    assert(all.take(all.len() as int) =~= all);
    *unacked = kept;
    size
}

pub proof fn lemma_record_keeps_order(unacked: Unacked, next: u32, size: usize)
    requires
        in_order(unacked, next),
    ensures
        in_order(
            recorded(unacked, next, size),
            if next == u32::MAX {
                next
            } else {
                (next + 1) as u32
            },
        ),
{
    let after = recorded(unacked, next, size);
    let later: u32 = if next == u32::MAX {
        next
    } else {
        (next + 1) as u32
    };
    assert forall|i: int, j: int| 0 <= i < j < after.len() implies (#[trigger] after[i]).0 < (
    #[trigger] after[j]).0 by {
        assert(after[i] == unacked[i]);
        if unacked.len() > 0 && unacked.last().0 == next {
            assert(unacked[i].0 < unacked[unacked.len() - 1].0);
        }
    }
    assert forall|i: int| 0 <= i < after.len() implies (#[trigger] after[i]).0 < later || later
        == u32::MAX by {
        if i < after.len() - 1 {
            assert(after[i] == unacked[i]);
        }
    }
}

/// A part of the packets that was picked by a rule is in order and obeys the rule,
/// and what one rule picks and what its opposite picks have all the bytes.
pub proof fn lemma_split(
    unacked: Unacked,
    next: u32,
    rule: spec_fn((u32, usize)) -> bool,
    opposite: spec_fn((u32, usize)) -> bool,
)
    requires
        in_order(unacked, next),
        forall|e: (u32, usize)| #[trigger] opposite(e) == !rule(e),
    ensures
        in_order(unacked.filter(rule), next),
        outstanding_bytes(unacked.filter(rule)) + outstanding_bytes(unacked.filter(opposite))
            == outstanding_bytes(unacked),
        forall|i: int|
            0 <= i < unacked.filter(rule).len() ==> {
                &&& rule(#[trigger] unacked.filter(rule)[i])
                &&& exists|j: int|
                    0 <= j < unacked.len() && #[trigger] unacked[j] == unacked.filter(rule)[i]
            },
    decreases unacked.len(),
{
    reveal(Seq::filter);
    let picked = unacked.filter(rule);
    if unacked.len() > 0 {
        let shorter = unacked.drop_last();
        lemma_split(shorter, next, rule, opposite);
        let last = unacked.last();
        let kept = shorter.filter(rule);
        let left = shorter.filter(opposite);
        assert(opposite(last) == !rule(last));
        assert(kept.push(last).drop_last() =~= kept);
        assert(left.push(last).drop_last() =~= left);
        assert forall|i: int| 0 <= i < picked.len() implies {
            &&& rule(#[trigger] picked[i])
            &&& exists|j: int| 0 <= j < unacked.len() && #[trigger] unacked[j] == picked[i]
        } by {
            if i < kept.len() {
                assert(picked[i] == kept[i]);
                let j = choose|j: int| 0 <= j < shorter.len() && #[trigger] shorter[j] == kept[i];
                assert(unacked[j] == shorter[j]);
            } else {
                assert(unacked[unacked.len() - 1] == picked[i]);
            }
        }
        assert forall|i: int, j: int| 0 <= i < j < picked.len() implies (#[trigger] picked[i]).0 < (
        #[trigger] picked[j]).0 by {
            assert(picked[i] == kept[i]);
            if j < kept.len() {
                assert(picked[j] == kept[j]);
            } else {
                let k = choose|k: int| 0 <= k < shorter.len() && #[trigger] shorter[k] == kept[i];
                assert(unacked[k] == shorter[k]);
                assert(unacked[unacked.len() - 1] == picked[j]);
            }
        }
    }
}

} // verus!
