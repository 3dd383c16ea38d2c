//! The partition of the record identifiers into batches.

use vstd::prelude::*;

verus! {

/// The batch at the front of `ids`: its first `size` identifiers, or all of
/// them where fewer are left.
pub open spec fn first_batch(ids: Seq<i64>, size: nat) -> Seq<i64> {
    if ids.len() <= size {
        ids
    } else {
        ids.take(size as int)
    }
}

/// The batches of `ids`, front to back: the batch at the front, then the
/// batches of what is behind it.
pub open spec fn batches_of(ids: Seq<i64>, size: nat) -> Seq<Seq<i64>>
    decreases ids.len(),
{
    if ids.len() == 0 || size == 0 {
        Seq::empty()
    } else {
        seq![first_batch(ids, size)] + batches_of(
            ids.skip(first_batch(ids, size).len() as int),
            size,
        )
    }
}

/// The identifiers that wait for a worker, and the size of a batch. Batches
/// leave from the front; an identifier that has left does not come back.
pub struct BatchQueue {
    ids: Vec<i64>,
    start: usize,
    batch_size: usize,
}

impl BatchQueue {
    #[verifier::type_invariant]
    spec fn valid(&self) -> bool {
        self.start <= self.ids@.len() && self.batch_size >= 1
    }

    /// The identifiers that no batch has taken yet, in their order.
    pub closed spec fn remaining(&self) -> Seq<i64> {
        self.ids@.skip(self.start as int)
    }

    /// The number of identifiers that a batch holds at most.
    pub closed spec fn size(&self) -> nat {
        self.batch_size as nat
    }

    /// A queue of all of `ids`, to leave in batches of `batch_size`.
    pub fn new(ids: Vec<i64>, batch_size: usize) -> (queue: BatchQueue)
        requires
            batch_size >= 1,
        ensures
            queue.remaining() == ids@,
            queue.size() == batch_size,
    {
        BatchQueue { ids, start: 0, batch_size }
    }

    /// The number of identifiers that wait.
    pub fn len(&self) -> (count: usize)
        ensures
            count == self.remaining().len(),
    {
        proof {
            use_type_invariant(self);
        }
        self.ids.len() - self.start
    }

    /// Takes the next batch off the front, if an identifier is left.
    pub fn next_batch(&mut self) -> (batch: Option<Vec<i64>>)
        ensures
            final(self).size() == old(self).size(),
            old(self).remaining().len() == 0 ==> batch is None && final(self).remaining() == old(
                self,
            ).remaining(),
            old(self).remaining().len() > 0 ==> batch is Some && batch->0@ == first_batch(
                old(self).remaining(),
                old(self).size(),
            ) && final(self).remaining() == old(self).remaining().skip(batch->0@.len() as int),
    {
        proof {
            use_type_invariant(&*self);
        }
        let len = self.ids.len();
        if self.start >= len {
            return None;
        }
        let left = len - self.start;
        let count = if left >= self.batch_size {
            self.batch_size
        } else {
            left
        };
        let mut batch: Vec<i64> = Vec::with_capacity(count);
        let mut taken: usize = 0;
        while taken < count
            invariant
                taken <= count,
                len == self.ids@.len(),
                self.start + count <= len,
                batch@ == self.ids@.subrange(self.start as int, self.start + taken),
            decreases count - taken,
        {
            batch.push(self.ids[self.start + taken]);
            taken = taken + 1;
        }
        assert(batch@ =~= first_batch(old(self).remaining(), old(self).size()));
        self.start = self.start + count;
        assert(self.remaining() =~= old(self).remaining().skip(batch@.len() as int));
        Some(batch)
    }
}

/// Cuts all of `ids` into batches of `batch_size`, front to back.
pub fn partition(ids: Vec<i64>, batch_size: usize) -> (batches: Vec<Vec<i64>>)
    requires
        batch_size >= 1,
    ensures
        batches.deep_view() == batches_of(ids@, batch_size as nat),
{
    let ghost all = ids@;
    let mut queue = BatchQueue::new(ids, batch_size);
    let mut batches: Vec<Vec<i64>> = Vec::new();
    assert(batches.deep_view() =~= Seq::<Seq<i64>>::empty());
    while queue.len() > 0
        invariant
            batch_size >= 1,
            queue.size() == batch_size,
            batches.deep_view() + batches_of(queue.remaining(), batch_size as nat) == batches_of(
                all,
                batch_size as nat,
            ),
        decreases queue.remaining().len(),
    {
        let ghost before = batches.deep_view();
        let ghost waiting = queue.remaining();
        match queue.next_batch() {
            Some(batch) => {
                assert(batch.deep_view() =~= batch@);
                batches.push(batch);
                assert(batches.deep_view() =~~= before.push(
                    first_batch(waiting, batch_size as nat),
                ));
                assert(batches.deep_view() + batches_of(queue.remaining(), batch_size as nat)
                    =~= before + batches_of(waiting, batch_size as nat));
            },
            None => {},
        }
    }
    assert(batches.deep_view() + Seq::<Seq<i64>>::empty() =~= batches.deep_view());
    batches
}

/// The number of batches is that of the identifiers divided by the size of
/// a batch, rounded up. Every batch but the last is full. The last holds
/// what is left over, or is full where nothing is. Put together in their
/// order, the batches are the identifiers again.
pub proof fn law_batches(ids: Seq<i64>, size: nat)
    requires
        size > 0,
    ensures
        batches_of(ids, size).len() == (ids.len() + size - 1) / (size as int),
        forall|k: int|
            0 <= k < batches_of(ids, size).len() - 1 ==> (#[trigger] batches_of(ids, size)[k]).len()
                == size,
        ids.len() > 0 ==> batches_of(ids, size).len() > 0 && batches_of(ids, size).last().len()
            == (if ids.len() % size == 0 {
            size
        } else {
            ids.len() % size
        }),
        batches_of(ids, size).flatten() == ids,
    decreases ids.len(),
{
    let count = ids.len() as int;
    let width = size as int;
    let all = batches_of(ids, size);
    if ids.len() == 0 {
        assert((count + width - 1) / width == 0) by (nonlinear_arith)
            requires
                count == 0,
                width > 0,
        ;
        assert(all.flatten() =~= ids);
    } else {
        let first = first_batch(ids, size);
        let rest = ids.skip(first.len() as int);
        let others = batches_of(rest, size);
        law_batches(rest, size);
        assert(all =~= seq![first] + others);
        assert(all.first() == first);
        assert(all.drop_first() =~= others);
        assert(all.flatten() =~= first + others.flatten());
        assert(first + rest =~= ids);
        if ids.len() <= size {
            assert((count + width - 1) / width == 1) by (nonlinear_arith)
                requires
                    1 <= count <= width,
            ;
            assert((count - count + width - 1) / width == 0) by (nonlinear_arith)
                requires
                    width > 0,
            ;
            assert(count % width == 0 ==> count == width) by (nonlinear_arith)
                requires
                    1 <= count <= width,
            ;
            assert(count % width != 0 ==> count % width == count) by (nonlinear_arith)
                requires
                    1 <= count <= width,
            ;
        } else {
            assert((count + width - 1) / width == (count - width + width - 1) / width + 1)
                by (nonlinear_arith)
                requires
                    width > 0,
            ;
            assert((count - width) % width == count % width) by (nonlinear_arith)
                requires
                    width > 0,
            ;
            assert(others.len() > 0);
            assert(all.last() == others.last());
            assert forall|k: int| 0 <= k < all.len() - 1 implies (#[trigger] all[k]).len()
                == size by {
                if k > 0 {
                    assert(all[k] == others[k - 1]);
                }
            }
        }
    }
}

/// Batch `k` holds the identifiers from index `k` times the size of a
/// batch on, up to the next batch or to the end.
pub proof fn law_batch_at(ids: Seq<i64>, size: nat, k: int)
    requires
        size > 0,
        0 <= k < batches_of(ids, size).len(),
    ensures
        k * size < ids.len(),
        batches_of(ids, size)[k] == ids.subrange(
            k * size,
            if (k + 1) * size <= ids.len() {
                (k + 1) * size
            } else {
                ids.len() as int
            },
        ),
    decreases ids.len(),
{
    let first = first_batch(ids, size);
    let rest = ids.skip(first.len() as int);
    let others = batches_of(rest, size);
    let width = size as int;
    assert(batches_of(ids, size) =~= seq![first] + others);
    if k == 0 {
        assert(0 * width == 0 && (0 + 1) * width == width) by (nonlinear_arith);
        assert(first =~= ids.subrange(
            0,
            if width <= ids.len() {
                width
            } else {
                ids.len() as int
            },
        ));
    } else {
        law_batch_at(rest, size, k - 1);
        assert(batches_of(ids, size)[k] == others[k - 1]);
        assert(ids.len() > size);
        assert((k - 1) * width + width == k * width && (k - 1 + 1) * width + width == (k + 1)
            * width) by (nonlinear_arith);
        let end = if (k + 1) * width <= ids.len() {
            (k + 1) * width
        } else {
            ids.len() as int
        };
        assert(others[k - 1] =~= ids.subrange(k * width, end));
    }
}

} // verus!
