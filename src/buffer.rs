use vstd::prelude::*;

verus! {

/// What one write into a [`DynamicBuffer`] asks of the GPU.
#[derive(Clone, Copy, Debug, PartialEq, Eq, Structural)]
pub enum BufferWrite {
    /// Replace the buffer by a new one of exactly `size` bytes, filled with the data when it
    /// is created; the old one is released.
    Reallocate { size: u64 },
    /// Update the contents of the current buffer in place with a queued write.
    InPlace,
}

/// Capacity after writing `size` bytes into a buffer of `capacity` bytes.
pub open spec fn grown(capacity: nat, size: nat) -> nat {
    if size > capacity {
        size
    } else {
        capacity
    }
}

/// Capacity after writing each of `sizes`, in order, into a buffer of `initial` bytes.
pub open spec fn capacity_after(initial: nat, sizes: Seq<nat>) -> nat
    decreases sizes.len(),
{
    if sizes.len() == 0 {
        initial
    } else {
        grown(capacity_after(initial, sizes.drop_last()), sizes.last())
    }
}

/// The size bookkeeping of a grow-only GPU buffer: it is replaced by a larger one only when
/// a write does not fit, and never shrinks.
#[derive(Debug)]
pub struct DynamicBuffer {
    capacity: u64,
}

impl DynamicBuffer {
    /// Size in bytes of the buffer currently allocated.
    pub closed spec fn spec_capacity(&self) -> nat {
        self.capacity as nat
    }

    /// Starts with a buffer of `capacity` bytes.
    pub fn new(capacity: u64) -> (buffer: Self)
        ensures
            buffer.spec_capacity() == capacity,
    {
        DynamicBuffer { capacity }
    }

    /// Size in bytes of the buffer currently allocated.
    pub fn capacity(&self) -> (capacity: u64)
        ensures
            capacity == self.spec_capacity(),
    {
        self.capacity
    }

    /// Decides how `size` bytes are written: into a new buffer of exactly `size` bytes when
    /// they do not fit, else in place.
    pub fn write(&mut self, size: u64) -> (action: BufferWrite)
        ensures
            final(self).spec_capacity() == grown(old(self).spec_capacity(), size as nat),
            size > old(self).spec_capacity() ==> action == (BufferWrite::Reallocate { size }),
            size <= old(self).spec_capacity() ==> action == BufferWrite::InPlace,
    {
        if self.capacity < size {
            self.capacity = size;
            BufferWrite::Reallocate { size }
        } else {
            BufferWrite::InPlace
        }
    }
}

/// After any sequence of writes the capacity is at least the initial capacity and at least
/// every size written, and no write made it smaller.
pub proof fn lemma_capacity_monotonic(initial: nat, sizes: Seq<nat>)
    ensures
        capacity_after(initial, sizes) >= initial,
        forall|i: int| 0 <= i < sizes.len() ==> capacity_after(initial, sizes) >= #[trigger] sizes[i],
        forall|k: int|
            0 <= k < sizes.len() ==> #[trigger] capacity_after(initial, sizes.take(k))
                <= capacity_after(initial, sizes.take(k + 1)),
    decreases sizes.len(),
{
    if sizes.len() > 0 {
        let init = sizes.drop_last();
        lemma_capacity_monotonic(initial, init);
        assert forall|i: int| 0 <= i < sizes.len() implies capacity_after(initial, sizes)
            >= #[trigger] sizes[i] by {
            if i < init.len() {
                assert(sizes[i] == init[i]);
            }
        }
        assert forall|k: int| 0 <= k < sizes.len() implies #[trigger] capacity_after(
            initial,
            sizes.take(k),
        ) <= capacity_after(initial, sizes.take(k + 1)) by {
            assert(sizes.take(k + 1).drop_last() =~= sizes.take(k));
        }
    }
}

} // verus!
