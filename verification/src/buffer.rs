//! The sizes of the buffers on the device, and the decision between writing
//! into a buffer and replacing it by a larger one.

use vstd::prelude::*;

verus! {

/// What has to happen before `required` bytes can be written into a buffer.
#[derive(Clone, Copy, Debug, PartialEq, Eq, Structural)]
pub enum WriteHandle {
    /// The buffer is large enough: write over its contents.
    Overwrite,
    /// The buffer is too small: allocate one of `size` bytes in its place and
    /// write into that.
    Allocate { size: u64 },
}

/// A buffer of the pool.
#[derive(Clone, Copy, Debug, PartialEq, Eq, Structural)]
pub struct BufferRef(pub usize);

/// The way to write `required` bytes into a buffer of `capacity` bytes.
pub open spec fn write_handle(capacity: u64, required: u64) -> WriteHandle {
    if capacity >= required {
        WriteHandle::Overwrite
    } else {
        WriteHandle::Allocate { size: required }
    }
}

/// The capacity of a buffer of `capacity` bytes once `required` bytes could
/// be written into it.
pub open spec fn grown(capacity: u64, required: u64) -> u64 {
    if capacity >= required {
        capacity
    } else {
        required
    }
}

/// The capacities of the buffers on the device.
pub struct BufferPool {
    capacities: Vec<u64>,
}

impl View for BufferPool {
    type V = Seq<u64>;

    /// The capacity of every buffer, in the order in which they were added.
    closed spec fn view(&self) -> Seq<u64> {
        self.capacities@
    }
}

impl BufferPool {
    /// A pool without buffers.
    pub fn new() -> (pool: BufferPool)
        ensures
            pool@ == Seq::<u64>::empty(),
    {
        BufferPool { capacities: Vec::new() }
    }

    /// Adds a buffer of `capacity` bytes.
    pub fn add(&mut self, capacity: u64) -> (buffer: BufferRef)
        ensures
            final(self)@ == old(self)@.push(capacity),
            buffer.0 == old(self)@.len(),
    {
        let at = self.capacities.len();
        self.capacities.push(capacity);
        BufferRef(at)
    }

    /// The capacity of a buffer, if the pool holds it.
    pub fn capacity(&self, buffer: BufferRef) -> (capacity: Option<u64>)
        ensures
            capacity == (if buffer.0 < self@.len() {
                Some(self@[buffer.0 as int])
            } else {
                None
            }),
    {
        if buffer.0 < self.capacities.len() {
            Some(self.capacities[buffer.0])
        } else {
            None
        }
    }

    /// Makes room for `required_bytes` in a buffer, and says how to write
    /// them. A buffer that is large enough is kept; a smaller one is replaced
    /// by one of exactly `required_bytes`. No other buffer changes, and for a
    /// buffer that the pool does not hold nothing happens.
    pub fn ensure(&mut self, buffer: BufferRef, required_bytes: u64) -> (handle: Option<
        WriteHandle,
    >)
        ensures
            buffer.0 >= old(self)@.len() ==> handle.is_none() && final(self)@ == old(self)@,
            buffer.0 < old(self)@.len() ==> {
                let before = old(self)@[buffer.0 as int];
                &&& handle == Some(write_handle(before, required_bytes))
                &&& final(self)@ == old(self)@.update(
                    buffer.0 as int,
                    grown(before, required_bytes),
                )
            },
    {
        if buffer.0 >= self.capacities.len() {
            return None;
        }
        let capacity = self.capacities[buffer.0];
        if capacity >= required_bytes {
            assert(self@ =~= old(self)@.update(buffer.0 as int, capacity));
            Some(WriteHandle::Overwrite)
        } else {
            self.capacities.set(buffer.0, required_bytes);
            Some(WriteHandle::Allocate { size: required_bytes })
        }
    }
}

/// The bytes that `count` records of `stride` bytes take, where a `u64`
/// can count them.
pub fn bytes_for(count: usize, stride: u64) -> (bytes: Option<u64>)
    ensures
        bytes == (if count * stride <= u64::MAX {
            Some((count * stride) as u64)
        } else {
            None
        }),
{
    (count as u64).checked_mul(stride)
}

/// Asking twice for the same room allocates at most once: after the first
/// request the buffer is written over.
pub proof fn lemma_ensure_is_idempotent(capacity: u64, required: u64)
    ensures
        write_handle(grown(capacity, required), required) == WriteHandle::Overwrite,
        grown(grown(capacity, required), required) == grown(capacity, required),
{
}

/// A buffer never shrinks, and it is replaced only where it was too small.
pub proof fn lemma_capacity_only_grows(capacity: u64, required: u64)
    ensures
        grown(capacity, required) >= capacity,
        grown(capacity, required) >= required,
        write_handle(capacity, required) == WriteHandle::Overwrite <==> capacity >= required,
        write_handle(capacity, required) == WriteHandle::Overwrite ==> grown(capacity, required)
            == capacity,
{
}

} // verus!
