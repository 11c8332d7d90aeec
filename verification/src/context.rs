//! The shared context: built once before the controller starts, then only
//! read, by every reconcile.

use std::sync::Arc;
use vstd::prelude::*;

verus! {

/// What a shared buffer of the given size holds: byte number `i` is `i + 9`,
/// reduced to a byte.
pub open spec fn buffer_contents(size: nat) -> Seq<u8> {
    Seq::new(size, |i: int| ((i + 9) % 256) as u8)
}

/// Allocates and fills the shared buffer.
pub fn allocate(size: usize) -> (buffer: Vec<u8>)
    requires
        size <= isize::MAX,
    ensures
        buffer@ == buffer_contents(size as nat),
{
    let mut buffer: Vec<u8> = Vec::with_capacity(size);
    let mut i: usize = 0;
    while i < size
        invariant
            i <= size <= isize::MAX,
            buffer@ == buffer_contents(i as nat),
        decreases size - i,
    {
        buffer.push(((i + 9) % 256) as u8);
        i += 1;
        assert(buffer@ =~= buffer_contents(i as nat));
    }
    buffer
}

/// Data that every reconcile and every error policy call can read: a handle
/// to the API client and a buffer of fixed size.
///
/// Nothing in this crate changes a `Data` once it is built, and its fields
/// are private: the contents that `new` establishes stay as they are.
pub struct Data<C> {
    client: C,
    huge_mem_alloc: Arc<Vec<u8>>,
}

impl<C> Data<C> {
    /// The client handle held by the context.
    pub closed spec fn client_handle(&self) -> C {
        self.client
    }

    /// The bytes of the shared buffer.
    pub closed spec fn buffer(&self) -> Seq<u8> {
        self.huge_mem_alloc@
    }

    /// Builds the context from a client handle and the configured buffer size.
    pub fn new(client: C, heap_mem_size: usize) -> (data: Self)
        requires
            heap_mem_size <= isize::MAX,
        ensures
            data.client_handle() == client,
            data.buffer() == buffer_contents(heap_mem_size as nat),
    {
        Data { client, huge_mem_alloc: Arc::new(allocate(heap_mem_size)) }
    }

    /// The client handle, from which accessors for namespaced resources are
    /// built.
    pub fn client(&self) -> (client: &C)
        ensures
            *client == self.client_handle(),
    {
        &self.client
    }

    /// The shared buffer.
    pub fn huge_mem_alloc(&self) -> (buffer: &Arc<Vec<u8>>)
        ensures
            buffer@ == self.buffer(),
    {
        &self.huge_mem_alloc
    }

    /// Size of the shared buffer in bytes.
    pub fn buffer_len(&self) -> (len: usize)
        ensures
            len == self.buffer().len(),
    {
        self.huge_mem_alloc.len()
    }
}

} // verus!
