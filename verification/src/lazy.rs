//! A publisher handle that allocates its shared memory only at its first write.

use vstd::prelude::*;

verus! {

/// A publisher handle that has either allocated its shared memory, holding the owned allocation
/// `S`, or not yet, holding the name `P` under which it will.
pub enum LazyOwnedSharedMemory<S, P> {
    Allocated(S),
    Unallocated(P),
}

/// A lazy handle for the allocation `name`. Nothing is allocated and no call is made.
pub fn create<S, P>(name: P) -> (r: LazyOwnedSharedMemory<S, P>)
    ensures
        r == LazyOwnedSharedMemory::<S, P>::Unallocated(name),
{
    LazyOwnedSharedMemory::Unallocated(name)
}

impl<S, P> LazyOwnedSharedMemory<S, P> {
    /// The owned allocation the handle holds, `None` before it has allocated.
    pub open spec fn allocation(self) -> Option<S> {
        match self {
            LazyOwnedSharedMemory::Allocated(shm) => Some(shm),
            LazyOwnedSharedMemory::Unallocated(_) => None,
        }
    }

    /// The owned allocation, if the handle has allocated; `None` otherwise.
    pub fn strict(self) -> (r: Option<S>)
        ensures
            r == self.allocation(),
    {
        match self {
            LazyOwnedSharedMemory::Allocated(shm) => Some(shm),
            LazyOwnedSharedMemory::Unallocated(_) => None,
        }
    }

    /// Whether the handle has allocated its shared memory.
    pub fn has_allocated(&self) -> (b: bool)
        ensures
            b == self.allocation() is Some,
            b == self is Allocated,
    {
        match self {
            LazyOwnedSharedMemory::Allocated(_) => true,
            LazyOwnedSharedMemory::Unallocated(_) => false,
        }
    }

    /// The name under which an allocation is still to be made; `None` once the handle has
    /// allocated, when allocating again does nothing.
    pub fn pending_name(&self) -> (r: Option<&P>)
        ensures
            r == match *self {
                LazyOwnedSharedMemory::Allocated(_) => None::<&P>,
                LazyOwnedSharedMemory::Unallocated(name) => Some(&name),
            },
    {
        match self {
            LazyOwnedSharedMemory::Allocated(_) => None,
            LazyOwnedSharedMemory::Unallocated(name) => Some(name),
        }
    }

    /// Takes in the allocation made under the pending name.
    pub fn finish_allocation(&mut self, shm: S)
        requires
            *old(self) is Unallocated,
        ensures
            *final(self) == LazyOwnedSharedMemory::<S, P>::Allocated(shm),
    {
        *self = LazyOwnedSharedMemory::Allocated(shm);
    }
}

/// A handle holds an allocation exactly when it is in the allocated state, and then holds the
/// allocation it was given; a handle that still waits for its allocation holds none.
pub proof fn lemma_allocation_of_states<S, P>(shm: S, name: P)
    ensures
        LazyOwnedSharedMemory::<S, P>::Allocated(shm).allocation() == Some(shm),
        LazyOwnedSharedMemory::<S, P>::Unallocated(name).allocation() is None,
{
}

} // verus!
