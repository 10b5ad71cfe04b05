//! The bookkeeping of a value that lives in a shared mapping of a file.
//!
//! Mapping memory and reinterpreting it as a `T` is the embedding program's
//! part. This module decides what is asked of the operating system, whether
//! its answer can be used, and what must be undone, and how often, when the
//! handle is given up.
use std::marker::PhantomData;
use vstd::layout::size_of;
use vstd::prelude::*;

verus! {

/// Why the region that the operating system reported cannot hold a value.
#[derive(Clone, Copy, Debug, PartialEq, Eq, Structural)]
pub enum MmapError {
    /// The operating system refused the mapping.
    MappingFailed,
    /// The mapping was reported at address zero, which no reference can have.
    Null,
}

/// The mapping to ask for: `len` bytes of the file from `offset` on, with the
/// protection bits `prot` and the sharing flags `flags`, placed wherever the
/// operating system likes.
#[derive(Clone, Copy, Debug, PartialEq, Eq, Structural)]
pub struct MapRequest {
    pub len: usize,
    pub prot: i32,
    pub flags: i32,
    pub offset: i64,
}

/// The region to give back once the value in it has been destroyed.
#[derive(Clone, Copy, Debug, PartialEq, Eq, Structural)]
pub struct Teardown {
    pub addr: usize,
    pub len: usize,
}

/// What a handle is, apart from the bytes it stands for: where its region
/// starts, how long it is, and whether the region is still mapped.
pub ghost struct FobState {
    pub addr: usize,
    pub len: nat,
    pub active: bool,
}

/// An address at which a value can be read and written: neither zero nor the
/// all-ones address by which a failed mapping is reported.
pub open spec fn usable(addr: usize) -> bool {
    addr != 0 && addr != usize::MAX
}

/// The state in which `Fob::create` leaves a handle for a region of `len`
/// bytes reported at `addr`, or the reason why it makes none.
pub open spec fn created(addr: usize, len: nat) -> Result<FobState, MmapError> {
    if addr == usize::MAX {
        Err(MmapError::MappingFailed)
    } else if addr == 0 {
        Err(MmapError::Null)
    } else {
        Ok(FobState { addr, len, active: true })
    }
}

impl FobState {
    /// The state after the handle has been given up.
    pub open spec fn released(self) -> FobState {
        FobState { active: false, ..self }
    }

    /// Whether `t` is what giving the handle up in this state hands out: the
    /// whole region while it is mapped, and nothing once it is not.
    pub open spec fn hands_out(self, t: Option<Teardown>) -> bool {
        match t {
            Some(region) => self.active && region.addr == self.addr && region.len as nat
                == self.len,
            None => !self.active,
        }
    }
}

/// A handle for one `T` in a shared mapping of a file. `T` is `Copy`, so that
/// its bytes mean the same wherever they are mapped.
pub struct Fob<T: Copy> {
    addr: usize,
    active: bool,
    marker: PhantomData<T>,
}

impl<T: Copy> View for Fob<T> {
    type V = FobState;

    /// The handle's region and whether it is still mapped; the length is
    /// that of a `T`.
    closed spec fn view(&self) -> FobState {
        FobState { addr: self.addr, len: size_of::<T>(), active: self.active }
    }
}

impl<T: Copy> Fob<T> {
    /// A handle is only ever made for a usable address, and keeps it.
    #[verifier::type_invariant]
    spec fn mapped_somewhere(self) -> bool {
        usable(self.addr)
    }

    /// The mapping that a `T` needs, given the platform's bits for read
    /// access, for write access and for sharing: as many bytes as `T`
    /// occupies, from the start of the file, readable and writable, shared.
    pub fn request_with(read: i32, write: i32, shared: i32) -> (r: MapRequest)
        ensures
            r.len as nat == size_of::<T>(),
            r.prot == read | write,
            r.flags == shared,
            r.offset == 0,
    {
        MapRequest { len: std::mem::size_of::<T>(), prot: read | write, flags: shared, offset: 0 }
    }

    /// The mapping that a `T` needs on this platform.
    pub fn request() -> (r: MapRequest)
        ensures
            r.len as nat == size_of::<T>(),
            r.offset == 0,
    {
        Self::request_with(prot_read(), prot_write(), map_shared())
    }

    /// Takes charge of the region that the operating system reported at
    /// `addr` in answer to `request`.
    pub fn create(addr: usize) -> (r: Result<Fob<T>, MmapError>)
        ensures
            r matches Ok(fob) ==> created(addr, size_of::<T>()) == Ok::<FobState, MmapError>(fob@),
            r matches Err(e) ==> created(addr, size_of::<T>()) == Err::<FobState, MmapError>(e),
    {
        if addr == map_failed() {
            Err(MmapError::MappingFailed)
        } else if addr == 0 {
            Err(MmapError::Null)
        } else {
            Ok(Fob { addr, active: true, marker: PhantomData })
        }
    }

    /// Whether the region is still mapped.
    pub fn is_active(&self) -> (b: bool)
        ensures
            b == self@.active,
    {
        self.active
    }

    /// Where the value is, for as long as the region is mapped.
    pub fn target(&self) -> (r: Option<usize>)
        ensures
            self@.active ==> r == Some(self@.addr),
            !self@.active ==> r is None,
            usable(self@.addr),
    {
        proof {
            use_type_invariant(self);
        }
        if self.active {
            Some(self.addr)
        } else {
            None
        }
    }

    /// Gives the handle up. The first call names the region to undo; every
    /// later call finds nothing left.
    pub fn release(&mut self) -> (r: Option<Teardown>)
        ensures
            final(self)@ == old(self)@.released(),
            old(self)@.hands_out(r),
    {
        proof {
            use_type_invariant(&*self);
        }
        if self.active {
            self.active = false;
            Some(Teardown { addr: self.addr, len: std::mem::size_of::<T>() })
        } else {
            None
        }
    }
}

/// Where `create` makes a handle, the address is usable, and the first time
/// the handle is given up it hands out the region it was made for, whole.
pub proof fn lemma_first_release_hands_out_the_region<T: Copy>(
    addr: usize,
    made: Fob<T>,
    t: Option<Teardown>,
)
    requires
        Fob::<T>::create.ensures((addr,), Ok(made)),
        made@.hands_out(t),
    ensures
        usable(addr),
        t matches Some(region) && region.addr == addr && region.len as nat == size_of::<T>(),
{
}

/// Giving a handle up is final: whatever state it was in, it is inactive
/// afterwards, and giving it up again changes nothing and hands out nothing.
pub proof fn lemma_release_is_final(state: FobState, t: Option<Teardown>)
    requires
        state.released().hands_out(t),
    ensures
        !state.released().active,
        state.released().released() == state.released(),
        t is None,
{
}

/// A mapping that the operating system refused is never taken for a region:
/// whatever `create` returns for the all-ones address, it is the error
/// `MappingFailed`, for a value of any type.
pub proof fn lemma_failed_mapping_is_refused<T: Copy>(r: Result<Fob<T>, MmapError>)
    requires
        Fob::<T>::create.ensures((usize::MAX,), r),
    ensures
        r matches Err(e) && e == MmapError::MappingFailed,
{
}

/// `libc::PROT_READ`: the bit that asks for pages that can be read. Its value
/// differs between platforms, so nothing is claimed of it.
#[verifier::external_body]
fn prot_read() -> i32 {
    libc::PROT_READ
}

/// `libc::PROT_WRITE`: the bit that asks for pages that can be written. Its
/// value differs between platforms, so nothing is claimed of it.
#[verifier::external_body]
fn prot_write() -> i32 {
    libc::PROT_WRITE
}

/// `libc::MAP_SHARED`: the flag that makes writes visible to the file's other
/// mappers. Its value differs between platforms, so nothing is claimed of it.
#[verifier::external_body]
fn map_shared() -> i32 {
    libc::MAP_SHARED
}

/// `libc::MAP_FAILED`, the address by which `mmap` reports that it mapped
/// nothing, as an integer. libc defines it as the pointer with every bit set.
#[verifier::external_body]
fn map_failed() -> (addr: usize)
    ensures
        addr == usize::MAX,
{
    libc::MAP_FAILED as usize
}

} // verus!
